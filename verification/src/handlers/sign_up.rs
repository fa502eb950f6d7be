//! Sign-up: validate, refuse an address that is already registered, hash
//! the password, store the credential.

use crate::common::{hash_accepts, hash_password, is_email_bytes, is_valid_password, valid_email, valid_password};
use crate::entities::credentials::{CreateCredentialsDAO, CredentialsBy, CredentialsDAO};
use crate::error::{DatabaseError, ServerError};
use crate::handlers::dto::{CreateCredentialDTO, CredentialDTO};
use crate::repository::exists_outcome;
use vstd::prelude::*;

verus! {

pub const INVALID_EMAIL: &'static str = "Invalid Email Format";

pub const INVALID_PASSWORD: &'static str = "Invalid Password Format";

/// Where a sign-up stands.
#[derive(Debug, PartialEq, Eq)]
pub enum SignUpState {
    /// Waiting for the request.
    Start,
    /// The store was asked whether the address is registered.
    Checking { email: String, password: String },
    /// The store was asked to insert the credential.
    Inserting,
    /// The sign-up is over.
    Done,
}

/// What the transport reports.
#[derive(Debug, PartialEq, Eq)]
pub enum SignUpEvent {
    /// A request came in.
    Request(CreateCredentialDTO),
    /// Whether the address is registered.
    Exists(Result<bool, DatabaseError>),
    /// What the insert gave.
    Inserted(Result<CredentialsDAO, DatabaseError>),
}

/// What the transport is to do next.
#[derive(Debug, PartialEq, Eq)]
pub enum SignUpAction {
    /// Answer with the failure; the store was not touched.
    Reject(ServerError),
    /// Open the transaction and ask whether a credential has this key.
    CheckExists(CredentialsBy),
    /// Insert this credential.
    Insert(CreateCredentialsDAO),
    /// Commit and answer with the credential.
    Succeed(CredentialDTO),
    /// Abandon the transaction and answer with the failure.
    Fail(ServerError),
}

impl SignUpState {
    /// `event` is a report that this state waits for.
    pub open spec fn expects(self, event: SignUpEvent) -> bool {
        match self {
            SignUpState::Start => event is Request,
            SignUpState::Checking { .. } => event is Exists,
            SignUpState::Inserting => event is Inserted,
            SignUpState::Done => false,
        }
    }

    /// Whether `event` is a report that this state waits for.
    pub fn accepts(&self, event: &SignUpEvent) -> (r: bool)
        ensures
            r == self.expects(*event),
    {
        match self {
            SignUpState::Start => matches!(event, SignUpEvent::Request(_)),
            SignUpState::Checking { .. } => matches!(event, SignUpEvent::Exists(_)),
            SignUpState::Inserting => matches!(event, SignUpEvent::Inserted(_)),
            SignUpState::Done => false,
        }
    }
}

/// What follows the hashing of the password: the insert of the credential
/// with the hash in place of the password, or the hasher's failure.
pub open spec fn hashed_spec(
    email: String,
    hashed: Result<String, ServerError>,
    next: SignUpState,
    action: SignUpAction,
) -> bool {
    match hashed {
        Ok(hash) => next == SignUpState::Inserting && action == SignUpAction::Insert(
            CreateCredentialsDAO { email, password: hash },
        ),
        Err(e) => next == SignUpState::Done && action == SignUpAction::Fail(e),
    }
}

/// The rule of sign-up: from a state and a report to the next state and
/// the next action.
pub open spec fn sign_up_spec(
    state: SignUpState,
    event: SignUpEvent,
    next: SignUpState,
    action: SignUpAction,
) -> bool {
    match (state, event) {
        (SignUpState::Start, SignUpEvent::Request(payload)) => {
            if !valid_email(payload.email@) {
                &&& next == SignUpState::Done
                &&& action matches SignUpAction::Reject(e)
                &&& e.is_bad_request(INVALID_EMAIL@)
            } else if !valid_password(payload.password@) {
                &&& next == SignUpState::Done
                &&& action matches SignUpAction::Reject(e)
                &&& e.is_bad_request(INVALID_PASSWORD@)
            } else {
                &&& next == SignUpState::Checking {
                    email: payload.email,
                    password: payload.password,
                }
                &&& action == SignUpAction::CheckExists(CredentialsBy::Email(payload.email))
            }
        },
        (SignUpState::Checking { email, password }, SignUpEvent::Exists(found)) => {
            match found {
                Err(_) => {
                    &&& next == SignUpState::Done
                    &&& action matches SignUpAction::Fail(e)
                    &&& e.is_generic_internal()
                },
                Ok(true) => {
                    &&& next == SignUpState::Done
                    &&& action == SignUpAction::Fail(ServerError::Unauthorized)
                },
                Ok(false) => match action {
                    SignUpAction::Insert(input) => {
                        &&& next == SignUpState::Inserting
                        &&& input.email == email
                        &&& hash_accepts(password@, input.password@) == Some(true)
                    },
                    SignUpAction::Fail(e) => next == SignUpState::Done && e is InternalServerError,
                    _ => false,
                },
            }
        },
        (SignUpState::Inserting, SignUpEvent::Inserted(outcome)) => {
            match outcome {
                Ok(credential) => {
                    &&& next == SignUpState::Done
                    &&& action matches SignUpAction::Succeed(shown)
                    &&& shown.shows(credential)
                },
                Err(_) => {
                    &&& next == SignUpState::Done
                    &&& action matches SignUpAction::Fail(e)
                    &&& e.is_generic_internal()
                },
            }
        },
        _ => false,
    }
}

/// What follows the hashing of the password.
pub fn sign_up_hashed(email: String, hashed: Result<String, ServerError>) -> (r: (
    SignUpState,
    SignUpAction,
))
    ensures
        hashed_spec(email, hashed, r.0, r.1),
{
    match hashed {
        Ok(hash) => (
            SignUpState::Inserting,
            SignUpAction::Insert(CreateCredentialsDAO { email, password: hash }),
        ),
        Err(e) => (SignUpState::Done, SignUpAction::Fail(e)),
    }
}

/// One step of a sign-up. The transport starts in [`SignUpState::Start`]
/// with the request, performs each action and reports its outcome, until
/// the action is `Reject`, `Succeed` or `Fail`.
pub fn sign_up(state: SignUpState, event: SignUpEvent) -> (r: (SignUpState, SignUpAction))
    requires
        state.expects(event),
    ensures
        sign_up_spec(state, event, r.0, r.1),
{
    match state {
        SignUpState::Start => match event {
            SignUpEvent::Request(payload) => {
                if !is_email_bytes(payload.email.as_str().as_bytes()) {
                    (
                        SignUpState::Done,
                        SignUpAction::Reject(ServerError::BadRequest(INVALID_EMAIL.to_owned())),
                    )
                } else if !is_valid_password(payload.password.as_str()) {
                    (
                        SignUpState::Done,
                        SignUpAction::Reject(ServerError::BadRequest(INVALID_PASSWORD.to_owned())),
                    )
                } else {
                    let key = CredentialsBy::Email(payload.email.clone());
                    (
                        SignUpState::Checking { email: payload.email, password: payload.password },
                        SignUpAction::CheckExists(key),
                    )
                }
            },
            _ => unreached(),
        },
        SignUpState::Checking { email, password } => match event {
            SignUpEvent::Exists(Err(kind)) => (
                SignUpState::Done,
                SignUpAction::Fail(ServerError::from(kind)),
            ),
            SignUpEvent::Exists(Ok(true)) => (
                SignUpState::Done,
                SignUpAction::Fail(ServerError::Unauthorized),
            ),
            SignUpEvent::Exists(Ok(false)) => {
                let hashed = hash_password(password.as_str());
                sign_up_hashed(email, hashed)
            },
            _ => unreached(),
        },
        SignUpState::Inserting => match event {
            SignUpEvent::Inserted(Ok(credential)) => (
                SignUpState::Done,
                SignUpAction::Succeed(CredentialDTO::from(credential)),
            ),
            SignUpEvent::Inserted(Err(kind)) => (
                SignUpState::Done,
                SignUpAction::Fail(ServerError::from(kind)),
            ),
            _ => unreached(),
        },
        SignUpState::Done => unreached(),
    }
}

/// An address that is already registered is refused as unauthorized,
/// whether its credential is active or not, and nothing is inserted.
pub proof fn lemma_registered_address_is_refused(
    email: String,
    password: String,
    registered: CredentialsDAO,
    found: Result<bool, DatabaseError>,
    next: SignUpState,
    action: SignUpAction,
)
    requires
        exists_outcome(Ok::<Option<CredentialsDAO>, DatabaseError>(Some(registered)), found),
        sign_up_spec(
            SignUpState::Checking { email, password },
            SignUpEvent::Exists(found),
            next,
            action,
        ),
    ensures
        action == SignUpAction::Fail(ServerError::Unauthorized),
        !(action is Insert),
        next == SignUpState::Done,
{
}

/// A whole sign-up: for a valid request on an address that is not yet
/// registered, and a store that keeps the credential it is handed, the
/// steps ask whether the address exists, then for the insert of the address
/// with a hash that accepts the password, and end by showing the stored
/// credential.
pub proof fn lemma_sign_up_run(
    payload: CreateCredentialDTO,
    input: CreateCredentialsDAO,
    credential: CredentialsDAO,
    steps: Seq<(SignUpState, SignUpAction)>,
)
    requires
        valid_email(payload.email@),
        valid_password(payload.password@),
        steps.len() == 3,
        sign_up_spec(SignUpState::Start, SignUpEvent::Request(payload), steps[0].0, steps[0].1),
        sign_up_spec(steps[0].0, SignUpEvent::Exists(Ok(false)), steps[1].0, steps[1].1),
        steps[1].1 == SignUpAction::Insert(input),
        credential.email == input.email,
        credential.password == input.password,
        sign_up_spec(steps[1].0, SignUpEvent::Inserted(Ok(credential)), steps[2].0, steps[2].1),
    ensures
        steps[0].1 == SignUpAction::CheckExists(CredentialsBy::Email(payload.email)),
        input.email == payload.email,
        hash_accepts(payload.password@, credential.password@) == Some(true),
        steps[2].0 == SignUpState::Done,
        steps[2].1 matches SignUpAction::Succeed(shown) && shown.shows(credential),
{
}

/// A request that fails validation is refused before the store is
/// touched: the sign-up is over and no lookup or insert is asked for.
pub proof fn lemma_invalid_request_never_reaches_store(
    payload: CreateCredentialDTO,
    next: SignUpState,
    action: SignUpAction,
)
    requires
        !valid_email(payload.email@) || !valid_password(payload.password@),
        sign_up_spec(SignUpState::Start, SignUpEvent::Request(payload), next, action),
    ensures
        action is Reject,
        next == SignUpState::Done,
{
}

} // verus!
