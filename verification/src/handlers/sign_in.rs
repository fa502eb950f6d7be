//! Sign-in: validate, look the credential up, check the password, open a
//! session of one day and hand its identifier out in a cookie.

use crate::clock::Timestamp;
use crate::common::{
    hash_accepts, is_email_bytes, is_valid_password, valid_email, valid_password, verify_password,
    SESSION_KEY,
};
use crate::entities::credentials::{CreateCredentialsDAO, CredentialsBy, CredentialsDAO};
use crate::entities::sessions::{CreateSessionsDAO, SessionsDAO};
use crate::error::{DatabaseError, ServerError};
use crate::handlers::dto::SignInDTO;
use crate::handlers::sign_up::{sign_up_spec, SignUpAction, SignUpEvent, SignUpState};
use crate::ident::{uuid_text, Uuid};
use vstd::prelude::*;

verus! {

/// How long a session lasts.
pub const ONE_DAY_IN_SECONDS: u32 = 60 * 60 * 24;

pub const INVALID_EMAIL: &'static str = "Invalid Email Format";

pub const SHORT_PASSWORD: &'static str = "Password must be at least 6 characters long";

/// The path that the session cookie is scoped to.
pub const COOKIE_PATH: &'static str = "/";

/// The cookie that carries a session to the caller.
#[derive(Debug, PartialEq, Eq, Clone)]
pub struct SessionCookie {
    pub name: String,
    pub value: String,
    pub path: String,
    pub secure: bool,
    pub http_only: bool,
    pub expires: Timestamp,
}

/// `cookie::Cookie::build` on a name and a value, with `path`, `secure`,
/// `http_only` and `expires` set, then `build` and the `Display` of the
/// cookie. Nothing is promised of the text.
#[verifier::external_body]
fn render_cookie(
    name: &str,
    value: &str,
    path: &str,
    secure: bool,
    http_only: bool,
    expires: time::OffsetDateTime,
) -> (r: String) {
    cookie::Cookie::build((name, value)).path(path).secure(secure).http_only(http_only).expires(
        expires,
    ).build().to_string()
}

impl SessionCookie {
    /// The value of the `Set-Cookie` header that hands this cookie out.
    /// Fails with an internal failure exactly when the expiry cannot be
    /// written as a calendar date of four digits.
    pub fn header(&self) -> (r: Result<String, ServerError>)
        ensures
            r is Ok <==> self.expires.fits_calendar(),
            r matches Err(e) ==> e is InternalServerError,
    {
        match self.expires.to_offset_datetime() {
            Ok(expires) => Ok(
                render_cookie(
                    self.name.as_str(),
                    self.value.as_str(),
                    self.path.as_str(),
                    self.secure,
                    self.http_only,
                    expires,
                ),
            ),
            Err(e) => Err(e),
        }
    }

    /// This is the session cookie with the given value and expiry: named
    /// `ssid`, scoped to the root path, secure and hidden from scripts.
    pub open spec fn carries(self, value: Seq<char>, expires_at: Timestamp) -> bool {
        &&& self.name@ == SESSION_KEY@
        &&& self.value@ == value
        &&& self.path@ == COOKIE_PATH@
        &&& self.secure
        &&& self.http_only
        &&& self.expires == expires_at
    }
}

/// The session cookie for a value and an expiry.
pub fn cookie(value: &str, expires_at: Timestamp) -> (r: SessionCookie)
    ensures
        r.carries(value@, expires_at),
{
    SessionCookie {
        name: SESSION_KEY.to_owned(),
        value: value.to_owned(),
        path: COOKIE_PATH.to_owned(),
        secure: true,
        http_only: true,
        expires: expires_at,
    }
}

/// Where a sign-in stands.
#[derive(Debug, PartialEq, Eq)]
pub enum SignInState {
    /// Waiting for the request.
    Start,
    /// The store was asked for the credential of the address.
    Looking { password: String },
    /// The store was asked to insert the session.
    Inserting,
    /// The sign-in is over.
    Done,
}

/// What the transport reports.
#[derive(Debug, PartialEq, Eq)]
pub enum SignInEvent {
    /// A request came in.
    Request(SignInDTO),
    /// What the lookup gave, and the time at which it came back.
    Credential { found: Result<Option<CredentialsDAO>, DatabaseError>, now: Timestamp },
    /// What the insert gave.
    Session(Result<SessionsDAO, DatabaseError>),
}

/// What the transport is to do next.
#[derive(Debug, PartialEq, Eq)]
pub enum SignInAction {
    /// Answer with the failure; the store was not touched.
    Reject(ServerError),
    /// Open the transaction and look up the credential with this key.
    Find(CredentialsBy),
    /// Insert this session.
    Insert(CreateSessionsDAO),
    /// Commit and answer with this cookie.
    Succeed(SessionCookie),
    /// Abandon the transaction and answer with the failure.
    Fail(ServerError),
}

impl SignInState {
    /// `event` is a report that this state waits for. A lookup comes back
    /// at an instant from which one day can be counted.
    pub open spec fn expects(self, event: SignInEvent) -> bool {
        match self {
            SignInState::Start => event is Request,
            SignInState::Looking { .. } => event matches SignInEvent::Credential { now, .. }
                && now.wf() && now.plus(ONE_DAY_IN_SECONDS) is Some,
            SignInState::Inserting => event is Session,
            SignInState::Done => false,
        }
    }

    /// Whether `event` is a report that this state waits for.
    pub fn accepts(&self, event: &SignInEvent) -> (r: bool)
        ensures
            r == self.expects(*event),
    {
        match self {
            SignInState::Start => matches!(event, SignInEvent::Request(_)),
            SignInState::Looking { .. } => match event {
                SignInEvent::Credential { now, .. } => now.is_valid() && now.checked_add_seconds(
                    ONE_DAY_IN_SECONDS,
                ).is_some(),
                _ => false,
            },
            SignInState::Inserting => matches!(event, SignInEvent::Session(_)),
            SignInState::Done => false,
        }
    }
}

/// The session that is opened for a credential at the instant `now`: it
/// expires exactly one day later.
pub open spec fn session_for(credential_id: Uuid, now: Timestamp) -> CreateSessionsDAO {
    CreateSessionsDAO {
        expires_at: Timestamp {
            secs: (now.secs + ONE_DAY_IN_SECONDS) as i64,
            nanos: now.nanos,
        },
        credential_id,
    }
}

/// What follows the check of the password against the stored hash: a
/// session when it matched, a refusal when it did not, and the checker's
/// failure when the stored text is no hash.
pub open spec fn verified_spec(
    credential_id: Uuid,
    check: Result<bool, ServerError>,
    now: Timestamp,
    next: SignInState,
    action: SignInAction,
) -> bool {
    match check {
        Ok(true) => next == SignInState::Inserting && action == SignInAction::Insert(
            session_for(credential_id, now),
        ),
        Ok(false) => next == SignInState::Done && action == SignInAction::Fail(
            ServerError::Unauthorized,
        ),
        Err(e) => next == SignInState::Done && action == SignInAction::Fail(e),
    }
}

/// The rule of sign-in: from a state and a report to the next state and
/// the next action.
pub open spec fn sign_in_spec(
    state: SignInState,
    event: SignInEvent,
    next: SignInState,
    action: SignInAction,
) -> bool {
    match (state, event) {
        (SignInState::Start, SignInEvent::Request(payload)) => {
            if !valid_email(payload.email@) {
                &&& next == SignInState::Done
                &&& action matches SignInAction::Reject(e)
                &&& e.is_bad_request(INVALID_EMAIL@)
            } else if !valid_password(payload.password@) {
                &&& next == SignInState::Done
                &&& action matches SignInAction::Reject(e)
                &&& e.is_bad_request(SHORT_PASSWORD@)
            } else {
                &&& next == SignInState::Looking { password: payload.password }
                &&& action == SignInAction::Find(CredentialsBy::Email(payload.email))
            }
        },
        (SignInState::Looking { password }, SignInEvent::Credential { found, now }) => {
            match found {
                Err(_) => {
                    &&& next == SignInState::Done
                    &&& action matches SignInAction::Fail(e)
                    &&& e.is_generic_internal()
                },
                Ok(None) => {
                    &&& next == SignInState::Done
                    &&& action == SignInAction::Fail(ServerError::Unauthorized)
                },
                Ok(Some(credential)) => {
                    if !credential.active {
                        &&& next == SignInState::Done
                        &&& action == SignInAction::Fail(ServerError::Unauthorized)
                    } else {
                        match hash_accepts(password@, credential.password@) {
                            Some(true) => {
                                &&& next == SignInState::Inserting
                                &&& action == SignInAction::Insert(
                                    session_for(credential.id, now),
                                )
                            },
                            Some(false) => {
                                &&& next == SignInState::Done
                                &&& action == SignInAction::Fail(ServerError::Unauthorized)
                            },
                            None => {
                                &&& next == SignInState::Done
                                &&& action matches SignInAction::Fail(e)
                                &&& e is InternalServerError
                            },
                        }
                    }
                },
            }
        },
        (SignInState::Inserting, SignInEvent::Session(outcome)) => {
            match outcome {
                Ok(session) => {
                    if session.expires_at.fits_calendar() {
                        &&& next == SignInState::Done
                        &&& action matches SignInAction::Succeed(issued)
                        &&& issued.carries(uuid_text(session.id.bits), session.expires_at)
                    } else {
                        &&& next == SignInState::Done
                        &&& action matches SignInAction::Fail(e)
                        &&& e is InternalServerError
                    }
                },
                Err(_) => {
                    &&& next == SignInState::Done
                    &&& action matches SignInAction::Fail(e)
                    &&& e.is_generic_internal()
                },
            }
        },
        _ => false,
    }
}

/// What follows the check of the password against the stored hash.
pub fn sign_in_verified(credential_id: Uuid, check: Result<bool, ServerError>, now: Timestamp) -> (r:
    (SignInState, SignInAction))
    requires
        now.wf(),
        now.plus(ONE_DAY_IN_SECONDS) is Some,
    ensures
        verified_spec(credential_id, check, now, r.0, r.1),
{
    match check {
        Ok(true) => match now.checked_add_seconds(ONE_DAY_IN_SECONDS) {
            Some(expires_at) => (
                SignInState::Inserting,
                SignInAction::Insert(CreateSessionsDAO { expires_at, credential_id }),
            ),
            None => unreached(),
        },
        Ok(false) => (SignInState::Done, SignInAction::Fail(ServerError::Unauthorized)),
        Err(e) => (SignInState::Done, SignInAction::Fail(e)),
    }
}

/// One step of a sign-in. The transport starts in [`SignInState::Start`]
/// with the request, performs each action and reports its outcome, until
/// the action is `Reject`, `Succeed` or `Fail`.
pub fn sign_in(state: SignInState, event: SignInEvent) -> (r: (SignInState, SignInAction))
    requires
        state.expects(event),
    ensures
        sign_in_spec(state, event, r.0, r.1),
{
    match state {
        SignInState::Start => match event {
            SignInEvent::Request(payload) => {
                if !is_email_bytes(payload.email.as_str().as_bytes()) {
                    (
                        SignInState::Done,
                        SignInAction::Reject(ServerError::BadRequest(INVALID_EMAIL.to_owned())),
                    )
                } else if !is_valid_password(payload.password.as_str()) {
                    (
                        SignInState::Done,
                        SignInAction::Reject(ServerError::BadRequest(SHORT_PASSWORD.to_owned())),
                    )
                } else {
                    (
                        SignInState::Looking { password: payload.password },
                        SignInAction::Find(CredentialsBy::Email(payload.email)),
                    )
                }
            },
            _ => unreached(),
        },
        SignInState::Looking { password } => match event {
            SignInEvent::Credential { found: Err(kind), .. } => (
                SignInState::Done,
                SignInAction::Fail(ServerError::from(kind)),
            ),
            SignInEvent::Credential { found: Ok(None), .. } => (
                SignInState::Done,
                SignInAction::Fail(ServerError::Unauthorized),
            ),
            SignInEvent::Credential { found: Ok(Some(credential)), now } => {
                if !credential.active {
                    (SignInState::Done, SignInAction::Fail(ServerError::Unauthorized))
                } else {
                    let check = verify_password(password.as_str(), credential.password.as_str());
                    sign_in_verified(credential.id, check, now)
                }
            },
            _ => unreached(),
        },
        SignInState::Inserting => match event {
            SignInEvent::Session(Ok(session)) => match session.expires_at.to_offset_datetime() {
                Ok(_) => {
                    let id = session.id.to_text();
                    (
                        SignInState::Done,
                        SignInAction::Succeed(cookie(id.as_str(), session.expires_at)),
                    )
                },
                Err(e) => (SignInState::Done, SignInAction::Fail(e)),
            },
            SignInEvent::Session(Err(kind)) => (
                SignInState::Done,
                SignInAction::Fail(ServerError::from(kind)),
            ),
            _ => unreached(),
        },
        SignInState::Done => unreached(),
    }
}

/// A deactivated credential is refused exactly as an unknown address is:
/// the two answers cannot be told apart.
pub proof fn lemma_deactivated_is_unknown(
    password: String,
    credential: CredentialsDAO,
    now: Timestamp,
    next_known: SignInState,
    action_known: SignInAction,
    next_unknown: SignInState,
    action_unknown: SignInAction,
)
    requires
        !credential.active,
        sign_in_spec(
            SignInState::Looking { password },
            SignInEvent::Credential { found: Ok(Some(credential)), now },
            next_known,
            action_known,
        ),
        sign_in_spec(
            SignInState::Looking { password },
            SignInEvent::Credential { found: Ok(None), now },
            next_unknown,
            action_unknown,
        ),
    ensures
        action_known == SignInAction::Fail(ServerError::Unauthorized),
        action_known == action_unknown,
        next_known == next_unknown,
{
}

/// A password that the stored hash does not accept is refused as
/// unauthorized, and no session is opened.
pub proof fn lemma_wrong_password_is_refused(
    password: String,
    credential: CredentialsDAO,
    now: Timestamp,
    next: SignInState,
    action: SignInAction,
)
    requires
        hash_accepts(password@, credential.password@) == Some(false),
        sign_in_spec(
            SignInState::Looking { password },
            SignInEvent::Credential { found: Ok(Some(credential)), now },
            next,
            action,
        ),
    ensures
        action == SignInAction::Fail(ServerError::Unauthorized),
        next == SignInState::Done,
{
}

/// A whole sign-in: for a valid request, an active credential whose hash
/// accepts the password, and a store that keeps the session it is handed,
/// the steps ask for the lookup by address, then for a session that expires
/// exactly one day after the lookup, and end with the cookie that carries
/// the session's identifier and expiry.
pub proof fn lemma_sign_in_run(
    payload: SignInDTO,
    credential: CredentialsDAO,
    now: Timestamp,
    session: SessionsDAO,
    steps: Seq<(SignInState, SignInAction)>,
)
    requires
        valid_email(payload.email@),
        valid_password(payload.password@),
        credential.active,
        hash_accepts(payload.password@, credential.password@) == Some(true),
        now.wf(),
        now.plus(ONE_DAY_IN_SECONDS) is Some,
        session.credential_id == credential.id,
        session.expires_at == session_for(credential.id, now).expires_at,
        session.expires_at.fits_calendar(),
        steps.len() == 3,
        sign_in_spec(SignInState::Start, SignInEvent::Request(payload), steps[0].0, steps[0].1),
        sign_in_spec(
            steps[0].0,
            SignInEvent::Credential { found: Ok(Some(credential)), now },
            steps[1].0,
            steps[1].1,
        ),
        sign_in_spec(steps[1].0, SignInEvent::Session(Ok(session)), steps[2].0, steps[2].1),
    ensures
        steps[0].1 == SignInAction::Find(CredentialsBy::Email(payload.email)),
        steps[1].1 == SignInAction::Insert(session_for(credential.id, now)),
        session.expires_at.secs - now.secs == ONE_DAY_IN_SECONDS,
        session.expires_at.nanos == now.nanos,
        steps[2].0 == SignInState::Done,
        steps[2].1 matches SignInAction::Succeed(issued) && issued.carries(
            uuid_text(session.id.bits),
            session.expires_at,
        ),
{
}

/// Sign-up followed by sign-in: when sign-up has stored a credential for
/// a password, a sign-in with that password on the stored credential is
/// granted a session, which expires exactly one day after the lookup.
pub proof fn lemma_sign_in_after_sign_up(
    email: String,
    password: String,
    stored: CreateCredentialsDAO,
    after_hash: SignUpState,
    credential: CredentialsDAO,
    now: Timestamp,
    next: SignInState,
    action: SignInAction,
)
    requires
        sign_up_spec(
            SignUpState::Checking { email, password },
            SignUpEvent::Exists(Ok(false)),
            after_hash,
            SignUpAction::Insert(stored),
        ),
        credential.password == stored.password,
        credential.active,
        now.wf(),
        now.plus(ONE_DAY_IN_SECONDS) is Some,
        sign_in_spec(
            SignInState::Looking { password },
            SignInEvent::Credential { found: Ok(Some(credential)), now },
            next,
            action,
        ),
    ensures
        next == SignInState::Inserting,
        action matches SignInAction::Insert(session) && session.credential_id == credential.id
            && session.expires_at.wf() && session.expires_at.secs - now.secs
            == ONE_DAY_IN_SECONDS && session.expires_at.nanos == now.nanos,
{
}

} // verus!
