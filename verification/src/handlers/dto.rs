//! What travels between the service and its callers.

use crate::clock::instant_text;
use crate::entities::credentials::CredentialsDAO;
use crate::entities::sessions::SessionsDAO;
use crate::ident::uuid_text;
use vstd::prelude::*;

verus! {

/// The body of a sign-up request.
#[derive(Debug, PartialEq, Eq, Clone)]
pub struct CreateCredentialDTO {
    pub email: String,
    pub password: String,
}

/// The body of a sign-in request.
#[derive(Debug, PartialEq, Eq, Clone)]
pub struct SignInDTO {
    pub email: String,
    pub password: String,
}

/// A credential as it is shown to the caller.
#[derive(Debug, PartialEq, Eq, Clone)]
pub struct CredentialDTO {
    pub id: String,
    pub email: String,
    pub password: String,
    pub active: bool,
}

/// A session as it is shown to the caller.
#[derive(Debug, PartialEq, Eq, Clone)]
pub struct SessionsDTO {
    pub id: String,
    pub credential_id: String,
    pub expires_at: String,
    pub created_at: String,
    pub active: bool,
}

impl CredentialDTO {
    /// This is `value` with the identifier in its canonical text.
    pub open spec fn shows(self, value: CredentialsDAO) -> bool {
        &&& self.id@ == uuid_text(value.id.bits)
        &&& self.email == value.email
        &&& self.password == value.password
        &&& self.active == value.active
    }

    /// How a credential is shown. The password field holds the stored
    /// hash.
    pub fn from(value: CredentialsDAO) -> (r: CredentialDTO)
        ensures
            r.shows(value),
    {
        CredentialDTO {
            id: value.id.to_text(),
            email: value.email,
            password: value.password,
            active: value.active,
        }
    }
}

impl SessionsDTO {
    /// This is `value` with identifiers and instants as text.
    pub open spec fn shows(self, value: SessionsDAO) -> bool {
        &&& self.id@ == uuid_text(value.id.bits)
        &&& self.credential_id@ == uuid_text(value.credential_id.bits)
        &&& self.expires_at@ == instant_text(value.expires_at.secs, value.expires_at.nanos)
        &&& self.created_at@ == instant_text(value.created_at.secs, value.created_at.nanos)
        &&& self.active == value.active
    }

    /// How a session is shown.
    pub fn from(value: SessionsDAO) -> (r: SessionsDTO)
        requires
            value.wf(),
        ensures
            r.shows(value),
    {
        SessionsDTO {
            id: value.id.to_text(),
            credential_id: value.credential_id.to_text(),
            expires_at: value.expires_at.to_text(),
            created_at: value.created_at.to_text(),
            active: value.active,
        }
    }
}

} // verus!
