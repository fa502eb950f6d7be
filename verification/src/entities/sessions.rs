//! Sessions: time-bounded tokens, each issued for one credential.

use crate::clock::Timestamp;
use crate::ident::Uuid;
use vstd::prelude::*;

pub mod postgres;
pub mod sqlite;

verus! {

/// A stored session.
#[derive(Debug, PartialEq, Eq, Clone, Copy, Structural)]
pub struct SessionsDAO {
    pub id: Uuid,
    pub created_at: Timestamp,
    pub expires_at: Timestamp,
    pub credential_id: Uuid,
    pub active: bool,
}

/// What is supplied to create a session; the store assigns the rest.
#[derive(Debug, PartialEq, Eq, Clone, Copy, Structural)]
pub struct CreateSessionsDAO {
    pub expires_at: Timestamp,
    pub credential_id: Uuid,
}

/// A session has nothing that an update may change.
#[derive(Debug, PartialEq, Eq, Clone, Copy, Structural)]
pub struct UpdateSessionsDAO {}

/// How a single session is looked up.
#[derive(Debug, PartialEq, Eq, Clone, Copy, Structural)]
pub enum SessionsBy {
    Id(Uuid),
    CredentialId(Uuid),
}

/// How several sessions are looked up.
#[derive(Debug, PartialEq, Eq, Clone, Copy, Structural)]
pub enum SessionsWhere {
    CredentialId(Uuid),
}

impl SessionsDAO {
    /// Both instants lie in the representable range.
    pub open spec fn wf(&self) -> bool {
        self.created_at.wf() && self.expires_at.wf()
    }

    /// This session with both instants cut down to whole milliseconds.
    pub open spec fn truncated(&self) -> SessionsDAO {
        SessionsDAO {
            id: self.id,
            created_at: self.created_at.truncated(),
            expires_at: self.expires_at.truncated(),
            credential_id: self.credential_id,
            active: self.active,
        }
    }
}

pub const DELETE_BY_ID: &'static str =
    "UPDATE sessions SET active = false WHERE id = $1 RETURNING id, created_at, expires_at, credential_id, active;";

pub const DELETE_BY_CREDENTIAL: &'static str =
    "UPDATE sessions SET active = false WHERE credential_id = $1 RETURNING id, created_at, expires_at, credential_id, active;";

pub const GET_BY_ID: &'static str =
    "SELECT id, created_at, expires_at, credential_id, active FROM sessions WHERE id = $1 LIMIT 1;";

pub const GET_BY_CREDENTIAL: &'static str =
    "SELECT id, created_at, expires_at, credential_id, active FROM sessions WHERE credential_id = $1 LIMIT 1;";

/// The identifier that a key holds.
pub open spec fn key_id(key: SessionsBy) -> Uuid {
    match key {
        SessionsBy::Id(id) => id,
        SessionsBy::CredentialId(id) => id,
    }
}

} // verus!
