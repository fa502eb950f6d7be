//! Credentials: a registered address with the hash of its password.

use crate::ident::Uuid;
use vstd::prelude::*;

pub mod postgres;
pub mod sqlite;

verus! {

/// A stored credential. `password` holds the hash, never the plain text.
#[derive(Debug, PartialEq, Eq, Clone)]
pub struct CredentialsDAO {
    pub id: Uuid,
    pub email: String,
    pub password: String,
    pub active: bool,
}

/// What is supplied to create a credential; the store assigns the rest.
#[derive(Debug, PartialEq, Eq, Clone)]
pub struct CreateCredentialsDAO {
    pub email: String,
    pub password: String,
}

/// The fields of a credential that an update may change.
#[derive(Debug, PartialEq, Eq, Clone)]
pub struct UpdateCredentialsDAO {
    pub password: String,
    pub active: bool,
}

/// How a single credential is looked up.
#[derive(Debug, PartialEq, Eq, Clone)]
pub enum CredentialsBy {
    Id(Uuid),
    Email(String),
}

/// How several credentials are looked up.
#[derive(Debug, PartialEq, Eq, Clone)]
pub enum CredentialsWhere {
    Active(bool),
}

pub const DELETE_BY_ID: &'static str =
    "UPDATE credentials SET active = false WHERE id = $1 RETURNING id, email, password, active;";

pub const DELETE_BY_EMAIL: &'static str =
    "UPDATE credentials SET active = false WHERE email = $1 RETURNING id, password, email, active;";

pub const UPDATE_BY_ID: &'static str =
    "UPDATE credentials SET password = $2, active = $3 WHERE id = $1 RETURNING id, email, password, active;";

pub const UPDATE_BY_EMAIL: &'static str =
    "UPDATE credentials SET password = $2, active = $3 WHERE email = $1 RETURNING id, email, password, active;";

pub const GET_BY_ID: &'static str =
    "SELECT id, email, password, active FROM credentials WHERE id = $1 LIMIT 1;";

pub const GET_BY_EMAIL: &'static str =
    "SELECT id, email, password, active FROM credentials WHERE email = $1 LIMIT 1;";

pub const TRY_GET_BY_ID: &'static str =
    "SELECT id, email, password, active FROM credentials WHERE id = $1;";

pub const TRY_GET_BY_EMAIL: &'static str =
    "SELECT id, email, password, active FROM credentials WHERE email = $1;";

} // verus!
