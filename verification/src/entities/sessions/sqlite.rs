//! Sessions on the embedded engine, which holds identifiers as text and
//! instants as milliseconds.

use crate::clock::{lemma_millis_round_trip, Timestamp};
use crate::entities::sessions::{
    key_id, CreateSessionsDAO, SessionsBy, SessionsDAO, SessionsWhere, DELETE_BY_CREDENTIAL,
    DELETE_BY_ID, GET_BY_CREDENTIAL, GET_BY_ID,
};
use crate::error::DatabaseError;
use crate::ident::{uuid_text, Uuid};
use crate::repository::EntityRepository;
use crate::statement::{statement1, statement3, Bind, Fetch, SqlValue, Statement, StatementView};
use vstd::prelude::*;

verus! {

pub const INSERT: &'static str =
    "INSERT INTO sessions (id, expires_at, credential_id) VALUES ($1, $2, $3) RETURNING id, created_at, expires_at, credential_id, active;";

pub const BAD_ID: &'static str = "Could not convert id to uuid";

pub const BAD_CREATED_AT: &'static str = "Could not convert created_at to DateTime<Utc>";

pub const BAD_EXPIRES_AT: &'static str = "Could not convert expires_at to DateTime<Utc>";

pub const BAD_CREDENTIAL_ID: &'static str = "Could not convert credential_id to uuid";

/// A session as the embedded engine holds it.
#[derive(Debug, PartialEq, Eq, Clone)]
pub struct SqliteSessionsDAO {
    pub id: String,
    pub created_at: i64,
    pub expires_at: i64,
    pub credential_id: String,
    pub active: bool,
}

/// The field of a row that cannot be decoded.
pub enum SessionField {
    Id,
    CreatedAt,
    ExpiresAt,
    CredentialId,
}

/// The detail of the failure that a malformed field gives.
pub open spec fn field_detail(field: SessionField) -> Seq<char> {
    match field {
        SessionField::Id => BAD_ID@,
        SessionField::CreatedAt => BAD_CREATED_AT@,
        SessionField::ExpiresAt => BAD_EXPIRES_AT@,
        SessionField::CredentialId => BAD_CREDENTIAL_ID@,
    }
}

impl SqliteSessionsDAO {
    /// The session that this row holds, or the first field, in the order
    /// identifier, creation, expiry, credential, that cannot be decoded.
    pub open spec fn decoded(self) -> Result<SessionsDAO, SessionField> {
        match Uuid::parsed(self.id@) {
            None => Err(SessionField::Id),
            Some(id) => match Timestamp::of_millis(self.created_at) {
                None => Err(SessionField::CreatedAt),
                Some(created_at) => match Timestamp::of_millis(self.expires_at) {
                    None => Err(SessionField::ExpiresAt),
                    Some(expires_at) => match Uuid::parsed(self.credential_id@) {
                        None => Err(SessionField::CredentialId),
                        Some(credential_id) => Ok(
                            SessionsDAO {
                                id,
                                created_at,
                                expires_at,
                                credential_id,
                                active: self.active,
                            },
                        ),
                    },
                },
            },
        }
    }

    /// This row is `value` with identifiers as text and instants as
    /// milliseconds.
    pub open spec fn encodes(self, value: SessionsDAO) -> bool {
        &&& self.id@ == uuid_text(value.id.bits)
        &&& self.created_at == value.created_at.millis()
        &&& self.expires_at == value.expires_at.millis()
        &&& self.credential_id@ == uuid_text(value.credential_id.bits)
        &&& self.active == value.active
    }

    /// `r` is what decoding this row gives: the session, or the
    /// unclassified failure that names the first malformed field.
    pub open spec fn decodes_to(self, r: Result<SessionsDAO, DatabaseError>) -> bool {
        match r {
            Ok(entity) => self.decoded() == Ok::<SessionsDAO, SessionField>(entity),
            Err(kind) => self.decoded() matches Err(field) && kind.is_unknown(field_detail(field)),
        }
    }

    /// The row for a session. Decoding the row gives the session back, to
    /// the millisecond.
    pub fn from(value: SessionsDAO) -> (r: SqliteSessionsDAO)
        requires
            value.wf(),
        ensures
            r.encodes(value),
            r.decoded() == Ok::<SessionsDAO, SessionField>(value.truncated()),
    {
        proof {
            lemma_millis_round_trip(value.created_at);
            lemma_millis_round_trip(value.expires_at);
        }
        SqliteSessionsDAO {
            id: value.id.to_text(),
            created_at: value.created_at.timestamp_millis(),
            expires_at: value.expires_at.timestamp_millis(),
            credential_id: value.credential_id.to_text(),
            active: value.active,
        }
    }
}

impl SessionsDAO {
    /// Decodes a row of the embedded engine.
    pub fn try_from(value: SqliteSessionsDAO) -> (r: Result<SessionsDAO, DatabaseError>)
        ensures
            value.decodes_to(r),
            r matches Ok(entity) ==> entity.wf(),
    {
        let id = match Uuid::parse_str(value.id.as_str()) {
            Some(id) => id,
            None => {
                return Err(DatabaseError::Unknown(BAD_ID.to_owned()));
            },
        };
        let created_at = match Timestamp::from_timestamp_millis(value.created_at) {
            Some(at) => at,
            None => {
                return Err(DatabaseError::Unknown(BAD_CREATED_AT.to_owned()));
            },
        };
        let expires_at = match Timestamp::from_timestamp_millis(value.expires_at) {
            Some(at) => at,
            None => {
                return Err(DatabaseError::Unknown(BAD_EXPIRES_AT.to_owned()));
            },
        };
        let credential_id = match Uuid::parse_str(value.credential_id.as_str()) {
            Some(id) => id,
            None => {
                return Err(DatabaseError::Unknown(BAD_CREDENTIAL_ID.to_owned()));
            },
        };
        Ok(SessionsDAO { id, created_at, expires_at, credential_id, active: value.active })
    }
}

/// What is supplied to create a session, as the embedded engine takes it.
#[derive(Debug, PartialEq, Eq, Clone)]
pub struct SqliteCreateSessionsDAO {
    pub expires_at: i64,
    pub credential_id: String,
}

impl SqliteCreateSessionsDAO {
    /// The expiry as milliseconds and the credential as text.
    pub fn from(value: CreateSessionsDAO) -> (r: SqliteCreateSessionsDAO)
        requires
            value.expires_at.wf(),
        ensures
            r.expires_at == value.expires_at.millis(),
            r.credential_id@ == uuid_text(value.credential_id.bits),
            Timestamp::of_millis(r.expires_at) == Some(value.expires_at.truncated()),
            Uuid::parsed(r.credential_id@) == Some(value.credential_id),
    {
        proof {
            lemma_millis_round_trip(value.expires_at);
        }
        SqliteCreateSessionsDAO {
            expires_at: value.expires_at.timestamp_millis(),
            credential_id: value.credential_id.to_text(),
        }
    }
}

/// The repository of sessions on the embedded engine. A session is never
/// updated, so the repository offers no update.
#[derive(Debug)]
pub struct SqliteSessionsRepository;

/// The statement that stores a new session under the identifier `id`.
pub open spec fn insert_spec(id: Uuid, input: CreateSessionsDAO) -> StatementView {
    statement3(
        INSERT@,
        Fetch::One,
        Bind::Text(uuid_text(id.bits)),
        Bind::Integer(input.expires_at.millis() as i64),
        Bind::Text(uuid_text(input.credential_id.bits)),
    )
}

/// The value that stands for a key in a statement.
pub open spec fn key_bind(key: SessionsBy) -> Bind {
    Bind::Text(uuid_text(key_id(key).bits))
}

fn bind_key(key: SessionsBy) -> (r: SqlValue)
    ensures
        r@ == key_bind(key),
{
    match key {
        SessionsBy::Id(id) => SqlValue::Text(id.to_text()),
        SessionsBy::CredentialId(id) => SqlValue::Text(id.to_text()),
    }
}

impl SqliteSessionsRepository {
    /// The statement that stores a new session under the identifier `id`.
    pub fn insert_with_id(id: Uuid, input: CreateSessionsDAO) -> (r: Statement)
        requires
            input.expires_at.wf(),
        ensures
            r@ == insert_spec(id, input),
    {
        let input = SqliteCreateSessionsDAO::from(input);
        Statement::with3(
            INSERT,
            Fetch::One,
            SqlValue::Text(id.to_text()),
            SqlValue::Integer(input.expires_at),
            SqlValue::Text(input.credential_id),
        )
    }
}

impl EntityRepository for SqliteSessionsRepository {
    type Entity = SessionsDAO;

    type Row = SqliteSessionsDAO;

    type CreateInput = CreateSessionsDAO;

    type QueryOne = SessionsBy;

    type QueryMany = SessionsWhere;

    /// The expiry must be an instant that can be counted in milliseconds.
    open spec fn insertable(input: CreateSessionsDAO) -> bool {
        input.expires_at.wf()
    }

    /// The session is stored under some identifier: the repository draws
    /// a fresh random one.
    open spec fn inserts(input: CreateSessionsDAO, statement: StatementView) -> bool {
        exists|id: Uuid| statement == insert_spec(id, input)
    }

    open spec fn delete_spec(key: SessionsBy) -> StatementView {
        statement1(
            if key is Id { DELETE_BY_ID@ } else { DELETE_BY_CREDENTIAL@ },
            Fetch::One,
            key_bind(key),
        )
    }

    open spec fn get_spec(key: SessionsBy) -> StatementView {
        statement1(
            if key is Id { GET_BY_ID@ } else { GET_BY_CREDENTIAL@ },
            Fetch::One,
            key_bind(key),
        )
    }

    open spec fn try_get_spec(key: SessionsBy) -> StatementView {
        statement1(
            if key is Id { GET_BY_ID@ } else { GET_BY_CREDENTIAL@ },
            Fetch::Optional,
            key_bind(key),
        )
    }

    open spec fn decodes_to(row: SqliteSessionsDAO, r: Result<SessionsDAO, DatabaseError>) -> bool {
        row.decodes_to(r)
    }

    fn insert(input: CreateSessionsDAO) -> (r: Statement) {
        let id = Uuid::new_v4();
        Self::insert_with_id(id, input)
    }

    fn delete(key: SessionsBy) -> (r: Statement) {
        let sql = match &key {
            SessionsBy::Id(_) => DELETE_BY_ID,
            SessionsBy::CredentialId(_) => DELETE_BY_CREDENTIAL,
        };
        Statement::with1(sql, Fetch::One, bind_key(key))
    }

    fn get(key: SessionsBy) -> (r: Statement) {
        let sql = match &key {
            SessionsBy::Id(_) => GET_BY_ID,
            SessionsBy::CredentialId(_) => GET_BY_CREDENTIAL,
        };
        Statement::with1(sql, Fetch::One, bind_key(key))
    }

    fn try_get(key: SessionsBy) -> (r: Statement) {
        let sql = match &key {
            SessionsBy::Id(_) => GET_BY_ID,
            SessionsBy::CredentialId(_) => GET_BY_CREDENTIAL,
        };
        Statement::with1(sql, Fetch::Optional, bind_key(key))
    }

    fn decode(row: SqliteSessionsDAO) -> (r: Result<SessionsDAO, DatabaseError>) {
        let r = SessionsDAO::try_from(row);
        r
    }
}

} // verus!
