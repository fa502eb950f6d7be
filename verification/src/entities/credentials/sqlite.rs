//! Credentials on the embedded engine, which holds identifiers as text.

use crate::entities::credentials::{
    CreateCredentialsDAO, CredentialsBy, CredentialsDAO, CredentialsWhere, UpdateCredentialsDAO,
    DELETE_BY_EMAIL, DELETE_BY_ID, GET_BY_EMAIL, GET_BY_ID, TRY_GET_BY_EMAIL, TRY_GET_BY_ID,
    UPDATE_BY_EMAIL, UPDATE_BY_ID,
};
use crate::error::DatabaseError;
use crate::ident::{uuid_text, Uuid};
use crate::repository::{EntityRepository, UpdatableRepository};
use crate::statement::{statement1, statement3, Bind, Fetch, SqlValue, Statement, StatementView};
use vstd::prelude::*;

verus! {

pub const INSERT: &'static str =
    "INSERT INTO credentials (id, email, password) VALUES ($1, $2, $3) RETURNING id, email, password, active;";

/// The detail of the failure that a malformed identifier gives.
pub const BAD_ID: &'static str = "Could not convert id to uuid";

/// A credential as the embedded engine holds it.
#[derive(Debug, PartialEq, Eq, Clone)]
pub struct SqliteCredentialsDAO {
    pub id: String,
    pub email: String,
    pub password: String,
    pub active: bool,
}

impl SqliteCredentialsDAO {
    /// The credential that this row holds, if its identifier can be read.
    pub open spec fn decoded(self) -> Option<CredentialsDAO> {
        match Uuid::parsed(self.id@) {
            Some(id) => Some(
                CredentialsDAO {
                    id,
                    email: self.email,
                    password: self.password,
                    active: self.active,
                },
            ),
            None => None,
        }
    }

    /// This row is `value` with the identifier in its canonical text.
    pub open spec fn encodes(self, value: CredentialsDAO) -> bool {
        &&& self.id@ == uuid_text(value.id.bits)
        &&& self.email == value.email
        &&& self.password == value.password
        &&& self.active == value.active
    }

    /// The row for a credential. Decoding the row gives the credential back.
    pub fn from(value: CredentialsDAO) -> (r: SqliteCredentialsDAO)
        ensures
            r.encodes(value),
            r.decoded() == Some(value),
    {
        SqliteCredentialsDAO {
            id: value.id.to_text(),
            email: value.email,
            password: value.password,
            active: value.active,
        }
    }

    /// `r` is what decoding this row gives: the credential, or the
    /// unclassified failure when the identifier cannot be read.
    pub open spec fn decodes_to(self, r: Result<CredentialsDAO, DatabaseError>) -> bool {
        match r {
            Ok(entity) => self.decoded() == Some(entity),
            Err(kind) => self.decoded() is None && kind.is_unknown(BAD_ID@),
        }
    }
}

impl CredentialsDAO {
    /// Decodes a row of the embedded engine.
    pub fn try_from(value: SqliteCredentialsDAO) -> (r: Result<CredentialsDAO, DatabaseError>)
        ensures
            value.decodes_to(r),
    {
        match Uuid::parse_str(value.id.as_str()) {
            Some(id) => Ok(
                CredentialsDAO {
                    id,
                    email: value.email,
                    password: value.password,
                    active: value.active,
                },
            ),
            None => Err(DatabaseError::Unknown(BAD_ID.to_owned())),
        }
    }
}

/// The repository of credentials on the embedded engine.
#[derive(Debug)]
pub struct SqliteCredentialsRepository;

/// The value that stands for a key in a statement.
pub open spec fn key_bind(key: CredentialsBy) -> Bind {
    match key {
        CredentialsBy::Id(id) => Bind::Text(uuid_text(id.bits)),
        CredentialsBy::Email(email) => Bind::Text(email@),
    }
}

/// The statement that stores a new credential under the identifier `id`.
pub open spec fn insert_spec(id: Uuid, input: CreateCredentialsDAO) -> StatementView {
    statement3(
        INSERT@,
        Fetch::One,
        Bind::Text(uuid_text(id.bits)),
        Bind::Text(input.email@),
        Bind::Text(input.password@),
    )
}

fn bind_key(key: CredentialsBy) -> (r: SqlValue)
    ensures
        r@ == key_bind(key),
{
    match key {
        CredentialsBy::Id(id) => SqlValue::Text(id.to_text()),
        CredentialsBy::Email(email) => SqlValue::Text(email),
    }
}

impl SqliteCredentialsRepository {
    /// The statement that stores a new credential under the identifier `id`.
    pub fn insert_with_id(id: Uuid, input: CreateCredentialsDAO) -> (r: Statement)
        ensures
            r@ == insert_spec(id, input),
    {
        Statement::with3(
            INSERT,
            Fetch::One,
            SqlValue::Text(id.to_text()),
            SqlValue::Text(input.email),
            SqlValue::Text(input.password),
        )
    }
}

impl EntityRepository for SqliteCredentialsRepository {
    type Entity = CredentialsDAO;

    type Row = SqliteCredentialsDAO;

    type CreateInput = CreateCredentialsDAO;

    type QueryOne = CredentialsBy;

    type QueryMany = CredentialsWhere;

    open spec fn insertable(input: CreateCredentialsDAO) -> bool {
        true
    }

    /// The credential is stored under some identifier: the repository
    /// draws a fresh random one.
    open spec fn inserts(input: CreateCredentialsDAO, statement: StatementView) -> bool {
        exists|id: Uuid| statement == insert_spec(id, input)
    }

    open spec fn delete_spec(key: CredentialsBy) -> StatementView {
        statement1(
            if key is Id { DELETE_BY_ID@ } else { DELETE_BY_EMAIL@ },
            Fetch::One,
            key_bind(key),
        )
    }

    open spec fn get_spec(key: CredentialsBy) -> StatementView {
        statement1(if key is Id { GET_BY_ID@ } else { GET_BY_EMAIL@ }, Fetch::One, key_bind(key))
    }

    open spec fn try_get_spec(key: CredentialsBy) -> StatementView {
        statement1(
            if key is Id { TRY_GET_BY_ID@ } else { TRY_GET_BY_EMAIL@ },
            Fetch::Optional,
            key_bind(key),
        )
    }

    open spec fn decodes_to(
        row: SqliteCredentialsDAO,
        r: Result<CredentialsDAO, DatabaseError>,
    ) -> bool {
        row.decodes_to(r)
    }

    fn insert(input: CreateCredentialsDAO) -> (r: Statement) {
        let id = Uuid::new_v4();
        Self::insert_with_id(id, input)
    }

    fn delete(key: CredentialsBy) -> (r: Statement) {
        let sql = match &key {
            CredentialsBy::Id(_) => DELETE_BY_ID,
            CredentialsBy::Email(_) => DELETE_BY_EMAIL,
        };
        Statement::with1(sql, Fetch::One, bind_key(key))
    }

    fn get(key: CredentialsBy) -> (r: Statement) {
        let sql = match &key {
            CredentialsBy::Id(_) => GET_BY_ID,
            CredentialsBy::Email(_) => GET_BY_EMAIL,
        };
        Statement::with1(sql, Fetch::One, bind_key(key))
    }

    fn try_get(key: CredentialsBy) -> (r: Statement) {
        let sql = match &key {
            CredentialsBy::Id(_) => TRY_GET_BY_ID,
            CredentialsBy::Email(_) => TRY_GET_BY_EMAIL,
        };
        Statement::with1(sql, Fetch::Optional, bind_key(key))
    }

    fn decode(row: SqliteCredentialsDAO) -> (r: Result<CredentialsDAO, DatabaseError>) {
        CredentialsDAO::try_from(row)
    }
}

impl UpdatableRepository for SqliteCredentialsRepository {
    type UpdateInput = UpdateCredentialsDAO;

    /// Password and active flag are replaced together.
    open spec fn update_spec(key: CredentialsBy, update: UpdateCredentialsDAO) -> StatementView {
        statement3(
            if key is Id { UPDATE_BY_ID@ } else { UPDATE_BY_EMAIL@ },
            Fetch::One,
            key_bind(key),
            Bind::Text(update.password@),
            Bind::Boolean(update.active),
        )
    }

    fn update(key: CredentialsBy, update: UpdateCredentialsDAO) -> (r: Statement) {
        let sql = match &key {
            CredentialsBy::Id(_) => UPDATE_BY_ID,
            CredentialsBy::Email(_) => UPDATE_BY_EMAIL,
        };
        Statement::with3(
            sql,
            Fetch::One,
            bind_key(key),
            SqlValue::Text(update.password),
            SqlValue::Boolean(update.active),
        )
    }
}

} // verus!
