//! Credentials on the production engine, which holds identifiers natively.

use crate::entities::credentials::{
    CreateCredentialsDAO, CredentialsBy, CredentialsDAO, CredentialsWhere, UpdateCredentialsDAO,
    DELETE_BY_EMAIL, DELETE_BY_ID, GET_BY_EMAIL, GET_BY_ID, TRY_GET_BY_EMAIL, TRY_GET_BY_ID,
    UPDATE_BY_EMAIL, UPDATE_BY_ID,
};
use crate::error::DatabaseError;
use crate::repository::{EntityRepository, UpdatableRepository};
use crate::statement::{statement1, statement2, statement3, Bind, Fetch, SqlValue, Statement, StatementView};
use vstd::prelude::*;

verus! {

pub const INSERT: &'static str =
    "INSERT INTO credentials (email, password) VALUES ($1, $2) RETURNING id, email, password, active;";

/// The repository of credentials on the production engine.
#[derive(Debug)]
pub struct PostgresCredentialsRepository;

/// The value that stands for a key in a statement.
pub open spec fn key_bind(key: CredentialsBy) -> Bind {
    match key {
        CredentialsBy::Id(id) => Bind::Uuid(id),
        CredentialsBy::Email(email) => Bind::Text(email@),
    }
}

fn bind_key(key: CredentialsBy) -> (r: SqlValue)
    ensures
        r@ == key_bind(key),
{
    match key {
        CredentialsBy::Id(id) => SqlValue::Uuid(id),
        CredentialsBy::Email(email) => SqlValue::Text(email),
    }
}

impl EntityRepository for PostgresCredentialsRepository {
    type Entity = CredentialsDAO;

    type Row = CredentialsDAO;

    type CreateInput = CreateCredentialsDAO;

    type QueryOne = CredentialsBy;

    type QueryMany = CredentialsWhere;

    open spec fn insertable(input: CreateCredentialsDAO) -> bool {
        true
    }

    open spec fn inserts(input: CreateCredentialsDAO, statement: StatementView) -> bool {
        statement == statement2(
            INSERT@,
            Fetch::One,
            Bind::Text(input.email@),
            Bind::Text(input.password@),
        )
    }

    open spec fn delete_spec(key: CredentialsBy) -> StatementView {
        statement1(
            if key is Id { DELETE_BY_ID@ } else { DELETE_BY_EMAIL@ },
            Fetch::One,
            key_bind(key),
        )
    }

    open spec fn get_spec(key: CredentialsBy) -> StatementView {
        statement1(if key is Id { GET_BY_ID@ } else { GET_BY_EMAIL@ }, Fetch::One, key_bind(key))
    }

    open spec fn try_get_spec(key: CredentialsBy) -> StatementView {
        statement1(
            if key is Id { TRY_GET_BY_ID@ } else { TRY_GET_BY_EMAIL@ },
            Fetch::Optional,
            key_bind(key),
        )
    }

    /// A row of this engine is the credential itself.
    open spec fn decodes_to(row: CredentialsDAO, r: Result<CredentialsDAO, DatabaseError>) -> bool {
        r == Ok::<CredentialsDAO, DatabaseError>(row)
    }

    fn insert(input: CreateCredentialsDAO) -> (r: Statement) {
        Statement::with2(
            INSERT,
            Fetch::One,
            SqlValue::Text(input.email),
            SqlValue::Text(input.password),
        )
    }

    fn delete(key: CredentialsBy) -> (r: Statement) {
        let sql = match &key {
            CredentialsBy::Id(_) => DELETE_BY_ID,
            CredentialsBy::Email(_) => DELETE_BY_EMAIL,
        };
        Statement::with1(sql, Fetch::One, bind_key(key))
    }

    fn get(key: CredentialsBy) -> (r: Statement) {
        let sql = match &key {
            CredentialsBy::Id(_) => GET_BY_ID,
            CredentialsBy::Email(_) => GET_BY_EMAIL,
        };
        Statement::with1(sql, Fetch::One, bind_key(key))
    }

    fn try_get(key: CredentialsBy) -> (r: Statement) {
        let sql = match &key {
            CredentialsBy::Id(_) => TRY_GET_BY_ID,
            CredentialsBy::Email(_) => TRY_GET_BY_EMAIL,
        };
        Statement::with1(sql, Fetch::Optional, bind_key(key))
    }

    fn decode(row: CredentialsDAO) -> (r: Result<CredentialsDAO, DatabaseError>) {
        Ok(row)
    }
}

impl UpdatableRepository for PostgresCredentialsRepository {
    type UpdateInput = UpdateCredentialsDAO;

    /// Password and active flag are replaced together.
    open spec fn update_spec(key: CredentialsBy, update: UpdateCredentialsDAO) -> StatementView {
        statement3(
            if key is Id { UPDATE_BY_ID@ } else { UPDATE_BY_EMAIL@ },
            Fetch::One,
            key_bind(key),
            Bind::Text(update.password@),
            Bind::Boolean(update.active),
        )
    }

    fn update(key: CredentialsBy, update: UpdateCredentialsDAO) -> (r: Statement) {
        let sql = match &key {
            CredentialsBy::Id(_) => UPDATE_BY_ID,
            CredentialsBy::Email(_) => UPDATE_BY_EMAIL,
        };
        Statement::with3(
            sql,
            Fetch::One,
            bind_key(key),
            SqlValue::Text(update.password),
            SqlValue::Boolean(update.active),
        )
    }
}

} // verus!
