//! Sessions on the production engine, which holds identifiers and instants
//! natively.

use crate::entities::sessions::{
    key_id, CreateSessionsDAO, SessionsBy, SessionsDAO, SessionsWhere, DELETE_BY_CREDENTIAL,
    DELETE_BY_ID, GET_BY_CREDENTIAL, GET_BY_ID,
};
use crate::error::DatabaseError;
use crate::repository::EntityRepository;
use crate::statement::{statement1, statement2, Bind, Fetch, SqlValue, Statement, StatementView};
use vstd::prelude::*;

verus! {

pub const INSERT: &'static str =
    "INSERT INTO sessions (expires_at, credential_id) VALUES ($1, $2) RETURNING id, created_at, expires_at, credential_id, active;";

/// The repository of sessions on the production engine. A session is never
/// updated, so the repository offers no update.
#[derive(Debug)]
pub struct PostgresSessionsRepository;

fn bind_key(key: SessionsBy) -> (r: SqlValue)
    ensures
        r@ == Bind::Uuid(key_id(key)),
{
    match key {
        SessionsBy::Id(id) => SqlValue::Uuid(id),
        SessionsBy::CredentialId(id) => SqlValue::Uuid(id),
    }
}

impl EntityRepository for PostgresSessionsRepository {
    type Entity = SessionsDAO;

    type Row = SessionsDAO;

    type CreateInput = CreateSessionsDAO;

    type QueryOne = SessionsBy;

    type QueryMany = SessionsWhere;

    open spec fn insertable(input: CreateSessionsDAO) -> bool {
        true
    }

    open spec fn inserts(input: CreateSessionsDAO, statement: StatementView) -> bool {
        statement == statement2(
            INSERT@,
            Fetch::One,
            Bind::Timestamp(input.expires_at),
            Bind::Uuid(input.credential_id),
        )
    }

    open spec fn delete_spec(key: SessionsBy) -> StatementView {
        statement1(
            if key is Id { DELETE_BY_ID@ } else { DELETE_BY_CREDENTIAL@ },
            Fetch::One,
            Bind::Uuid(key_id(key)),
        )
    }

    open spec fn get_spec(key: SessionsBy) -> StatementView {
        statement1(
            if key is Id { GET_BY_ID@ } else { GET_BY_CREDENTIAL@ },
            Fetch::One,
            Bind::Uuid(key_id(key)),
        )
    }

    open spec fn try_get_spec(key: SessionsBy) -> StatementView {
        statement1(
            if key is Id { GET_BY_ID@ } else { GET_BY_CREDENTIAL@ },
            Fetch::Optional,
            Bind::Uuid(key_id(key)),
        )
    }

    /// A row of this engine is the session itself.
    open spec fn decodes_to(row: SessionsDAO, r: Result<SessionsDAO, DatabaseError>) -> bool {
        r == Ok::<SessionsDAO, DatabaseError>(row)
    }

    fn insert(input: CreateSessionsDAO) -> (r: Statement) {
        Statement::with2(
            INSERT,
            Fetch::One,
            SqlValue::Timestamp(input.expires_at),
            SqlValue::Uuid(input.credential_id),
        )
    }

    fn delete(key: SessionsBy) -> (r: Statement) {
        let sql = match &key {
            SessionsBy::Id(_) => DELETE_BY_ID,
            SessionsBy::CredentialId(_) => DELETE_BY_CREDENTIAL,
        };
        Statement::with1(sql, Fetch::One, bind_key(key))
    }

    fn get(key: SessionsBy) -> (r: Statement) {
        let sql = match &key {
            SessionsBy::Id(_) => GET_BY_ID,
            SessionsBy::CredentialId(_) => GET_BY_CREDENTIAL,
        };
        Statement::with1(sql, Fetch::One, bind_key(key))
    }

    fn try_get(key: SessionsBy) -> (r: Statement) {
        let sql = match &key {
            SessionsBy::Id(_) => GET_BY_ID,
            SessionsBy::CredentialId(_) => GET_BY_CREDENTIAL,
        };
        Statement::with1(sql, Fetch::Optional, bind_key(key))
    }

    fn decode(row: SessionsDAO) -> (r: Result<SessionsDAO, DatabaseError>) {
        Ok(row)
    }
}

} // verus!
