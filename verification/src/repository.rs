//! The repository contract: the same operations over every entity and
//! every storage engine.
//!
//! A repository does not talk to the engine. For each operation it says
//! which statement to run, and what the rows that come back mean.

use crate::error::{classifies, DatabaseError, DriverError};
use crate::statement::{Statement, StatementView};
use vstd::prelude::*;

verus! {

/// The operations that every repository offers.
pub trait EntityRepository {
    /// The entity in its canonical shape.
    type Entity;

    /// A row as the engine holds it.
    type Row;

    /// What is supplied to create an entity.
    type CreateInput;

    /// How a single entity is looked up.
    type QueryOne;

    /// How several entities are looked up.
    type QueryMany;

    /// The input can be written for this engine.
    spec fn insertable(input: Self::CreateInput) -> bool;

    /// `statement` stores `input` as a new entity.
    spec fn inserts(input: Self::CreateInput, statement: StatementView) -> bool;

    /// The statement that deactivates the entity under `key`.
    spec fn delete_spec(key: Self::QueryOne) -> StatementView;

    /// The statement that reads the entity under `key`, which must exist.
    spec fn get_spec(key: Self::QueryOne) -> StatementView;

    /// The statement that reads the entity under `key`, which may be
    /// missing.
    spec fn try_get_spec(key: Self::QueryOne) -> StatementView;

    /// `r` is what decoding `row` gives.
    spec fn decodes_to(row: Self::Row, r: Result<Self::Entity, DatabaseError>) -> bool;

    /// The statement that stores a new entity. The engine assigns what
    /// the input does not hold and marks the entity active.
    fn insert(input: Self::CreateInput) -> (r: Statement)
        requires
            Self::insertable(input),
        ensures
            Self::inserts(input, r@),
    ;

    /// The statement that deactivates an entity. The row stays.
    fn delete(key: Self::QueryOne) -> (r: Statement)
        ensures
            r@ == Self::delete_spec(key),
    ;

    /// The statement that reads an entity that must exist.
    fn get(key: Self::QueryOne) -> (r: Statement)
        ensures
            r@ == Self::get_spec(key),
    ;

    /// The statement that reads an entity that may be missing.
    fn try_get(key: Self::QueryOne) -> (r: Statement)
        ensures
            r@ == Self::try_get_spec(key),
    ;

    /// Looking up several entities is not offered.
    fn get_all(key: Self::QueryMany) -> (r: Result<Statement, DatabaseError>)
        ensures
            r matches Err(kind) && kind == DatabaseError::NotImplemented,
    {
        Err(DatabaseError::NotImplemented)
    }

    /// The statement that tells whether an entity exists: the very
    /// statement of [`Self::try_get`], so the two cannot disagree.
    fn exists_query(key: Self::QueryOne) -> (r: Statement)
        ensures
            r@ == Self::try_get_spec(key),
    {
        Self::try_get(key)
    }

    /// Decodes a row.
    fn decode(row: Self::Row) -> (r: Result<Self::Entity, DatabaseError>)
        ensures
            Self::decodes_to(row, r),
    ;

    /// What a fetch of one row means: the decoded row, or the storage
    /// failure that stands for the driver's. No row is a failure of its
    /// own kind.
    fn one(fetched: Result<Self::Row, DriverError>) -> (r: Result<Self::Entity, DatabaseError>)
        ensures
            match fetched {
                Ok(row) => Self::decodes_to(row, r),
                Err(e) => r matches Err(kind) && classifies(e, kind),
            },
    {
        match fetched {
            Ok(row) => Self::decode(row),
            Err(e) => Err(DatabaseError::from(e)),
        }
    }

    /// What a fetch of one row or none means: no row is no failure.
    fn optional(fetched: Result<Option<Self::Row>, DriverError>) -> (r: Result<
        Option<Self::Entity>,
        DatabaseError,
    >)
        ensures
            match fetched {
                Ok(None) => r == Ok::<Option<Self::Entity>, DatabaseError>(None),
                Ok(Some(row)) => match r {
                    Ok(Some(entity)) => Self::decodes_to(row, Ok(entity)),
                    Ok(None) => false,
                    Err(kind) => Self::decodes_to(row, Err(kind)),
                },
                Err(e) => r matches Err(kind) && classifies(e, kind),
            },
    {
        match fetched {
            Ok(Some(row)) => match Self::decode(row) {
                Ok(entity) => Ok(Some(entity)),
                Err(kind) => Err(kind),
            },
            Ok(None) => Ok(None),
            Err(e) => Err(DatabaseError::from(e)),
        }
    }

    /// Whether a lookup found an entity.
    fn found(found: Result<Option<Self::Entity>, DatabaseError>) -> (r: Result<bool, DatabaseError>)
        ensures
            exists_outcome(found, r),
    {
        match found {
            Ok(entity) => Ok(entity.is_some()),
            Err(kind) => Err(kind),
        }
    }
}

/// The repositories whose entities can be updated.
pub trait UpdatableRepository: EntityRepository {
    /// The fields that an update may change.
    type UpdateInput;

    /// The statement that applies `update` to the entity under `key`.
    spec fn update_spec(key: Self::QueryOne, update: Self::UpdateInput) -> StatementView;

    /// The statement that updates an entity.
    fn update(key: Self::QueryOne, update: Self::UpdateInput) -> (r: Statement)
        ensures
            r@ == Self::update_spec(key, update),
    ;
}

/// Whether a lookup found a row: the lookup's own failure is kept.
pub open spec fn exists_outcome<E>(
    found: Result<Option<E>, DatabaseError>,
    r: Result<bool, DatabaseError>,
) -> bool {
    match found {
        Ok(entity) => r == Ok::<bool, DatabaseError>(entity is Some),
        Err(kind) => r == Err::<bool, DatabaseError>(kind),
    }
}

} // verus!
