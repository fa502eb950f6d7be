//! Statements: what a repository asks the storage engine to run.

use crate::clock::Timestamp;
use crate::ident::Uuid;
use vstd::prelude::*;

verus! {

/// A value bound to a placeholder of a statement.
#[derive(Debug, Clone, PartialEq, Eq)]
pub enum SqlValue {
    Text(String),
    Integer(i64),
    Boolean(bool),
    Uuid(Uuid),
    Timestamp(Timestamp),
}

/// The mathematical content of a bound value.
pub enum Bind {
    Text(Seq<char>),
    Integer(i64),
    Boolean(bool),
    Uuid(Uuid),
    Timestamp(Timestamp),
}

impl View for SqlValue {
    type V = Bind;

    open spec fn view(&self) -> Bind {
        match self {
            SqlValue::Text(text) => Bind::Text(text@),
            SqlValue::Integer(n) => Bind::Integer(*n),
            SqlValue::Boolean(b) => Bind::Boolean(*b),
            SqlValue::Uuid(id) => Bind::Uuid(*id),
            SqlValue::Timestamp(at) => Bind::Timestamp(*at),
        }
    }
}

/// How many rows the caller expects back.
#[derive(Debug, Clone, Copy, PartialEq, Eq, Structural)]
pub enum Fetch {
    /// Exactly one row; none is a failure.
    One,
    /// One row or none.
    Optional,
}

/// A statement with its bound values, in placeholder order.
#[derive(Debug, Clone, PartialEq, Eq)]
pub struct Statement {
    pub sql: &'static str,
    pub binds: Vec<SqlValue>,
    pub fetch: Fetch,
}

/// The mathematical content of a statement.
pub struct StatementView {
    pub sql: Seq<char>,
    pub binds: Seq<Bind>,
    pub fetch: Fetch,
}

impl View for Statement {
    type V = StatementView;

    open spec fn view(&self) -> StatementView {
        StatementView {
            sql: self.sql@,
            binds: self.binds@.map_values(|v: SqlValue| v@),
            fetch: self.fetch,
        }
    }
}

/// The statement `sql` with one bound value.
pub open spec fn statement1(sql: Seq<char>, fetch: Fetch, a: Bind) -> StatementView {
    StatementView { sql, binds: seq![a], fetch }
}

/// The statement `sql` with two bound values.
pub open spec fn statement2(sql: Seq<char>, fetch: Fetch, a: Bind, b: Bind) -> StatementView {
    StatementView { sql, binds: seq![a, b], fetch }
}

/// The statement `sql` with three bound values.
pub open spec fn statement3(sql: Seq<char>, fetch: Fetch, a: Bind, b: Bind, c: Bind) -> StatementView {
    StatementView { sql, binds: seq![a, b, c], fetch }
}

impl Statement {
    /// A statement with one bound value.
    pub fn with1(sql: &'static str, fetch: Fetch, a: SqlValue) -> (r: Statement)
        ensures
            r@ == statement1(sql@, fetch, a@),
    {
        let mut binds: Vec<SqlValue> = Vec::new();
        binds.push(a);
        let r = Statement { sql, binds, fetch };
        assert(r@.binds =~= seq![a@]);
        r
    }

    /// A statement with two bound values.
    pub fn with2(sql: &'static str, fetch: Fetch, a: SqlValue, b: SqlValue) -> (r: Statement)
        ensures
            r@ == statement2(sql@, fetch, a@, b@),
    {
        let mut binds: Vec<SqlValue> = Vec::new();
        binds.push(a);
        binds.push(b);
        let r = Statement { sql, binds, fetch };
        assert(r@.binds =~= seq![a@, b@]);
        r
    }

    /// A statement with three bound values.
    pub fn with3(sql: &'static str, fetch: Fetch, a: SqlValue, b: SqlValue, c: SqlValue) -> (r:
        Statement)
        ensures
            r@ == statement3(sql@, fetch, a@, b@, c@),
    {
        let mut binds: Vec<SqlValue> = Vec::new();
        binds.push(a);
        binds.push(b);
        binds.push(c);
        let r = Statement { sql, binds, fetch };
        assert(r@.binds =~= seq![a@, b@, c@]);
        r
    }
}

} // verus!
