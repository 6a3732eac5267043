//! The driver collaborator: a narrow connection interface the session
//! dispatches statements through, together with the ghost record of what
//! was dispatched.

use vstd::prelude::*;

use crate::errors::SessionError;
use crate::value::DbValue;

verus! {

/// One statement dispatched to a connection, as the contracts see it:
/// the begin/commit/rollback of the real transaction, or a command or
/// query with its SQL text and bound parameters.
pub enum Stmt {
    Begin,
    Commit,
    Rollback,
    Command(Seq<char>, Seq<DbValue>),
    Query(Seq<char>, Seq<DbValue>),
}

/// A connection to a database, as the session consumes it.
///
/// `log` is the ghost sequence of every statement dispatched so far; each
/// operation appends exactly one entry, whether or not the driver reports
/// success.  Results and affected-row counts are the driver's to choose:
/// nothing is promised of them.
pub trait Connection: Sized {
    /// Every statement dispatched to this connection so far.
    spec fn log(&self) -> Seq<Stmt>;

    /// Opens a fresh connection for the named driver.
    fn connect(driver: &str) -> (r: Result<Self, SessionError>)
        ensures
            r matches Ok(c) ==> c.log() == Seq::<Stmt>::empty(),
    ;

    /// Starts the real transaction.
    fn begin(&mut self) -> (r: Result<u64, SessionError>)
        ensures
            final(self).log() == old(self).log().push(Stmt::Begin),
    ;

    /// Finalizes the real transaction, keeping its effects.
    fn commit(&mut self) -> (r: Result<u64, SessionError>)
        ensures
            final(self).log() == old(self).log().push(Stmt::Commit),
    ;

    /// Finalizes the real transaction, undoing its effects.
    fn rollback(&mut self) -> (r: Result<u64, SessionError>)
        ensures
            final(self).log() == old(self).log().push(Stmt::Rollback),
    ;

    /// Executes a statement that updates rows, returning the affected-row
    /// count.
    fn exec(&mut self, enable_log: bool, sql: &str, params: Vec<DbValue>) -> (r: Result<
        u64,
        SessionError,
    >)
        ensures
            final(self).log() == old(self).log().push(Stmt::Command(sql@, params@)),
    ;

    /// Executes a statement that returns rows.
    fn query(&mut self, enable_log: bool, sql: &str, params: Vec<DbValue>) -> (r: Result<
        Vec<DbValue>,
        SessionError,
    >)
        ensures
            final(self).log() == old(self).log().push(Stmt::Query(sql@, params@)),
    ;
}

} // verus!
