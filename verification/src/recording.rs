//! An in-memory driver: a connection that records every statement it is
//! handed and reports success with an affected-row count of zero.  It
//! implements the [`Connection`] collaborator interface, which lets a
//! session's whole statement traffic be inspected.

use vstd::prelude::*;
use vstd::string::StringExecFns;

use crate::conn::Connection;
use crate::conn::Stmt;
use crate::errors::SessionError;
use crate::value::DbValue;

verus! {

/// One recorded statement, as executable data.
pub enum RecStmt {
    Begin,
    Commit,
    Rollback,
    Command { sql: String, params: Vec<DbValue> },
    Query { sql: String, params: Vec<DbValue> },
}

/// The statement a record stands for.
pub open spec fn rec_stmt_view(s: RecStmt) -> Stmt {
    match s {
        RecStmt::Begin => Stmt::Begin,
        RecStmt::Commit => Stmt::Commit,
        RecStmt::Rollback => Stmt::Rollback,
        RecStmt::Command { sql, params } => Stmt::Command(sql@, params@),
        RecStmt::Query { sql, params } => Stmt::Query(sql@, params@),
    }
}

/// A connection that keeps every dispatched statement in memory, oldest
/// first.  Connecting fails when the driver link is empty; executing an
/// empty statement is recorded and then rejected by the driver.
pub struct RecordingConnection {
    pub stmts: Vec<RecStmt>,
}

impl Connection for RecordingConnection {
    open spec fn log(&self) -> Seq<Stmt> {
        self.stmts@.map_values(|s: RecStmt| rec_stmt_view(s))
    }

    fn connect(driver: &str) -> (r: Result<Self, SessionError>) {
        if driver.is_empty() {
            Err(SessionError::ConnectionAcquisition(String::from_str("no driver link given")))
        } else {
            let c = RecordingConnection { stmts: Vec::new() };
            proof {
                assert(c.log() =~= Seq::<Stmt>::empty());
            }
            Ok(c)
        }
    }

    fn begin(&mut self) -> (r: Result<u64, SessionError>) {
        self.stmts.push(RecStmt::Begin);
        proof {
            assert(self.log() =~= old(self).log().push(Stmt::Begin));
        }
        Ok(0)
    }

    fn commit(&mut self) -> (r: Result<u64, SessionError>) {
        self.stmts.push(RecStmt::Commit);
        proof {
            assert(self.log() =~= old(self).log().push(Stmt::Commit));
        }
        Ok(0)
    }

    fn rollback(&mut self) -> (r: Result<u64, SessionError>) {
        self.stmts.push(RecStmt::Rollback);
        proof {
            assert(self.log() =~= old(self).log().push(Stmt::Rollback));
        }
        Ok(0)
    }

    fn exec(&mut self, enable_log: bool, sql: &str, params: Vec<DbValue>) -> (r: Result<
        u64,
        SessionError,
    >) {
        let empty = sql.is_empty();
        let rec = RecStmt::Command { sql: sql.to_owned(), params };
        self.stmts.push(rec);
        proof {
            assert(self.log() =~= old(self).log().push(Stmt::Command(sql@, params@)));
        }
        if empty {
            Err(SessionError::Driver(String::from_str("empty statement")))
        } else {
            Ok(0)
        }
    }

    fn query(&mut self, enable_log: bool, sql: &str, params: Vec<DbValue>) -> (r: Result<
        Vec<DbValue>,
        SessionError,
    >) {
        let empty = sql.is_empty();
        let rec = RecStmt::Query { sql: sql.to_owned(), params };
        self.stmts.push(rec);
        proof {
            assert(self.log() =~= old(self).log().push(Stmt::Query(sql@, params@)));
        }
        if empty {
            Err(SessionError::Driver(String::from_str("empty statement")))
        } else {
            Ok(Vec::new())
        }
    }
}

} // verus!
