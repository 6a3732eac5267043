//! The session: tracks nested, propagated transactions over one logical
//! connection, coordinates savepoints for nested rollback, and dispatches
//! statements either directly, through the active transaction scope, or to
//! a delegated child session.

use vstd::prelude::*;
use vstd::string::StringExecFns;

use crate::conn::Connection;
use crate::conn::Stmt;
use crate::errors::SessionError;
use crate::propagation::Propagation;
use crate::save_point_stack::SavePointStack;
use crate::text::dec_digits;
use crate::text::u64_to_dec;
use crate::tx_stack::nested_count;
use crate::tx_stack::Tx;
use crate::tx_stack::TxStack;
use crate::value::DbValue;

verus! {

/// The savepoint name guarding the nested scope entered at depth `d`.
pub open spec fn savepoint_name(d: nat) -> Seq<char> {
    "p"@ + dec_digits(d)
}

/// The statement that establishes the savepoint of depth `d`.
pub open spec fn savepoint_sql(d: nat) -> Seq<char> {
    "SAVEPOINT "@ + savepoint_name(d)
}

/// The statement that rolls back to the named savepoint.
pub open spec fn rollback_savepoint_sql(name: Seq<char>) -> Seq<char> {
    "ROLLBACK TO SAVEPOINT "@ + name
}

fn make_savepoint_name(d: u64) -> (r: String)
    ensures
        r@ == savepoint_name(d as nat),
{
    let mut s = String::from_str("p");
    s.append(u64_to_dec(d).as_str());
    s
}

fn make_savepoint_sql(name: &String) -> (r: String)
    ensures
        r@ == "SAVEPOINT "@ + name@,
{
    let mut s = String::from_str("SAVEPOINT ");
    s.append(name.as_str());
    s
}

fn make_rollback_sql(name: &String) -> (r: String)
    ensures
        r@ == "ROLLBACK TO SAVEPOINT "@ + name@,
{
    let mut s = String::from_str("ROLLBACK TO SAVEPOINT ");
    s.append(name.as_str());
    s
}

/// Adds two affected-row counts, saturating at the maximum: counts are
/// reported, never used for addressing, so capping is harmless while an
/// overflow would be a panic.
fn sat_add(a: u64, b: u64) -> (r: u64)
    ensures
        a + b <= u64::MAX ==> r == a + b,
        a + b > u64::MAX ==> r == u64::MAX,
{
    if a <= u64::MAX - b {
        a + b
    } else {
        u64::MAX
    }
}

/// A fresh session identifier.
///
/// Relies on `uuid::Uuid::new_v4` and its `Display` form: a random
/// version-4 UUID rendered in the 36-character hyphenated format.
#[verifier::external_body]
fn new_session_id() -> (r: String)
    ensures
        r@.len() == 36,
{
    uuid::Uuid::new_v4().to_string()
}

/// A session over one logical connection.
///
/// `new_local_session` is the delegated child slot: a fully independent
/// session, created for propagation modes that must suspend or bypass the
/// caller's transaction.  Only `begin` installs a child and a child is
/// never given one of its own, so delegation is single-level.  The
/// connection stays with the session for its whole life; the transaction
/// handles on the stack are scope markers.
pub struct LocalSession<C: Connection> {
    pub session_id: String,
    pub driver: String,
    pub tx_stack: TxStack,
    pub save_point_stack: SavePointStack,
    pub is_closed: bool,
    pub new_local_session: Option<Box<LocalSession<C>>>,
    pub enable_log: bool,
    pub conn: C,
}

impl<C: Connection> LocalSession<C> {
    /// Current transaction depth; zero means autocommit.
    pub open spec fn depth(&self) -> nat {
        self.tx_stack@.len()
    }

    /// The stacks are consistent: every open nested scope is guarded by a
    /// savepoint, and the outermost scope is never a nested one.
    pub open spec fn stacks_ok(&self) -> bool {
        &&& nested_count(self.tx_stack@) <= self.save_point_stack@.len()
        &&& (self.tx_stack@.len() > 0 ==> self.tx_stack@[0].1 != Propagation::NESTED)
    }

    /// Well-formed: the stacks are consistent, and a delegated child, when
    /// present, is itself consistent, open, and has no child of its own.
    pub open spec fn wf(&self) -> bool {
        &&& self.stacks_ok()
        &&& match self.new_local_session {
            Some(c) => c.stacks_ok() && c.new_local_session is None && !c.is_closed,
            None => true,
        }
    }

    /// The identifying fields agree.
    pub open spec fn same_config(a: Self, b: Self) -> bool {
        &&& a.session_id == b.session_id
        &&& a.driver == b.driver
        &&& a.enable_log == b.enable_log
        &&& a.is_closed == b.is_closed
    }

    /// Both stacks agree.
    pub open spec fn same_stacks(a: Self, b: Self) -> bool {
        &&& a.tx_stack@ == b.tx_stack@
        &&& a.save_point_stack@ == b.save_point_stack@
    }

    /// The session after `close`.
    pub open spec fn closed_state(s: Self) -> Self {
        LocalSession { is_closed: true, ..s }
    }

    /// What one commit does to a session's own stacks and connection:
    /// nothing at depth zero; otherwise the top scope is popped, the real
    /// `COMMIT` goes out exactly when the stack empties, and leaving a
    /// nested scope re-establishes a fresh savepoint (the commit path
    /// deliberately mirrors the asymmetric savepoint handling of the
    /// rollback path rather than releasing the old name).
    pub open spec fn commit_effect(pre: Self, post: Self) -> bool {
        let d = pre.tx_stack@.len();
        let m = pre.tx_stack@.last().1;
        &&& (d == 0 ==> post.tx_stack@ == pre.tx_stack@ && post.save_point_stack@
            == pre.save_point_stack@ && post.conn.log() == pre.conn.log())
        &&& (d > 0 ==> post.tx_stack@ == pre.tx_stack@.drop_last())
        &&& (d == 1 ==> post.conn.log() == pre.conn.log().push(Stmt::Commit)
            && post.save_point_stack@ == pre.save_point_stack@)
        &&& (d > 1 && m == Propagation::NESTED ==> post.conn.log() == pre.conn.log().push(
            Stmt::Command(savepoint_sql(d), Seq::<DbValue>::empty()),
        ) && post.save_point_stack@ == pre.save_point_stack@.push(savepoint_name(d)))
        &&& (d > 1 && m != Propagation::NESTED ==> post.conn.log() == pre.conn.log()
            && post.save_point_stack@ == pre.save_point_stack@)
    }

    /// What one rollback does to a session's own stacks and connection:
    /// nothing at depth zero; otherwise the top scope is popped, leaving a
    /// nested scope rolls back to exactly the savepoint pushed when that
    /// scope was entered, and the real `ROLLBACK` goes out exactly when
    /// the stack empties.
    pub open spec fn rollback_effect(pre: Self, post: Self) -> bool {
        let d = pre.tx_stack@.len();
        let m = pre.tx_stack@.last().1;
        &&& (d == 0 ==> post.tx_stack@ == pre.tx_stack@ && post.save_point_stack@
            == pre.save_point_stack@ && post.conn.log() == pre.conn.log())
        &&& (d > 0 ==> post.tx_stack@ == pre.tx_stack@.drop_last())
        &&& (d == 1 ==> post.conn.log() == pre.conn.log().push(Stmt::Rollback)
            && post.save_point_stack@ == pre.save_point_stack@)
        &&& (d > 1 && m == Propagation::NESTED ==> post.conn.log() == pre.conn.log().push(
            Stmt::Command(
                rollback_savepoint_sql(pre.save_point_stack@.last()),
                Seq::<DbValue>::empty(),
            ),
        ) && post.save_point_stack@ == pre.save_point_stack@.drop_last())
        &&& (d > 1 && m != Propagation::NESTED ==> post.conn.log() == pre.conn.log()
            && post.save_point_stack@ == pre.save_point_stack@)
    }


    /// What a routed dispatch does: the statement reaches the delegated
    /// child's connection when a child is active, else this session's own
    /// connection; stacks, configuration and the child slot are otherwise
    /// untouched.
    pub open spec fn routed_effect(pre: Self, post: Self, stmt: Stmt) -> bool {
        match (pre.new_local_session, post.new_local_session) {
            (Some(c), Some(c2)) => {
                &&& post.conn.log() == pre.conn.log()
                &&& c2.conn.log() == c.conn.log().push(stmt)
                &&& c2.tx_stack@ == c.tx_stack@
                &&& c2.save_point_stack@ == c.save_point_stack@
                &&& Self::same_config(*c2, *c)
                &&& c2.new_local_session is None
            },
            (None, None) => post.conn.log() == pre.conn.log().push(stmt),
            _ => false,
        }
    }


    /// A new real transaction was dispatched on this session's own
    /// connection; one scope of the given mode is pushed on success and
    /// nothing else changes.
    pub open spec fn fresh_scope_effect(
        pre: Self,
        post: Self,
        mode: Propagation,
        r: Result<(), SessionError>,
    ) -> bool {
        &&& post.conn.log() == pre.conn.log().push(Stmt::Begin)
        &&& post.save_point_stack@ == pre.save_point_stack@
        &&& post.new_local_session == pre.new_local_session
        &&& (r is Ok ==> post.tx_stack@ == pre.tx_stack@.push((Tx, mode)))
        &&& (r is Err ==> post.tx_stack@ == pre.tx_stack@)
    }

    /// A delegated child session on a fresh connection was installed —
    /// holding one freshly begun scope for `REQUIRES_NEW` (`in_tx`), in
    /// autocommit for `NOT_SUPPORTED` — while this session's own stacks
    /// and connection stay untouched.
    pub open spec fn delegate_effect(
        pre: Self,
        post: Self,
        r: Result<(), SessionError>,
        in_tx: bool,
    ) -> bool {
        &&& Self::same_stacks(post, pre)
        &&& post.conn.log() == pre.conn.log()
        &&& (r is Err ==> post.new_local_session == pre.new_local_session)
        &&& (r is Ok ==> match post.new_local_session {
            Some(c) => {
                &&& !c.is_closed
                &&& c.new_local_session is None
                &&& c.save_point_stack@.len() == 0
                &&& c.driver == pre.driver
                &&& c.enable_log == pre.enable_log
                &&& (in_tx ==> c.tx_stack@.len() == 1 && c.tx_stack@[0].1 == Propagation::REQUIRED
                    && c.conn.log() == seq![Stmt::Begin])
                &&& (!in_tx ==> c.tx_stack@.len() == 0 && c.conn.log() == Seq::<Stmt>::empty())
            },
            None => false,
        })
    }

    /// What `begin` does for each propagation mode, at depth zero and at
    /// positive depth.
    pub open spec fn begin_effect(
        pre: Self,
        post: Self,
        mode: Propagation,
        r: Result<(), SessionError>,
    ) -> bool {
        let d = pre.tx_stack@.len();
        match mode {
            Propagation::SUPPORTS => r == Ok::<(), SessionError>(()) && post == pre,
            Propagation::MANDATORY => if d == 0 {
                r == Err::<(), SessionError>(SessionError::NoActiveTransaction) && post == pre
            } else {
                r == Ok::<(), SessionError>(()) && post == pre
            },
            Propagation::NEVER => if d == 0 {
                r == Ok::<(), SessionError>(()) && post == pre
            } else {
                r == Err::<(), SessionError>(SessionError::UnexpectedTransaction) && post == pre
            },
            Propagation::NONE => r == Err::<(), SessionError>(
                SessionError::UnsupportedPropagation,
            ) && post == pre,
            Propagation::REQUIRED => if d == 0 {
                Self::fresh_scope_effect(pre, post, Propagation::REQUIRED, r)
            } else {
                &&& r == Ok::<(), SessionError>(())
                &&& post.tx_stack@ == pre.tx_stack@.push(
                    (pre.tx_stack@.last().0, Propagation::REQUIRED),
                )
                &&& post.save_point_stack@ == pre.save_point_stack@
                &&& post.conn.log() == pre.conn.log()
                &&& post.new_local_session == pre.new_local_session
            },
            Propagation::NOT_REQUIRED => if d == 0 {
                Self::fresh_scope_effect(pre, post, Propagation::NOT_REQUIRED, r)
            } else {
                r == Err::<(), SessionError>(SessionError::NestedTransaction) && post == pre
            },
            Propagation::NESTED => if d == 0 {
                Self::fresh_scope_effect(pre, post, Propagation::REQUIRED, r)
            } else {
                &&& post.conn.log() == pre.conn.log().push(
                    Stmt::Command(savepoint_sql(d), Seq::<DbValue>::empty()),
                )
                &&& post.new_local_session == pre.new_local_session
                &&& (r is Ok ==> post.tx_stack@ == pre.tx_stack@.push(
                    (pre.tx_stack@.last().0, Propagation::NESTED),
                ) && post.save_point_stack@ == pre.save_point_stack@.push(savepoint_name(d)))
                &&& (r is Err ==> Self::same_stacks(post, pre))
            },
            Propagation::REQUIRES_NEW => Self::delegate_effect(pre, post, r, true),
            Propagation::NOT_SUPPORTED => Self::delegate_effect(pre, post, r, false),
        }
    }

    /// Opens a session.  An empty `id` is replaced by a fresh identifier;
    /// a missing connection is acquired from the collaborator for the
    /// named driver.
    pub fn new(id: &str, driver: &str, conn_opt: Option<C>) -> (r: Result<
        LocalSession<C>,
        SessionError,
    >)
        ensures
            r matches Ok(s) ==> {
                &&& s.wf()
                &&& s.tx_stack@.len() == 0
                &&& s.save_point_stack@.len() == 0
                &&& !s.is_closed
                &&& s.new_local_session is None
                &&& s.enable_log
                &&& s.driver@ == driver@
                &&& (id@.len() > 0 ==> s.session_id@ == id@)
                &&& (id@.len() == 0 ==> s.session_id@.len() == 36)
                &&& (conn_opt matches Some(c) ==> s.conn == c)
                &&& (conn_opt is None ==> s.conn.log() == Seq::<Stmt>::empty())
            },
            r is Err ==> conn_opt is None,
    {
        let session_id = if id.is_empty() {
            new_session_id()
        } else {
            id.to_owned()
        };
        let conn = match conn_opt {
            Some(c) => c,
            None => match C::connect(driver) {
                Ok(c) => c,
                Err(e) => return Err(e),
            },
        };
        Ok(
            LocalSession {
                session_id,
                driver: driver.to_owned(),
                tx_stack: TxStack::new(),
                save_point_stack: SavePointStack::new(),
                is_closed: false,
                new_local_session: None,
                enable_log: true,
                conn,
            },
        )
    }

    /// The session's identifier.
    pub fn id(&self) -> (r: String)
        ensures
            r@ == self.session_id@,
    {
        self.session_id.clone()
    }

    /// The propagation mode of the innermost active scope.
    pub fn last_propagation(&self) -> (r: Option<Propagation>)
        ensures
            self.tx_stack@.len() == 0 ==> r is None,
            self.tx_stack@.len() > 0 ==> r == Some(self.tx_stack@.last().1),
    {
        match self.tx_stack.peek() {
            Some((_, p)) => Some(p),
            None => None,
        }
    }

    /// Closes the session.  Idempotent; later mutating operations fail
    /// with `SessionClosed`.  An open transaction is not finalized: a
    /// caller must commit or roll back explicitly.
    pub fn close(&mut self)
        ensures
            *final(self) == Self::closed_state(*old(self)),
    {
        if self.is_closed {
            return ;
        }
        self.is_closed = true;
    }

    /// Closing a session twice has the same observable effect as closing
    /// it once.
    pub proof fn lemma_close_idempotent(s: Self)
        ensures
            Self::closed_state(Self::closed_state(s)) == Self::closed_state(s),
    {
    }

    fn exec_direct(&mut self, sql: &str, params: Vec<DbValue>) -> (r: Result<u64, SessionError>)
        ensures
            Self::same_config(*final(self), *old(self)),
            Self::same_stacks(*final(self), *old(self)),
            final(self).new_local_session == old(self).new_local_session,
            old(self).is_closed ==> *final(self) == *old(self) && r == Err::<u64, SessionError>(
                SessionError::SessionClosed,
            ),
            !old(self).is_closed ==> final(self).conn.log() == old(self).conn.log().push(
                Stmt::Command(sql@, params@),
            ),
    {
        if self.is_closed {
            return Err(SessionError::SessionClosed);
        }
        self.conn.exec(self.enable_log, sql, params)
    }

    fn query_direct(&mut self, sql: &str, params: Vec<DbValue>) -> (r: Result<
        Vec<DbValue>,
        SessionError,
    >)
        ensures
            Self::same_config(*final(self), *old(self)),
            Self::same_stacks(*final(self), *old(self)),
            final(self).new_local_session == old(self).new_local_session,
            old(self).is_closed ==> *final(self) == *old(self) && r == Err::<
                Vec<DbValue>,
                SessionError,
            >(SessionError::SessionClosed),
            !old(self).is_closed ==> final(self).conn.log() == old(self).conn.log().push(
                Stmt::Query(sql@, params@),
            ),
    {
        if self.is_closed {
            return Err(SessionError::SessionClosed);
        }
        self.conn.query(self.enable_log, sql, params)
    }

    /// Executes an updating statement: on the delegated child when one is
    /// active, else on this session's connection (through the active
    /// transaction scope or in autocommit, which reach the same
    /// connection).  Exactly one statement is dispatched.
    pub fn exec(&mut self, sql: &str, params: Vec<DbValue>) -> (r: Result<u64, SessionError>)
        requires
            old(self).wf(),
        ensures
            final(self).wf(),
            Self::same_config(*final(self), *old(self)),
            Self::same_stacks(*final(self), *old(self)),
            old(self).is_closed ==> *final(self) == *old(self) && r == Err::<u64, SessionError>(
                SessionError::SessionClosed,
            ),
            !old(self).is_closed ==> Self::routed_effect(
                *old(self),
                *final(self),
                Stmt::Command(sql@, params@),
            ),
    {
        if self.is_closed {
            return Err(SessionError::SessionClosed);
        }
        let child_opt = self.new_local_session.take();
        match child_opt {
            Some(mut c) => {
                let r = c.exec_direct(sql, params);
                self.new_local_session = Some(c);
                r
            },
            None => self.exec_direct(sql, params),
        }
    }

    /// Executes a query and returns its raw rows, routed exactly as
    /// `exec`.  Typed materialization is the result decoder's job.
    pub fn query(&mut self, sql: &str, params: Vec<DbValue>) -> (r: Result<
        Vec<DbValue>,
        SessionError,
    >)
        requires
            old(self).wf(),
        ensures
            final(self).wf(),
            Self::same_config(*final(self), *old(self)),
            Self::same_stacks(*final(self), *old(self)),
            old(self).is_closed ==> *final(self) == *old(self) && r == Err::<
                Vec<DbValue>,
                SessionError,
            >(SessionError::SessionClosed),
            !old(self).is_closed ==> Self::routed_effect(
                *old(self),
                *final(self),
                Stmt::Query(sql@, params@),
            ),
    {
        if self.is_closed {
            return Err(SessionError::SessionClosed);
        }
        let child_opt = self.new_local_session.take();
        match child_opt {
            Some(mut c) => {
                let r = c.query_direct(sql, params);
                self.new_local_session = Some(c);
                r
            },
            None => self.query_direct(sql, params),
        }
    }

    /// Opens, joins, suspends, or rejects a transaction scope per the
    /// propagation mode.  A failure leaves the transaction stack exactly
    /// as it was: there is no partial push.
    ///
    /// At depth zero, `REQUIRED`, `NOT_REQUIRED` and `NESTED` dispatch the
    /// real `BEGIN` and push one scope (`NESTED` degrades to `REQUIRED`);
    /// `MANDATORY` fails.  At positive depth, `REQUIRED` and `NESTED`
    /// re-push the current handle under the new mode — `NESTED` first
    /// establishing the savepoint named after the current depth — while
    /// `NOT_REQUIRED` and `NEVER` fail.  `REQUIRES_NEW` and
    /// `NOT_SUPPORTED` install a delegated child session on a fresh
    /// connection, with and without a transaction of its own.
    pub fn begin(&mut self, propagation: Propagation) -> (r: Result<(), SessionError>)
        requires
            old(self).wf(),
        ensures
            final(self).wf(),
            Self::same_config(*final(self), *old(self)),
            old(self).is_closed ==> *final(self) == *old(self) && r == Err::<(), SessionError>(
                SessionError::SessionClosed,
            ),
            !old(self).is_closed ==> Self::begin_effect(
                *old(self),
                *final(self),
                propagation,
                r,
            ),
    {
        if self.is_closed {
            return Err(SessionError::SessionClosed);
        }
        let ghost pre = *self;
        match propagation {
            Propagation::REQUIRED => {
                if self.tx_stack.len() > 0 {
                    match self.tx_stack.peek() {
                        Some((t, _)) => {
                            self.tx_stack.push(t, Propagation::REQUIRED);
                            proof {
                                crate::tx_stack::lemma_nested_count_push(
                                    pre.tx_stack@,
                                    (t, Propagation::REQUIRED),
                                );
                            }
                            Ok(())
                        },
                        None => Ok(()),
                    }
                } else {
                    match self.conn.begin() {
                        Ok(_) => {
                            self.tx_stack.push(Tx, Propagation::REQUIRED);
                            proof {
                                crate::tx_stack::lemma_nested_count_push(
                                    pre.tx_stack@,
                                    (Tx, Propagation::REQUIRED),
                                );
                            }
                            Ok(())
                        },
                        Err(e) => Err(e),
                    }
                }
            },
            Propagation::SUPPORTS => Ok(()),
            Propagation::MANDATORY => {
                if self.tx_stack.len() > 0 {
                    Ok(())
                } else {
                    Err(SessionError::NoActiveTransaction)
                }
            },
            Propagation::REQUIRES_NEW => {
                let conn2 = match C::connect(self.driver.as_str()) {
                    Ok(c) => c,
                    Err(e) => return Err(e),
                };
                let mut child = LocalSession {
                    session_id: new_session_id(),
                    driver: self.driver.clone(),
                    tx_stack: TxStack::new(),
                    save_point_stack: SavePointStack::new(),
                    is_closed: false,
                    new_local_session: None,
                    enable_log: self.enable_log,
                    conn: conn2,
                };
                match child.conn.begin() {
                    Ok(_) => {
                        child.tx_stack.push(Tx, Propagation::REQUIRED);
                        proof {
                            crate::tx_stack::lemma_nested_count_push(
                                Seq::<(Tx, Propagation)>::empty(),
                                (Tx, Propagation::REQUIRED),
                            );
                        }
                        proof {
                            assert(Seq::<Stmt>::empty().push(Stmt::Begin) =~= seq![Stmt::Begin]);
                        }
                        self.new_local_session = Some(Box::new(child));
                        Ok(())
                    },
                    Err(e) => Err(e),
                }
            },
            Propagation::NOT_SUPPORTED => {
                let conn2 = match C::connect(self.driver.as_str()) {
                    Ok(c) => c,
                    Err(e) => return Err(e),
                };
                let child = LocalSession {
                    session_id: new_session_id(),
                    driver: self.driver.clone(),
                    tx_stack: TxStack::new(),
                    save_point_stack: SavePointStack::new(),
                    is_closed: false,
                    new_local_session: None,
                    enable_log: self.enable_log,
                    conn: conn2,
                };
                self.new_local_session = Some(Box::new(child));
                Ok(())
            },
            Propagation::NEVER => {
                if self.tx_stack.len() > 0 {
                    Err(SessionError::UnexpectedTransaction)
                } else {
                    Ok(())
                }
            },
            Propagation::NESTED => {
                if self.tx_stack.len() > 0 {
                    let d = self.tx_stack.len();
                    let name = make_savepoint_name(d as u64);
                    let sql = make_savepoint_sql(&name);
                    match self.conn.exec(self.enable_log, sql.as_str(), Vec::new()) {
                        Ok(_) => {
                            match self.tx_stack.peek() {
                                Some((t, _)) => {
                                    self.save_point_stack.push(name);
                                    self.tx_stack.push(t, Propagation::NESTED);
                                    proof {
                                        crate::tx_stack::lemma_nested_count_push(
                                            pre.tx_stack@,
                                            (t, Propagation::NESTED),
                                        );
                                    }
                                    Ok(())
                                },
                                None => Ok(()),
                            }
                        },
                        Err(e) => Err(e),
                    }
                } else {
                    match self.conn.begin() {
                        Ok(_) => {
                            self.tx_stack.push(Tx, Propagation::REQUIRED);
                            proof {
                                crate::tx_stack::lemma_nested_count_push(
                                    pre.tx_stack@,
                                    (Tx, Propagation::REQUIRED),
                                );
                            }
                            Ok(())
                        },
                        Err(e) => Err(e),
                    }
                }
            },
            Propagation::NOT_REQUIRED => {
                if self.tx_stack.len() > 0 {
                    Err(SessionError::NestedTransaction)
                } else {
                    match self.conn.begin() {
                        Ok(_) => {
                            self.tx_stack.push(Tx, Propagation::NOT_REQUIRED);
                            proof {
                                crate::tx_stack::lemma_nested_count_push(
                                    pre.tx_stack@,
                                    (Tx, Propagation::NOT_REQUIRED),
                                );
                            }
                            Ok(())
                        },
                        Err(e) => Err(e),
                    }
                }
            },
            Propagation::NONE => Err(SessionError::UnsupportedPropagation),
        }
    }
    fn commit_direct(&mut self) -> (r: Result<u64, SessionError>)
        requires
            old(self).stacks_ok(),
        ensures
            final(self).stacks_ok(),
            Self::same_config(*final(self), *old(self)),
            final(self).new_local_session == old(self).new_local_session,
            old(self).is_closed ==> *final(self) == *old(self) && r == Err::<u64, SessionError>(
                SessionError::SessionClosed,
            ),
            !old(self).is_closed ==> Self::commit_effect(*old(self), *final(self)),
            !old(self).is_closed && old(self).tx_stack@.len() == 0 ==> r == Ok::<u64, SessionError>(
                0,
            ),
    {
        if self.is_closed {
            return Err(SessionError::SessionClosed);
        }
        let mut total: u64 = 0;
        let d0 = self.tx_stack.len();
        match self.tx_stack.pop() {
            None => Ok(total),
            Some((_, m)) => {
                if m == Propagation::NESTED {
                    if self.tx_stack.len() > 0 {
                        let name = make_savepoint_name(d0 as u64);
                        let sql = make_savepoint_sql(&name);
                        self.save_point_stack.push(name);
                        match self.conn.exec(self.enable_log, sql.as_str(), Vec::new()) {
                            Ok(n) => {
                                total = sat_add(total, n);
                            },
                            Err(e) => return Err(e),
                        }
                    }
                }
                if self.tx_stack.len() == 0 {
                    match self.conn.commit() {
                        Ok(n) => {
                            total = sat_add(total, n);
                        },
                        Err(e) => return Err(e),
                    }
                }
                Ok(total)
            },
        }
    }

    fn rollback_direct(&mut self) -> (r: Result<u64, SessionError>)
        requires
            old(self).stacks_ok(),
        ensures
            final(self).stacks_ok(),
            Self::same_config(*final(self), *old(self)),
            final(self).new_local_session == old(self).new_local_session,
            old(self).is_closed ==> *final(self) == *old(self) && r == Err::<u64, SessionError>(
                SessionError::SessionClosed,
            ),
            !old(self).is_closed ==> Self::rollback_effect(*old(self), *final(self)),
            !old(self).is_closed && old(self).tx_stack@.len() == 0 ==> r == Ok::<u64, SessionError>(
                0,
            ),
    {
        if self.is_closed {
            return Err(SessionError::SessionClosed);
        }
        let mut total: u64 = 0;
        match self.tx_stack.pop() {
            None => Ok(total),
            Some((_, m)) => {
                if m == Propagation::NESTED {
                    match self.save_point_stack.pop() {
                        Some(name) => {
                            let sql = make_rollback_sql(&name);
                            match self.conn.exec(self.enable_log, sql.as_str(), Vec::new()) {
                                Ok(n) => {
                                    total = sat_add(total, n);
                                },
                                Err(e) => return Err(e),
                            }
                        },
                        None => {},
                    }
                }
                if self.tx_stack.len() == 0 {
                    match self.conn.rollback() {
                        Ok(n) => {
                            total = sat_add(total, n);
                        },
                        Err(e) => return Err(e),
                    }
                }
                Ok(total)
            },
        }
    }

    /// Commits the innermost scope.  An active delegated child is first
    /// committed, closed and removed (its count accumulates into the
    /// result); the real `COMMIT` reaches the connection only when the
    /// scope stack empties.  At depth zero with no child this is a no-op
    /// returning zero.
    pub fn commit(&mut self) -> (r: Result<u64, SessionError>)
        requires
            old(self).wf(),
        ensures
            final(self).wf(),
            Self::same_config(*final(self), *old(self)),
            old(self).is_closed ==> *final(self) == *old(self) && r == Err::<u64, SessionError>(
                SessionError::SessionClosed,
            ),
            !old(self).is_closed && old(self).new_local_session is None ==> final(self).new_local_session is None && Self::commit_effect(*old(self), *final(self)),
            !old(self).is_closed && old(self).new_local_session is Some ==> (final(self).new_local_session is None ==> Self::commit_effect(*old(self), *final(self))) && (
            final(self).new_local_session is Some ==> r is Err && Self::same_stacks(
                *final(self),
                *old(self),
            ) && final(self).conn.log() == old(self).conn.log()),
            r is Ok ==> final(self).new_local_session is None,
            !old(self).is_closed && old(self).new_local_session is None && old(self).tx_stack@.len() == 0 ==> r == Ok::<u64, SessionError>(0),
    {
        if self.is_closed {
            return Err(SessionError::SessionClosed);
        }
        let mut total: u64 = 0;
        let child_opt = self.new_local_session.take();
        match child_opt {
            Some(mut c) => {
                match c.commit_direct() {
                    Ok(n) => {
                        c.close();
                        total = n;
                    },
                    Err(e) => {
                        self.new_local_session = Some(c);
                        return Err(e);
                    },
                }
            },
            None => {},
        }
        match self.commit_direct() {
            Ok(n) => Ok(sat_add(total, n)),
            Err(e) => Err(e),
        }
    }

    /// Rolls back the innermost scope.  An active delegated child is
    /// first rolled back, closed and removed; leaving a nested scope
    /// dispatches `ROLLBACK TO SAVEPOINT` for exactly the savepoint
    /// pushed when the scope was entered; the real `ROLLBACK` reaches the
    /// connection only when the scope stack empties.  At depth zero with
    /// no child this is a no-op returning zero.
    pub fn rollback(&mut self) -> (r: Result<u64, SessionError>)
        requires
            old(self).wf(),
        ensures
            final(self).wf(),
            Self::same_config(*final(self), *old(self)),
            old(self).is_closed ==> *final(self) == *old(self) && r == Err::<u64, SessionError>(
                SessionError::SessionClosed,
            ),
            !old(self).is_closed && old(self).new_local_session is None ==> final(self).new_local_session is None && Self::rollback_effect(*old(self), *final(self)),
            !old(self).is_closed && old(self).new_local_session is Some ==> (final(self).new_local_session is None ==> Self::rollback_effect(*old(self), *final(self))) && (
            final(self).new_local_session is Some ==> r is Err && Self::same_stacks(
                *final(self),
                *old(self),
            ) && final(self).conn.log() == old(self).conn.log()),
            r is Ok ==> final(self).new_local_session is None,
            !old(self).is_closed && old(self).new_local_session is None && old(self).tx_stack@.len() == 0 ==> r == Ok::<u64, SessionError>(0),
    {
        if self.is_closed {
            return Err(SessionError::SessionClosed);
        }
        let mut total: u64 = 0;
        let child_opt = self.new_local_session.take();
        match child_opt {
            Some(mut c) => {
                match c.rollback_direct() {
                    Ok(n) => {
                        c.close();
                        total = n;
                    },
                    Err(e) => {
                        self.new_local_session = Some(c);
                        return Err(e);
                    },
                }
            },
            None => {},
        }
        match self.rollback_direct() {
            Ok(n) => Ok(sat_add(total, n)),
            Err(e) => Err(e),
        }
    }
    /// Commit dispatches the real `COMMIT` exactly when the stack depth
    /// goes from one to zero; every inner scope exit is a logical marker
    /// or a savepoint statement, never a finalize.
    pub proof fn lemma_commit_finalizes_exactly_at_depth_one(pre: Self, post: Self)
        requires
            pre.stacks_ok(),
            Self::commit_effect(pre, post),
        ensures
            (post.conn.log() == pre.conn.log().push(Stmt::Commit)) <==> pre.depth() == 1,
    {
        let d = pre.tx_stack@.len();
        if d == 0 {
            assert(pre.conn.log().push(Stmt::Commit).len() == pre.conn.log().len() + 1);
        } else if d > 1 {
            if pre.tx_stack@.last().1 == Propagation::NESTED {
                assert(post.conn.log().last() == Stmt::Command(
                    savepoint_sql(d),
                    Seq::<DbValue>::empty(),
                ));
            } else {
                assert(pre.conn.log().push(Stmt::Commit).len() == pre.conn.log().len() + 1);
            }
        }
    }

    /// Rollback dispatches the real `ROLLBACK` exactly when the stack
    /// depth goes from one to zero.
    pub proof fn lemma_rollback_finalizes_exactly_at_depth_one(pre: Self, post: Self)
        requires
            pre.stacks_ok(),
            Self::rollback_effect(pre, post),
        ensures
            (post.conn.log() == pre.conn.log().push(Stmt::Rollback)) <==> pre.depth() == 1,
    {
        let d = pre.tx_stack@.len();
        if d == 0 {
            assert(pre.conn.log().push(Stmt::Rollback).len() == pre.conn.log().len() + 1);
        } else if d > 1 {
            if pre.tx_stack@.last().1 == Propagation::NESTED {
                assert(post.conn.log().last() == Stmt::Command(
                    rollback_savepoint_sql(pre.save_point_stack@.last()),
                    Seq::<DbValue>::empty(),
                ));
            } else {
                assert(pre.conn.log().push(Stmt::Rollback).len() == pre.conn.log().len() + 1);
            }
        }
    }

    /// Rolling back a nested scope dispatches exactly one
    /// `ROLLBACK TO SAVEPOINT`, targeting exactly the savepoint that the
    /// `NESTED` begin entering the scope pushed, and restores the
    /// savepoint stack the begin found: the two stacks correspond LIFO.
    pub proof fn lemma_nested_rollback_uses_begin_savepoint(s0: Self, s1: Self, s2: Self)
        requires
            s0.tx_stack@.len() > 0,
            Self::begin_effect(s0, s1, Propagation::NESTED, Ok::<(), SessionError>(())),
            Self::rollback_effect(s1, s2),
        ensures
            s2.conn.log() == s1.conn.log().push(
                Stmt::Command(
                    rollback_savepoint_sql(savepoint_name(s0.tx_stack@.len())),
                    Seq::<DbValue>::empty(),
                ),
            ),
            s2.save_point_stack@ == s0.save_point_stack@,
            s2.tx_stack@ == s0.tx_stack@,
    {
        let d0 = s0.tx_stack@.len();
        assert(s1.tx_stack@.len() == d0 + 1);
        assert(s1.tx_stack@.last().1 == Propagation::NESTED);
        assert(s1.save_point_stack@.last() == savepoint_name(d0));
        assert(s2.save_point_stack@ =~= s0.save_point_stack@);
        assert(s2.tx_stack@ =~= s0.tx_stack@);
    }
}

} // verus!
