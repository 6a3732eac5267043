//! Transaction propagation: the policy governing whether a new transaction
//! scope joins, suspends, or is rejected relative to an already-active
//! transaction.

use vstd::prelude::*;

verus! {

/// A propagation mode, attached to each transaction-stack entry when the
/// entry is pushed and immutable thereafter.  `NONE` is declared for
/// completeness and is not supported by `begin`.
#[allow(non_camel_case_types)]
#[derive(Debug, Clone, Copy, PartialEq, Eq, Structural)]
pub enum Propagation {
    /// Join the current transaction, or start a new one when none exists.
    REQUIRED,
    /// Join implicitly; never changes the stack.
    SUPPORTS,
    /// Join the current transaction; fail when none exists.
    MANDATORY,
    /// Suspend the outer work: route everything to a delegated child
    /// session holding its own transaction on a fresh connection.
    REQUIRES_NEW,
    /// Route everything to a delegated child session in autocommit mode.
    NOT_SUPPORTED,
    /// Proceed only outside a transaction; fail when one exists.
    NEVER,
    /// Run in a nested scope guarded by a savepoint; degrades to
    /// `REQUIRED` when no transaction exists.
    NESTED,
    /// Start a new transaction; fail when one already exists.
    NOT_REQUIRED,
    /// Not a supported policy; `begin` rejects it.
    NONE,
}

} // verus!
