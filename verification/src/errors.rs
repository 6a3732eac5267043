//! The session's error kinds.  Every public operation returns an explicit
//! success/failure result; no error is retried or silently swallowed.

use vstd::prelude::*;
use vstd::string::StringExecFns;

verus! {

/// Why a session operation failed.
#[derive(Debug, Clone, PartialEq, Eq)]
pub enum SessionError {
    /// A mutating operation reached a closed session.
    SessionClosed,
    /// `MANDATORY` propagation with no transaction active.
    NoActiveTransaction,
    /// `NEVER` propagation with a transaction active.
    UnexpectedTransaction,
    /// `NOT_REQUIRED` propagation re-entered an active transaction.
    NestedTransaction,
    /// The propagation mode is not supported by `begin`.
    UnsupportedPropagation,
    /// The connection-acquisition collaborator could not supply a
    /// connection; carries its description of the failure.
    ConnectionAcquisition(String),
    /// The driver reported a failure; carries its description.
    Driver(String),
}

impl SessionError {
    /// A short human-readable description of the error kind.
    pub fn message(&self) -> (r: String)
        ensures
            (self matches SessionError::SessionClosed ==> r@
                == "session can not be used after close"@),
            (self matches SessionError::NoActiveTransaction ==> r@
                == "MANDATORY propagation: no active transaction"@),
            (self matches SessionError::UnexpectedTransaction ==> r@
                == "NEVER propagation: a transaction is already active"@),
            (self matches SessionError::NestedTransaction ==> r@
                == "NOT_REQUIRED propagation: a transaction is already active"@),
            (self matches SessionError::UnsupportedPropagation ==> r@
                == "propagation mode not supported in begin"@),
            (self matches SessionError::ConnectionAcquisition(d) ==> r@ == d@),
            (self matches SessionError::Driver(d) ==> r@ == d@),
    {
        match self {
            SessionError::SessionClosed => String::from_str("session can not be used after close"),
            SessionError::NoActiveTransaction => String::from_str(
                "MANDATORY propagation: no active transaction",
            ),
            SessionError::UnexpectedTransaction => String::from_str(
                "NEVER propagation: a transaction is already active",
            ),
            SessionError::NestedTransaction => String::from_str(
                "NOT_REQUIRED propagation: a transaction is already active",
            ),
            SessionError::UnsupportedPropagation => String::from_str(
                "propagation mode not supported in begin",
            ),
            SessionError::ConnectionAcquisition(d) => d.clone(),
            SessionError::Driver(d) => d.clone(),
        }
    }
}

} // verus!
