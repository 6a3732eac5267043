//! The transaction stack: the ordered record of currently active, possibly
//! nested transaction scopes on one session.  Depth zero means autocommit.

use vstd::prelude::*;

use crate::propagation::Propagation;

verus! {

/// A transaction handle: the marker for one open transaction scope.  The
/// session keeps the connection itself and dispatches through it, so the
/// handle carries no state of its own; it is pushed when a scope opens and
/// popped exactly once when the scope is committed or rolled back.
#[derive(Debug, Clone, Copy, PartialEq, Eq, Structural)]
pub struct Tx;

/// A stack of `(transaction handle, propagation mode)` pairs.  Its depth
/// is the count of active transaction scopes.
pub struct TxStack {
    pub entries: Vec<(Tx, Propagation)>,
}

impl View for TxStack {
    type V = Seq<(Tx, Propagation)>;

    open spec fn view(&self) -> Seq<(Tx, Propagation)> {
        self.entries@
    }
}

impl TxStack {
    /// An empty stack.
    pub fn new() -> (r: TxStack)
        ensures
            r@ == Seq::<(Tx, Propagation)>::empty(),
    {
        TxStack { entries: Vec::new() }
    }

    /// Current depth.
    pub fn len(&self) -> (r: usize)
        ensures
            r == self@.len(),
    {
        self.entries.len()
    }

    /// Appends one scope.
    pub fn push(&mut self, tx: Tx, mode: Propagation)
        ensures
            final(self)@ == old(self)@.push((tx, mode)),
    {
        self.entries.push((tx, mode));
    }

    /// Removes and returns the top scope; popping an empty stack is a
    /// no-op returning nothing, never an error.
    pub fn pop(&mut self) -> (r: Option<(Tx, Propagation)>)
        ensures
            old(self)@.len() == 0 ==> r is None && final(self)@ == old(self)@,
            old(self)@.len() > 0 ==> r == Some(old(self)@.last()) && final(self)@ == old(
                self,
            )@.drop_last(),
    {
        self.entries.pop()
    }

    /// Returns the top scope without removing it.
    pub fn peek(&self) -> (r: Option<(Tx, Propagation)>)
        ensures
            self@.len() == 0 ==> r is None,
            self@.len() > 0 ==> r == Some(self@.last()),
    {
        if self.entries.len() == 0 {
            None
        } else {
            let e = self.entries[self.entries.len() - 1];
            Some(e)
        }
    }
}


/// How many entries of the stack are nested scopes.
pub open spec fn nested_count(s: Seq<(Tx, Propagation)>) -> nat
    decreases s.len(),
{
    if s.len() == 0 {
        0
    } else {
        nested_count(s.drop_last()) + (if s.last().1 == Propagation::NESTED {
            1nat
        } else {
            0nat
        })
    }
}

/// Appending an entry raises the nested count by one exactly when the
/// entry is a nested scope.
pub proof fn lemma_nested_count_push(s: Seq<(Tx, Propagation)>, e: (Tx, Propagation))
    ensures
        nested_count(s.push(e)) == nested_count(s) + (if e.1 == Propagation::NESTED {
            1nat
        } else {
            0nat
        }),
{
    assert(s.push(e).drop_last() =~= s);
    assert(s.push(e).last() == e);
}

} // verus!
