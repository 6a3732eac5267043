//! The savepoint stack: the names of the savepoints guarding currently
//! open nested scopes, kept in lock-step with the `NESTED` entries of the
//! transaction stack.

use vstd::prelude::*;

verus! {

/// A stack of savepoint names.  Its view is the sequence of names as
/// character sequences, bottom first.
pub struct SavePointStack {
    pub names: Vec<String>,
}

impl View for SavePointStack {
    type V = Seq<Seq<char>>;

    open spec fn view(&self) -> Seq<Seq<char>> {
        self.names@.map_values(|s: String| s@)
    }
}

impl SavePointStack {
    /// An empty stack.
    pub fn new() -> (r: SavePointStack)
        ensures
            r@ == Seq::<Seq<char>>::empty(),
    {
        let r = SavePointStack { names: Vec::new() };
        proof {
            assert(r@ =~= Seq::<Seq<char>>::empty());
        }
        r
    }

    /// Current depth.
    pub fn len(&self) -> (r: usize)
        ensures
            r == self@.len(),
    {
        self.names.len()
    }

    /// Appends one name.
    pub fn push(&mut self, name: String)
        ensures
            final(self)@ == old(self)@.push(name@),
    {
        self.names.push(name);
        proof {
            assert(self@ =~= old(self)@.push(name@));
        }
    }

    /// Removes and returns the most recent name, or nothing when the
    /// stack is empty.
    pub fn pop(&mut self) -> (r: Option<String>)
        ensures
            old(self)@.len() == 0 ==> r is None && final(self)@ == old(self)@,
            old(self)@.len() > 0 ==> (r matches Some(n) && n@ == old(self)@.last() && final(self)@
                == old(self)@.drop_last()),
    {
        let r = self.names.pop();
        proof {
            if old(self)@.len() > 0 {
                assert(self@ =~= old(self)@.drop_last());
            }
        }
        r
    }
}

} // verus!
