//! The intermediate value: the dynamically-shaped in-memory representation
//! of one decoded database row.  It is the sole interchange format between
//! the driver collaborator and the result decoder.

use vstd::prelude::*;

verus! {

/// A dynamically-typed value tree produced by decoding one database row.
///
/// Numbers are carried as signed 64-bit integers; an object is an ordered
/// list of named fields.
pub enum DbValue {
    Null,
    Bool(bool),
    Int(i64),
    Str(String),
    Obj(Vec<(String, DbValue)>),
    Arr(Vec<DbValue>),
}

/// The number of rows a value stands for: nothing for `Null`, the element
/// count of an array, one for anything else.
pub open spec fn json_size(v: DbValue) -> nat {
    match v {
        DbValue::Null => 0,
        DbValue::Arr(a) => a@.len(),
        _ => 1,
    }
}

/// Row count of a decoded value.
pub fn json_len(js: &DbValue) -> (r: usize)
    ensures
        r as nat == json_size(*js),
{
    match js {
        DbValue::Null => 0,
        DbValue::Arr(a) => a.len(),
        _ => 1,
    }
}

} // verus!
