//! The result decoder: given the shape a caller requested (scalar,
//! collection, raw value or structured record) and the rows a query
//! produced, select the single intermediate value that typed
//! materialization should consume, or report why none exists.

use vstd::prelude::*;
use vstd::string::StringExecFns;

use crate::text::dec_digits;
use crate::text::seq_starts_with;
use crate::text::str_eq;
use crate::text::str_starts_with;
use crate::text::u64_to_dec;
use crate::value::DbValue;

verus! {

/// A decoding failure.
#[derive(Debug, Clone)]
pub enum DecodeError {
    /// More than one row arrived where a single result was requested.
    TooManyRows { target_type: String, row_count: u64 },
    /// The structural conversion into the target type failed.
    Failure { target_type: String, cause: String },
}

impl DecodeError {
    /// A human-readable description; it names the target type and, for
    /// `TooManyRows`, the offending row count.
    pub fn message(&self) -> (r: String)
        ensures
            (self matches DecodeError::TooManyRows { target_type, row_count } ==> r@
                == "expected one result("@ + target_type@ + "), got "@ + dec_digits(
                row_count as nat,
            ) + " rows"@),
            (self matches DecodeError::Failure { target_type, cause } ==> r@ == "json decode: "@
                + target_type@ + " fail: "@ + cause@),
    {
        match self {
            DecodeError::TooManyRows { target_type, row_count } => {
                let mut m = String::from_str("expected one result(");
                m.append(target_type.as_str());
                m.append("), got ");
                m.append(u64_to_dec(*row_count).as_str());
                m.append(" rows");
                m
            },
            DecodeError::Failure { target_type, cause } => {
                let mut m = String::from_str("json decode: ");
                m.append(target_type.as_str());
                m.append(" fail: ");
                m.append(cause.as_str());
                m
            },
        }
    }
}

/// The closed set of shapes a caller can request a result in.
#[derive(Debug, Clone, Copy, PartialEq, Eq, Structural)]
pub enum TargetShape {
    /// A homogeneous list of the element type; empty input is fine.
    Collection,
    /// A numeric scalar taken from the first row's single field.
    Scalar,
    /// The raw dynamic value type itself, no further decoding.
    RawValue,
    /// A single structured record; at most one row is allowed.
    Structured,
}

/// A type that can be decoded from an intermediate value.
pub trait Decode where Self: Sized {
    fn decode(value: DbValue) -> Result<Self, DecodeError>;
}

/// The requested type denotes a sequence/collection.
pub open spec fn is_array_name(n: Seq<char>) -> bool {
    ||| seq_starts_with(n, "alloc::collections::linked_list"@)
    ||| seq_starts_with(n, "alloc::vec::Vec<"@)
    ||| seq_starts_with(n, "["@)
    ||| seq_starts_with(n, "&["@)
}

/// The requested type denotes a numeric scalar.
pub open spec fn is_scalar_name(n: Seq<char>) -> bool {
    ||| n == "i8"@
    ||| n == "i16"@
    ||| n == "i32"@
    ||| n == "i64"@
    ||| n == "u8"@
    ||| n == "u16"@
    ||| n == "u32"@
    ||| n == "u64"@
    ||| n == "f32"@
    ||| n == "f64"@
    ||| n == "serde_json::number::Number"@
}

/// Shape inference from a type's name, in priority order: collection,
/// scalar, raw dynamic value, structured record.
pub open spec fn spec_shape_of(n: Seq<char>) -> TargetShape {
    if is_array_name(n) {
        TargetShape::Collection
    } else if is_scalar_name(n) {
        TargetShape::Scalar
    } else if n == "serde_json::value::Value"@ {
        TargetShape::RawValue
    } else {
        TargetShape::Structured
    }
}

/// Whether the named type is decoded as a collection.
pub fn is_array(target_type: &str) -> (r: bool)
    ensures
        r == is_array_name(target_type@),
{
    str_starts_with(target_type, "alloc::collections::linked_list") || str_starts_with(
        target_type,
        "alloc::vec::Vec<",
    ) || str_starts_with(target_type, "[") || str_starts_with(target_type, "&[")
}

/// Infers the target shape from a type's name.
pub fn shape_of_target_type(target_type: &str) -> (r: TargetShape)
    ensures
        r == spec_shape_of(target_type@),
{
    if is_array(target_type) {
        TargetShape::Collection
    } else if str_eq(target_type, "i8") || str_eq(target_type, "i16") || str_eq(target_type, "i32")
        || str_eq(target_type, "i64") || str_eq(target_type, "u8") || str_eq(target_type, "u16")
        || str_eq(target_type, "u32") || str_eq(target_type, "u64") || str_eq(target_type, "f32")
        || str_eq(target_type, "f64") || str_eq(target_type, "serde_json::number::Number") {
        TargetShape::Scalar
    } else if str_eq(target_type, "serde_json::value::Value") {
        TargetShape::RawValue
    } else {
        TargetShape::Structured
    }
}

/// The value a scalar request selects: the first field of the first row,
/// when that row is an object with at least one field; `Null` otherwise.
/// Rows after the first are never consulted.
pub open spec fn scalar_pick(rows: Seq<DbValue>) -> DbValue {
    if rows.len() == 0 {
        DbValue::Null
    } else {
        match rows[0] {
            DbValue::Obj(fields) => if fields@.len() > 0 {
                fields@[0].1
            } else {
                DbValue::Null
            },
            _ => DbValue::Null,
        }
    }
}

/// Shapes the rows of a result set into the one intermediate value that
/// typed materialization consumes.
///
/// A collection or raw-value request wraps all rows as an array (zero rows
/// give an empty array, never an error).  A scalar request consults only
/// the first row.  A structured request admits at most one row: a second
/// row is `TooManyRows`, zero rows give `Null`, the absent representation.
pub fn decode_result(shape: TargetShape, target_type: &str, rows: Vec<DbValue>) -> (r: Result<
    DbValue,
    DecodeError,
>)
    ensures
        shape == TargetShape::Collection || shape == TargetShape::RawValue ==> (r matches Ok(v)
            && v matches DbValue::Arr(a) && a@ == rows@),
        shape == TargetShape::Scalar ==> r == Ok::<DbValue, DecodeError>(scalar_pick(rows@)),
        shape == TargetShape::Structured && rows@.len() > 1 ==> (r matches Err(
            DecodeError::TooManyRows { target_type: t, row_count: c },
        ) && t@ == target_type@ && c == rows@.len()),
        shape == TargetShape::Structured && rows@.len() == 1 ==> r == Ok::<DbValue, DecodeError>(
            rows@[0],
        ),
        shape == TargetShape::Structured && rows@.len() == 0 ==> r == Ok::<DbValue, DecodeError>(
            DbValue::Null,
        ),
{
    match shape {
        TargetShape::Collection => Ok(DbValue::Arr(rows)),
        TargetShape::RawValue => Ok(DbValue::Arr(rows)),
        TargetShape::Scalar => {
            let mut rows = rows;
            if rows.len() == 0 {
                Ok(DbValue::Null)
            } else {
                let first = rows.remove(0);
                match first {
                    DbValue::Obj(fields) => {
                        let mut fields = fields;
                        if fields.len() > 0 {
                            let (_, v) = fields.remove(0);
                            Ok(v)
                        } else {
                            Ok(DbValue::Null)
                        }
                    },
                    _ => Ok(DbValue::Null),
                }
            }
        },
        TargetShape::Structured => {
            let mut rows = rows;
            if rows.len() > 1 {
                Err(DecodeError::TooManyRows {
                    target_type: target_type.to_owned(),
                    row_count: rows.len() as u64,
                })
            } else if rows.len() == 1 {
                match rows.pop() {
                    Some(v) => Ok(v),
                    None => Ok(DbValue::Null),
                }
            } else {
                Ok(DbValue::Null)
            }
        },
    }
}

impl Decode for i64 {
    /// An integer decodes from `Int` alone.
    fn decode(value: DbValue) -> (r: Result<i64, DecodeError>)
        ensures
            value matches DbValue::Int(i) ==> r == Ok::<i64, DecodeError>(i),
            !(value matches DbValue::Int(_)) ==> r is Err,
    {
        match value {
            DbValue::Int(i) => Ok(i),
            _ => Err(DecodeError::Failure {
                target_type: String::from_str("i64"),
                cause: String::from_str("not an integer value"),
            }),
        }
    }
}

impl Decode for bool {
    /// A boolean decodes from `Bool` alone.
    fn decode(value: DbValue) -> (r: Result<bool, DecodeError>)
        ensures
            value matches DbValue::Bool(b) ==> r == Ok::<bool, DecodeError>(b),
            !(value matches DbValue::Bool(_)) ==> r is Err,
    {
        match value {
            DbValue::Bool(b) => Ok(b),
            _ => Err(DecodeError::Failure {
                target_type: String::from_str("bool"),
                cause: String::from_str("not a boolean value"),
            }),
        }
    }
}

impl Decode for String {
    /// A string decodes from `Str` alone.
    fn decode(value: DbValue) -> (r: Result<String, DecodeError>)
        ensures
            value matches DbValue::Str(s) ==> (r matches Ok(t) && t == s),
            !(value matches DbValue::Str(_)) ==> r is Err,
    {
        match value {
            DbValue::Str(s) => Ok(s),
            _ => Err(DecodeError::Failure {
                target_type: String::from_str("String"),
                cause: String::from_str("not a string value"),
            }),
        }
    }
}

impl Decode for DbValue {
    /// The raw value type decodes as itself.
    fn decode(value: DbValue) -> (r: Result<DbValue, DecodeError>)
        ensures
            r == Ok::<DbValue, DecodeError>(value),
    {
        Ok(value)
    }
}

} // verus!
