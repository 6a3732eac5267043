use rbatis::decode::decode_result;
use rbatis::decode::is_array;
use rbatis::decode::shape_of_target_type;
use rbatis::decode::Decode;
use rbatis::decode::DecodeError;
use rbatis::decode::TargetShape;
use rbatis::value::json_len;
use rbatis::value::DbValue;

fn obj(fields: Vec<(&str, DbValue)>) -> DbValue {
    DbValue::Obj(fields.into_iter().map(|(k, v)| (k.to_string(), v)).collect())
}

#[test]
fn collection_of_zero_rows_is_empty_collection() {
    let r = decode_result(TargetShape::Collection, "alloc::vec::Vec<i64>", vec![]);
    match r {
        Ok(DbValue::Arr(a)) => assert_eq!(a.len(), 0),
        _ => panic!("expected an empty array"),
    }
}

#[test]
fn collection_keeps_all_rows_in_order() {
    let rows = vec![DbValue::Int(1), DbValue::Int(2), DbValue::Int(3)];
    let r = decode_result(TargetShape::Collection, "alloc::vec::Vec<i64>", rows);
    match r {
        Ok(DbValue::Arr(a)) => {
            assert_eq!(a.len(), 3);
            assert!(matches!(a[0], DbValue::Int(1)));
            assert!(matches!(a[1], DbValue::Int(2)));
            assert!(matches!(a[2], DbValue::Int(3)));
        }
        _ => panic!("expected an array"),
    }
}

#[test]
fn scalar_unwraps_single_field_of_single_row() {
    let rows = vec![obj(vec![("count", DbValue::Int(42))])];
    let r = decode_result(TargetShape::Scalar, "i64", rows);
    assert!(matches!(r, Ok(DbValue::Int(42))));
}

#[test]
fn scalar_consults_only_the_first_row() {
    let rows = vec![
        obj(vec![("a", DbValue::Int(1))]),
        obj(vec![("a", DbValue::Int(2))]),
    ];
    let r = decode_result(TargetShape::Scalar, "u64", rows);
    assert!(matches!(r, Ok(DbValue::Int(1))));
}

#[test]
fn scalar_of_no_rows_is_null() {
    let r = decode_result(TargetShape::Scalar, "i64", vec![]);
    assert!(matches!(r, Ok(DbValue::Null)));
}

#[test]
fn raw_value_wraps_rows_without_decoding() {
    let rows = vec![DbValue::Bool(true)];
    let r = decode_result(TargetShape::RawValue, "serde_json::value::Value", rows);
    match r {
        Ok(DbValue::Arr(a)) => {
            assert_eq!(a.len(), 1);
            assert!(matches!(a[0], DbValue::Bool(true)));
        }
        _ => panic!("expected an array"),
    }
}

#[test]
fn structured_with_three_rows_fails_naming_type_and_count() {
    let rows = vec![DbValue::Null, DbValue::Null, DbValue::Null];
    let r = decode_result(TargetShape::Structured, "Record", rows);
    match r {
        Err(e @ DecodeError::TooManyRows { .. }) => {
            let m = e.message();
            assert!(m.contains("Record"));
            assert!(m.contains("3"));
            assert_eq!(m, "expected one result(Record), got 3 rows");
        }
        _ => panic!("expected TooManyRows"),
    }
}

#[test]
fn structured_with_zero_rows_is_absent() {
    let r = decode_result(TargetShape::Structured, "Record", vec![]);
    assert!(matches!(r, Ok(DbValue::Null)));
}

#[test]
fn structured_with_one_row_is_that_row() {
    let rows = vec![obj(vec![("id", DbValue::Int(7))])];
    let r = decode_result(TargetShape::Structured, "Record", rows);
    match r {
        Ok(DbValue::Obj(fields)) => {
            assert_eq!(fields.len(), 1);
            assert_eq!(fields[0].0, "id");
            assert!(matches!(fields[0].1, DbValue::Int(7)));
        }
        _ => panic!("expected the single row back"),
    }
}

#[test]
fn shape_inference_follows_priority_order() {
    assert_eq!(
        shape_of_target_type("alloc::vec::Vec<i64>"),
        TargetShape::Collection
    );
    assert_eq!(
        shape_of_target_type("alloc::collections::linked_list::LinkedList<u8>"),
        TargetShape::Collection
    );
    assert_eq!(shape_of_target_type("[i64; 3]"), TargetShape::Collection);
    assert_eq!(shape_of_target_type("&[u8]"), TargetShape::Collection);
    assert_eq!(shape_of_target_type("i64"), TargetShape::Scalar);
    assert_eq!(shape_of_target_type("u32"), TargetShape::Scalar);
    assert_eq!(
        shape_of_target_type("serde_json::number::Number"),
        TargetShape::Scalar
    );
    assert_eq!(
        shape_of_target_type("serde_json::value::Value"),
        TargetShape::RawValue
    );
    assert_eq!(
        shape_of_target_type("biz::BizActivity"),
        TargetShape::Structured
    );
    assert_eq!(shape_of_target_type("String"), TargetShape::Structured);
}

#[test]
fn is_array_checks_known_prefixes() {
    assert!(is_array("alloc::vec::Vec<String>"));
    assert!(is_array("[u8]"));
    assert!(is_array("&[u8]"));
    assert!(is_array("alloc::collections::linked_list::LinkedList<u8>"));
    assert!(!is_array("i64"));
    assert!(!is_array("core::option::Option<i64>"));
}

#[test]
fn json_len_counts_rows() {
    assert_eq!(json_len(&DbValue::Null), 0);
    assert_eq!(
        json_len(&DbValue::Arr(vec![DbValue::Int(1), DbValue::Int(2)])),
        2
    );
    assert_eq!(json_len(&DbValue::Int(5)), 1);
    assert_eq!(json_len(&DbValue::Str("x".to_string())), 1);
}

#[test]
fn decode_trait_primitives() {
    assert_eq!(i64::decode(DbValue::Int(5)).unwrap(), 5);
    assert!(i64::decode(DbValue::Str("5".to_string())).is_err());
    assert_eq!(bool::decode(DbValue::Bool(true)).unwrap(), true);
    assert!(bool::decode(DbValue::Null).is_err());
    assert_eq!(String::decode(DbValue::Str("abc".to_string())).unwrap(), "abc");
    assert!(String::decode(DbValue::Int(1)).is_err());
    assert!(matches!(
        DbValue::decode(DbValue::Bool(false)),
        Ok(DbValue::Bool(false))
    ));
}

#[test]
fn failure_message_names_type_and_cause() {
    let e = DecodeError::Failure {
        target_type: "Foo".to_string(),
        cause: "missing field".to_string(),
    };
    assert_eq!(e.message(), "json decode: Foo fail: missing field");
}
