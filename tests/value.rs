use std::sync::Arc;

use scylla_rust_wrapper::query_result::CassValue;
use scylla_rust_wrapper::raw_value::deserialize;
use scylla_rust_wrapper::types::{CassDataType, CassError, CassValueType};
use scylla_rust_wrapper::value::{
    cass_value_get_bool, cass_value_get_bytes, cass_value_get_decimal, cass_value_get_duration,
    cass_value_get_inet, cass_value_get_int16, cass_value_get_int32, cass_value_get_int64,
    cass_value_get_int8, cass_value_get_string, cass_value_get_uint32, cass_value_get_uuid,
    NonNullDeserializationError,
};

fn typed(t: CassValueType, bytes: Option<Vec<u8>>) -> CassValue {
    let typ = CassDataType::Value(t);
    CassValue { value: deserialize(&typ, bytes).unwrap(), value_type: Arc::new(typ) }
}

#[test]
fn decimal_getter_on_boolean_is_invalid_value_type() {
    let v = typed(CassValueType::CASS_VALUE_TYPE_BOOLEAN, Some(vec![1]));
    assert_eq!(Err(CassError::CASS_ERROR_LIB_INVALID_VALUE_TYPE), cass_value_get_decimal(&v));
    assert_eq!(Ok(true), cass_value_get_bool(&v));
}

#[test]
fn bool_getter() {
    assert_eq!(Ok(false), cass_value_get_bool(&typed(CassValueType::CASS_VALUE_TYPE_BOOLEAN, Some(vec![0]))));
    assert_eq!(Ok(true), cass_value_get_bool(&typed(CassValueType::CASS_VALUE_TYPE_BOOLEAN, Some(vec![7]))));
    assert_eq!(
        Err(CassError::CASS_ERROR_LIB_INVALID_DATA),
        cass_value_get_bool(&typed(CassValueType::CASS_VALUE_TYPE_BOOLEAN, Some(vec![0, 1])))
    );
    assert_eq!(
        Err(CassError::CASS_ERROR_LIB_NULL_VALUE),
        cass_value_get_bool(&typed(CassValueType::CASS_VALUE_TYPE_BOOLEAN, None))
    );
}

#[test]
fn small_integer_getters() {
    assert_eq!(Ok(-2), cass_value_get_int8(&typed(CassValueType::CASS_VALUE_TYPE_TINY_INT, Some(vec![0xfe]))));
    assert_eq!(
        Ok(-32768),
        cass_value_get_int16(&typed(CassValueType::CASS_VALUE_TYPE_SMALL_INT, Some(vec![0x80, 0x00])))
    );
    assert_eq!(
        Ok(256),
        cass_value_get_int32(&typed(CassValueType::CASS_VALUE_TYPE_INT, Some(vec![0, 0, 1, 0])))
    );
    assert_eq!(
        Ok(-1),
        cass_value_get_int32(&typed(CassValueType::CASS_VALUE_TYPE_INT, Some(vec![0xff; 4])))
    );
    assert_eq!(
        Ok(4294967295),
        cass_value_get_uint32(&typed(CassValueType::CASS_VALUE_TYPE_DATE, Some(vec![0xff; 4])))
    );
    assert_eq!(
        Err(CassError::CASS_ERROR_LIB_INVALID_DATA),
        cass_value_get_int32(&typed(CassValueType::CASS_VALUE_TYPE_INT, Some(vec![0, 1])))
    );
    assert_eq!(
        Err(CassError::CASS_ERROR_LIB_INVALID_VALUE_TYPE),
        cass_value_get_int32(&typed(CassValueType::CASS_VALUE_TYPE_BIGINT, Some(vec![0; 8])))
    );
}

#[test]
fn empty_int_reads_as_null() {
    let v = typed(CassValueType::CASS_VALUE_TYPE_INT, Some(vec![]));
    assert!(v.value.slice.is_none());
    assert_eq!(Err(CassError::CASS_ERROR_LIB_NULL_VALUE), cass_value_get_int32(&v));
}

#[test]
fn int64_getter_accepts_four_column_types() {
    let eight = Some(vec![0, 0, 0, 0, 0, 0, 1, 2]);
    for t in [
        CassValueType::CASS_VALUE_TYPE_BIGINT,
        CassValueType::CASS_VALUE_TYPE_COUNTER,
        CassValueType::CASS_VALUE_TYPE_TIME,
        CassValueType::CASS_VALUE_TYPE_TIMESTAMP,
    ] {
        assert_eq!(Ok(258), cass_value_get_int64(&typed(t, eight.clone())));
    }
    assert_eq!(
        Ok(-1),
        cass_value_get_int64(&typed(CassValueType::CASS_VALUE_TYPE_TIMESTAMP, Some(vec![0xff; 8])))
    );
    assert_eq!(
        Err(CassError::CASS_ERROR_LIB_INVALID_DATA),
        cass_value_get_int64(&typed(CassValueType::CASS_VALUE_TYPE_TIME, Some(vec![0xff; 8])))
    );
    assert_eq!(
        Err(CassError::CASS_ERROR_LIB_INVALID_VALUE_TYPE),
        cass_value_get_int64(&typed(CassValueType::CASS_VALUE_TYPE_INT, None))
    );
    assert_eq!(
        Err(CassError::CASS_ERROR_LIB_NULL_VALUE),
        cass_value_get_int64(&typed(CassValueType::CASS_VALUE_TYPE_COUNTER, None))
    );
}

#[test]
fn uuid_and_inet_getters() {
    let bytes: Vec<u8> = (1..=16).collect();
    assert_eq!(
        Ok(bytes.clone()),
        cass_value_get_uuid(&typed(CassValueType::CASS_VALUE_TYPE_TIMEUUID, Some(bytes.clone())))
    );
    assert_eq!(
        Err(CassError::CASS_ERROR_LIB_INVALID_DATA),
        cass_value_get_uuid(&typed(CassValueType::CASS_VALUE_TYPE_UUID, Some(vec![1, 2, 3])))
    );
    assert_eq!(
        Ok(&[127u8, 0, 0, 1][..]),
        cass_value_get_inet(&typed(CassValueType::CASS_VALUE_TYPE_INET, Some(vec![127, 0, 0, 1])))
    );
    assert_eq!(
        Err(CassError::CASS_ERROR_LIB_INVALID_DATA),
        cass_value_get_inet(&typed(CassValueType::CASS_VALUE_TYPE_INET, Some(vec![1, 2])))
    );
}

#[test]
fn decimal_getter_splits_scale_and_value() {
    let v = typed(CassValueType::CASS_VALUE_TYPE_DECIMAL, Some(vec![0, 0, 0, 2, 0x30, 0x39]));
    assert_eq!(Ok((vec![0x30, 0x39], 2)), cass_value_get_decimal(&v));
    let short = typed(CassValueType::CASS_VALUE_TYPE_DECIMAL, Some(vec![0, 0, 2]));
    assert_eq!(Err(CassError::CASS_ERROR_LIB_INVALID_DATA), cass_value_get_decimal(&short));
}

#[test]
fn string_getter_checks_encoding() {
    let text = typed(CassValueType::CASS_VALUE_TYPE_TEXT, Some("zażółć".as_bytes().to_vec()));
    assert_eq!(Ok("zażółć".as_bytes()), cass_value_get_string(&text));
    let ascii = typed(CassValueType::CASS_VALUE_TYPE_ASCII, Some("zażółć".as_bytes().to_vec()));
    assert_eq!(Err(CassError::CASS_ERROR_LIB_INVALID_DATA), cass_value_get_string(&ascii));
    let bad = typed(CassValueType::CASS_VALUE_TYPE_VARCHAR, Some(vec![0xff, 0xfe]));
    assert_eq!(Err(CassError::CASS_ERROR_LIB_INVALID_DATA), cass_value_get_string(&bad));
    let empty = typed(CassValueType::CASS_VALUE_TYPE_TEXT, Some(vec![]));
    assert_eq!(Ok(&b""[..]), cass_value_get_string(&empty));
    let blob = typed(CassValueType::CASS_VALUE_TYPE_BLOB, Some(vec![1]));
    assert_eq!(Err(CassError::CASS_ERROR_LIB_INVALID_VALUE_TYPE), cass_value_get_string(&blob));
}

#[test]
fn duration_getter_decodes_variable_length_integers() {
    // zig-zag: 2 -> 1, 4 -> 2, 6 -> 3
    let v = typed(CassValueType::CASS_VALUE_TYPE_DURATION, Some(vec![2, 4, 6]));
    assert_eq!(Ok((1, 2, 3)), cass_value_get_duration(&v));
    let negative = typed(CassValueType::CASS_VALUE_TYPE_DURATION, Some(vec![1, 3, 5]));
    assert_eq!(Ok((-1, -2, -3)), cass_value_get_duration(&negative));
    let empty = typed(CassValueType::CASS_VALUE_TYPE_DURATION, Some(vec![]));
    assert_eq!(Err(CassError::CASS_ERROR_LIB_INVALID_DATA), cass_value_get_duration(&empty));
}

#[test]
fn bytes_getter_and_error_codes() {
    let blob = typed(CassValueType::CASS_VALUE_TYPE_BLOB, Some(vec![]));
    assert_eq!(Ok(&b""[..]), cass_value_get_bytes(&blob));
    let null = typed(CassValueType::CASS_VALUE_TYPE_BLOB, None);
    assert_eq!(Err(CassError::CASS_ERROR_LIB_NULL_VALUE), cass_value_get_bytes(&null));
    assert_eq!(Err(NonNullDeserializationError::IsNull), null.get_bytes_non_null());
    assert_eq!(CassError::CASS_ERROR_LIB_NULL_VALUE, NonNullDeserializationError::IsNull.to_cass_error());
    assert_eq!(
        CassError::CASS_ERROR_LIB_INVALID_VALUE_TYPE,
        NonNullDeserializationError::Typecheck.to_cass_error()
    );
    assert_eq!(
        CassError::CASS_ERROR_LIB_INVALID_DATA,
        NonNullDeserializationError::Deserialization.to_cass_error()
    );
}
