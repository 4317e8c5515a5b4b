//! Typed getters: each reads a value's bytes as one representation,
//! after checking that the column's type admits it.
use scylla::cluster::metadata::{ColumnType, NativeType};
use scylla::deserialize::value::DeserializeValue;
use scylla::deserialize::FrameSlice;
use scylla::value::{Counter, CqlDate, CqlDecimalBorrowed, CqlDuration, CqlTime, CqlTimestamp, CqlTimeuuid};
use vstd::prelude::*;
use vstd::arithmetic::power2::pow2;
use vstd::utf8::valid_utf8;
use crate::query_result::CassValue;
use crate::types::{CassError, CassValueType};

verus! {

/// The bytes read as an unsigned big-endian integer.
pub open spec fn be_unsigned(b: Seq<u8>) -> nat
    decreases b.len(),
{
    if b.len() == 0 {
        0
    } else {
        be_unsigned(b.drop_last()) * 256 + b.last() as nat
    }
}

/// The bytes read as a signed (two's complement) big-endian integer.
pub open spec fn be_signed(b: Seq<u8>) -> int {
    if b.len() > 0 && b[0] >= 128 {
        be_unsigned(b) - pow2(8 * b.len())
    } else {
        be_unsigned(b) as int
    }
}

/// The largest time of day, in nanoseconds.
pub const MAX_TIME_NANOS: i64 = 86399999999999;

/// The (months, days, nanoseconds) that scylla's duration decoder reads from
/// the bytes, or `None` where it fails.
pub uninterp spec fn duration_of(b: Seq<u8>) -> Option<(i32, i32, i64)>;

/// Relies on scylla's `DeserializeValue` for `bool`: exactly one byte, true
/// unless it is zero.
#[verifier::external_body]
fn deserialize_boolean(b: &[u8]) -> (r: Option<bool>)
    ensures
        b@.len() == 1 ==> r == Some(b@[0] != 0),
        b@.len() != 1 ==> r is None,
{
    let typ = ColumnType::Native(NativeType::Boolean);
    <bool as DeserializeValue>::deserialize(&typ, Some(FrameSlice::new_borrowed(b))).ok()
}

/// Relies on scylla's `DeserializeValue` for `i8`: exactly one byte, signed.
#[verifier::external_body]
fn deserialize_tinyint(b: &[u8]) -> (r: Option<i8>)
    ensures
        b@.len() == 1 ==> r == Some(be_signed(b@) as i8),
        b@.len() != 1 ==> r is None,
{
    let typ = ColumnType::Native(NativeType::TinyInt);
    <i8 as DeserializeValue>::deserialize(&typ, Some(FrameSlice::new_borrowed(b))).ok()
}

/// Relies on scylla's `DeserializeValue` for `i16`: exactly two bytes,
/// signed big-endian.
#[verifier::external_body]
fn deserialize_smallint(b: &[u8]) -> (r: Option<i16>)
    ensures
        b@.len() == 2 ==> r == Some(be_signed(b@) as i16),
        b@.len() != 2 ==> r is None,
{
    let typ = ColumnType::Native(NativeType::SmallInt);
    <i16 as DeserializeValue>::deserialize(&typ, Some(FrameSlice::new_borrowed(b))).ok()
}

/// Relies on scylla's `DeserializeValue` for `i32`: exactly four bytes,
/// signed big-endian.
#[verifier::external_body]
fn deserialize_int(b: &[u8]) -> (r: Option<i32>)
    ensures
        b@.len() == 4 ==> r == Some(be_signed(b@) as i32),
        b@.len() != 4 ==> r is None,
{
    let typ = ColumnType::Native(NativeType::Int);
    <i32 as DeserializeValue>::deserialize(&typ, Some(FrameSlice::new_borrowed(b))).ok()
}

/// Relies on scylla's `DeserializeValue` for `i64`: exactly eight bytes,
/// signed big-endian.
#[verifier::external_body]
fn deserialize_bigint(b: &[u8]) -> (r: Option<i64>)
    ensures
        b@.len() == 8 ==> r == Some(be_signed(b@) as i64),
        b@.len() != 8 ==> r is None,
{
    let typ = ColumnType::Native(NativeType::BigInt);
    <i64 as DeserializeValue>::deserialize(&typ, Some(FrameSlice::new_borrowed(b))).ok()
}

/// Relies on scylla's `DeserializeValue` for `Counter`: exactly eight
/// bytes, signed big-endian.
#[verifier::external_body]
fn deserialize_counter(b: &[u8]) -> (r: Option<i64>)
    ensures
        b@.len() == 8 ==> r == Some(be_signed(b@) as i64),
        b@.len() != 8 ==> r is None,
{
    let typ = ColumnType::Native(NativeType::Counter);
    <Counter as DeserializeValue>::deserialize(&typ, Some(FrameSlice::new_borrowed(b))).ok().map(
        |c| c.0,
    )
}

/// Relies on scylla's `DeserializeValue` for `CqlTime`: exactly eight
/// bytes, signed big-endian, nanoseconds within one day.
#[verifier::external_body]
fn deserialize_time(b: &[u8]) -> (r: Option<i64>)
    ensures
        b@.len() == 8 && 0 <= be_signed(b@) <= MAX_TIME_NANOS ==> r == Some(be_signed(b@) as i64),
        !(b@.len() == 8 && 0 <= be_signed(b@) <= MAX_TIME_NANOS) ==> r is None,
{
    let typ = ColumnType::Native(NativeType::Time);
    <CqlTime as DeserializeValue>::deserialize(&typ, Some(FrameSlice::new_borrowed(b))).ok().map(
        |t| t.0,
    )
}

/// Relies on scylla's `DeserializeValue` for `CqlTimestamp`: exactly eight
/// bytes, signed big-endian milliseconds.
#[verifier::external_body]
fn deserialize_timestamp(b: &[u8]) -> (r: Option<i64>)
    ensures
        b@.len() == 8 ==> r == Some(be_signed(b@) as i64),
        b@.len() != 8 ==> r is None,
{
    let typ = ColumnType::Native(NativeType::Timestamp);
    <CqlTimestamp as DeserializeValue>::deserialize(&typ, Some(FrameSlice::new_borrowed(b))).ok().map(
        |t| t.0,
    )
}

/// Relies on scylla's `DeserializeValue` for `CqlDate`: exactly four bytes,
/// unsigned big-endian.
#[verifier::external_body]
fn deserialize_date(b: &[u8]) -> (r: Option<u32>)
    ensures
        b@.len() == 4 ==> r == Some(be_unsigned(b@) as u32),
        b@.len() != 4 ==> r is None,
{
    let typ = ColumnType::Native(NativeType::Date);
    <CqlDate as DeserializeValue>::deserialize(&typ, Some(FrameSlice::new_borrowed(b))).ok().map(
        |d| d.0,
    )
}

/// Relies on scylla's `DeserializeValue` for `CqlTimeuuid`, which reads a
/// UUID as a `Uuid` column does: exactly sixteen bytes, kept in order.
#[verifier::external_body]
fn deserialize_uuid(b: &[u8]) -> (r: Option<Vec<u8>>)
    ensures
        b@.len() == 16 ==> r is Some && r->Some_0@ == b@,
        b@.len() != 16 ==> r is None,
{
    let typ = ColumnType::Native(NativeType::Timeuuid);
    <CqlTimeuuid as DeserializeValue>::deserialize(&typ, Some(FrameSlice::new_borrowed(b))).ok().map(
        |u| u.as_bytes().to_vec(),
    )
}

/// Relies on scylla's `DeserializeValue` for `CqlDecimalBorrowed`: at least
/// four bytes; the first four are the signed big-endian scale, the rest the
/// unscaled value.
#[verifier::external_body]
fn deserialize_decimal(b: &[u8]) -> (r: Option<(Vec<u8>, i32)>)
    ensures
        b@.len() >= 4 ==> r is Some && r->Some_0.0@ == b@.skip(4) && r->Some_0.1 as int
            == be_signed(b@.take(4)),
        b@.len() < 4 ==> r is None,
{
    let typ = ColumnType::Native(NativeType::Decimal);
    <CqlDecimalBorrowed as DeserializeValue>::deserialize(&typ, Some(FrameSlice::new_borrowed(b))).ok().map(
        |d| {
            let (v, s) = d.as_signed_be_bytes_slice_and_exponent();
            (v.to_vec(), s)
        },
    )
}

/// Relies on scylla's `DeserializeValue` for `&str`: the bytes are valid
/// UTF-8, and for an `Ascii` column all of them are ASCII.
#[verifier::external_body]
fn text_is_valid(b: &[u8], ascii: bool) -> (r: bool)
    ensures
        r == (valid_utf8(b@) && (ascii ==> forall|i: int| 0 <= i < b@.len() ==> b@[i] < 128)),
{
    let typ = if ascii {
        ColumnType::Native(NativeType::Ascii)
    } else {
        ColumnType::Native(NativeType::Text)
    };
    <&str as DeserializeValue>::deserialize(&typ, Some(FrameSlice::new_borrowed(b))).is_ok()
}

/// Relies on scylla's `DeserializeValue` for `CqlDuration`: three
/// variable-length integers, months and days each within `i32`.
#[verifier::external_body]
fn deserialize_duration(b: &[u8]) -> (r: Option<(i32, i32, i64)>)
    ensures
        r == duration_of(b@),
        b@.len() == 0 ==> r is None,
{
    let typ = ColumnType::Native(NativeType::Duration);
    <CqlDuration as DeserializeValue>::deserialize(&typ, Some(FrameSlice::new_borrowed(b))).ok().map(
        |d| (d.months, d.days, d.nanoseconds),
    )
}
/// The value-type tag of a value's column.
pub open spec fn tag(value: CassValue) -> CassValueType {
    value.value_type.spec_value_type()
}

/// The bytes of a non-null value; `NULL_VALUE` for null.
fn bytes_non_null(value: &CassValue) -> (r: Result<&[u8], CassError>)
    ensures
        match value.value.bytes() {
            None => r == Err::<&[u8], CassError>(CassError::CASS_ERROR_LIB_NULL_VALUE),
            Some(b) => r is Ok && r->Ok_0@ == b,
        },
{
    match &value.value.slice {
        Some(b) => Ok(b.as_slice()),
        None => Err(CassError::CASS_ERROR_LIB_NULL_VALUE),
    }
}

/// A boolean value: one byte, true unless zero.
/// `NULL_VALUE` for null, `INVALID_VALUE_TYPE` for a column of another
/// type, `INVALID_DATA` for malformed bytes.
pub fn cass_value_get_bool(value: &CassValue) -> (r: Result<bool, CassError>)
    ensures
        match value.value.bytes() {
            None => r == Err::<bool, CassError>(CassError::CASS_ERROR_LIB_NULL_VALUE),
            Some(b) => if tag(*value) != CassValueType::CASS_VALUE_TYPE_BOOLEAN {
                r == Err::<bool, CassError>(CassError::CASS_ERROR_LIB_INVALID_VALUE_TYPE)
            } else if !(b.len() == 1) {
                r == Err::<bool, CassError>(CassError::CASS_ERROR_LIB_INVALID_DATA)
            } else {
                r == Ok::<bool, CassError>(b[0] != 0)
            },
        },
{
    let b = bytes_non_null(value)?;
    if value.value_type.get_value_type() != CassValueType::CASS_VALUE_TYPE_BOOLEAN {
        return Err(CassError::CASS_ERROR_LIB_INVALID_VALUE_TYPE);
    }
    match deserialize_boolean(b) {
        Some(v) => Ok(v),
        None => Err(CassError::CASS_ERROR_LIB_INVALID_DATA),
    }
}

/// A tinyint value.
/// `NULL_VALUE` for null, `INVALID_VALUE_TYPE` for a column of another
/// type, `INVALID_DATA` for malformed bytes.
pub fn cass_value_get_int8(value: &CassValue) -> (r: Result<i8, CassError>)
    ensures
        match value.value.bytes() {
            None => r == Err::<i8, CassError>(CassError::CASS_ERROR_LIB_NULL_VALUE),
            Some(b) => if tag(*value) != CassValueType::CASS_VALUE_TYPE_TINY_INT {
                r == Err::<i8, CassError>(CassError::CASS_ERROR_LIB_INVALID_VALUE_TYPE)
            } else if !(b.len() == 1) {
                r == Err::<i8, CassError>(CassError::CASS_ERROR_LIB_INVALID_DATA)
            } else {
                r == Ok::<i8, CassError>(be_signed(b) as i8)
            },
        },
{
    let b = bytes_non_null(value)?;
    if value.value_type.get_value_type() != CassValueType::CASS_VALUE_TYPE_TINY_INT {
        return Err(CassError::CASS_ERROR_LIB_INVALID_VALUE_TYPE);
    }
    match deserialize_tinyint(b) {
        Some(v) => Ok(v),
        None => Err(CassError::CASS_ERROR_LIB_INVALID_DATA),
    }
}

/// A smallint value: two bytes, big-endian.
/// `NULL_VALUE` for null, `INVALID_VALUE_TYPE` for a column of another
/// type, `INVALID_DATA` for malformed bytes.
pub fn cass_value_get_int16(value: &CassValue) -> (r: Result<i16, CassError>)
    ensures
        match value.value.bytes() {
            None => r == Err::<i16, CassError>(CassError::CASS_ERROR_LIB_NULL_VALUE),
            Some(b) => if tag(*value) != CassValueType::CASS_VALUE_TYPE_SMALL_INT {
                r == Err::<i16, CassError>(CassError::CASS_ERROR_LIB_INVALID_VALUE_TYPE)
            } else if !(b.len() == 2) {
                r == Err::<i16, CassError>(CassError::CASS_ERROR_LIB_INVALID_DATA)
            } else {
                r == Ok::<i16, CassError>(be_signed(b) as i16)
            },
        },
{
    let b = bytes_non_null(value)?;
    if value.value_type.get_value_type() != CassValueType::CASS_VALUE_TYPE_SMALL_INT {
        return Err(CassError::CASS_ERROR_LIB_INVALID_VALUE_TYPE);
    }
    match deserialize_smallint(b) {
        Some(v) => Ok(v),
        None => Err(CassError::CASS_ERROR_LIB_INVALID_DATA),
    }
}

/// An int value: four bytes, big-endian.
/// `NULL_VALUE` for null, `INVALID_VALUE_TYPE` for a column of another
/// type, `INVALID_DATA` for malformed bytes.
pub fn cass_value_get_int32(value: &CassValue) -> (r: Result<i32, CassError>)
    ensures
        match value.value.bytes() {
            None => r == Err::<i32, CassError>(CassError::CASS_ERROR_LIB_NULL_VALUE),
            Some(b) => if tag(*value) != CassValueType::CASS_VALUE_TYPE_INT {
                r == Err::<i32, CassError>(CassError::CASS_ERROR_LIB_INVALID_VALUE_TYPE)
            } else if !(b.len() == 4) {
                r == Err::<i32, CassError>(CassError::CASS_ERROR_LIB_INVALID_DATA)
            } else {
                r == Ok::<i32, CassError>(be_signed(b) as i32)
            },
        },
{
    let b = bytes_non_null(value)?;
    if value.value_type.get_value_type() != CassValueType::CASS_VALUE_TYPE_INT {
        return Err(CassError::CASS_ERROR_LIB_INVALID_VALUE_TYPE);
    }
    match deserialize_int(b) {
        Some(v) => Ok(v),
        None => Err(CassError::CASS_ERROR_LIB_INVALID_DATA),
    }
}

/// A date value: days as four unsigned big-endian bytes.
/// `NULL_VALUE` for null, `INVALID_VALUE_TYPE` for a column of another
/// type, `INVALID_DATA` for malformed bytes.
pub fn cass_value_get_uint32(value: &CassValue) -> (r: Result<u32, CassError>)
    ensures
        match value.value.bytes() {
            None => r == Err::<u32, CassError>(CassError::CASS_ERROR_LIB_NULL_VALUE),
            Some(b) => if tag(*value) != CassValueType::CASS_VALUE_TYPE_DATE {
                r == Err::<u32, CassError>(CassError::CASS_ERROR_LIB_INVALID_VALUE_TYPE)
            } else if !(b.len() == 4) {
                r == Err::<u32, CassError>(CassError::CASS_ERROR_LIB_INVALID_DATA)
            } else {
                r == Ok::<u32, CassError>(be_unsigned(b) as u32)
            },
        },
{
    let b = bytes_non_null(value)?;
    if value.value_type.get_value_type() != CassValueType::CASS_VALUE_TYPE_DATE {
        return Err(CassError::CASS_ERROR_LIB_INVALID_VALUE_TYPE);
    }
    match deserialize_date(b) {
        Some(v) => Ok(v),
        None => Err(CassError::CASS_ERROR_LIB_INVALID_DATA),
    }
}
/// A 64-bit integer from a bigint, counter, time or timestamp column, each
/// read as eight big-endian bytes; a time must lie within one day.
/// `INVALID_VALUE_TYPE` for any other column, `NULL_VALUE` for null,
/// `INVALID_DATA` for malformed bytes.
pub fn cass_value_get_int64(value: &CassValue) -> (r: Result<i64, CassError>)
    ensures
        ({
            let t = tag(*value);
            if t != CassValueType::CASS_VALUE_TYPE_BIGINT && t != CassValueType::CASS_VALUE_TYPE_COUNTER
                && t != CassValueType::CASS_VALUE_TYPE_TIME && t
                != CassValueType::CASS_VALUE_TYPE_TIMESTAMP {
                r == Err::<i64, CassError>(CassError::CASS_ERROR_LIB_INVALID_VALUE_TYPE)
            } else {
                match value.value.bytes() {
                    None => r == Err::<i64, CassError>(CassError::CASS_ERROR_LIB_NULL_VALUE),
                    Some(b) => if b.len() == 8 && (t == CassValueType::CASS_VALUE_TYPE_TIME ==> 0
                        <= be_signed(b) <= MAX_TIME_NANOS) {
                        r == Ok::<i64, CassError>(be_signed(b) as i64)
                    } else {
                        r == Err::<i64, CassError>(CassError::CASS_ERROR_LIB_INVALID_DATA)
                    },
                }
            }
        }),
{
    let t = value.value_type.get_value_type();
    let decoded = match t {
        CassValueType::CASS_VALUE_TYPE_BIGINT => deserialize_bigint(bytes_non_null(value)?),
        CassValueType::CASS_VALUE_TYPE_COUNTER => deserialize_counter(bytes_non_null(value)?),
        CassValueType::CASS_VALUE_TYPE_TIME => deserialize_time(bytes_non_null(value)?),
        CassValueType::CASS_VALUE_TYPE_TIMESTAMP => deserialize_timestamp(bytes_non_null(value)?),
        _ => {
            return Err(CassError::CASS_ERROR_LIB_INVALID_VALUE_TYPE);
        },
    };
    match decoded {
        Some(v) => Ok(v),
        None => Err(CassError::CASS_ERROR_LIB_INVALID_DATA),
    }
}

/// The sixteen bytes of a uuid or timeuuid value, in order.
/// `INVALID_VALUE_TYPE` for any other column, `NULL_VALUE` for null,
/// `INVALID_DATA` for another length.
pub fn cass_value_get_uuid(value: &CassValue) -> (r: Result<Vec<u8>, CassError>)
    ensures
        ({
            let t = tag(*value);
            if t != CassValueType::CASS_VALUE_TYPE_UUID && t != CassValueType::CASS_VALUE_TYPE_TIMEUUID {
                r == Err::<Vec<u8>, CassError>(CassError::CASS_ERROR_LIB_INVALID_VALUE_TYPE)
            } else {
                match value.value.bytes() {
                    None => r == Err::<Vec<u8>, CassError>(CassError::CASS_ERROR_LIB_NULL_VALUE),
                    Some(b) => if b.len() == 16 {
                        r is Ok && r->Ok_0@ == b
                    } else {
                        r == Err::<Vec<u8>, CassError>(CassError::CASS_ERROR_LIB_INVALID_DATA)
                    },
                }
            }
        }),
{
    let t = value.value_type.get_value_type();
    if t != CassValueType::CASS_VALUE_TYPE_UUID && t != CassValueType::CASS_VALUE_TYPE_TIMEUUID {
        return Err(CassError::CASS_ERROR_LIB_INVALID_VALUE_TYPE);
    }
    match deserialize_uuid(bytes_non_null(value)?) {
        Some(u) => Ok(u),
        None => Err(CassError::CASS_ERROR_LIB_INVALID_DATA),
    }
}

/// The address bytes of an inet value: four for IPv4, sixteen for IPv6.
/// `NULL_VALUE` for null, `INVALID_VALUE_TYPE` for any other column,
/// `INVALID_DATA` for another length.
pub fn cass_value_get_inet(value: &CassValue) -> (r: Result<&[u8], CassError>)
    ensures
        match value.value.bytes() {
            None => r == Err::<&[u8], CassError>(CassError::CASS_ERROR_LIB_NULL_VALUE),
            Some(b) => if tag(*value) != CassValueType::CASS_VALUE_TYPE_INET {
                r == Err::<&[u8], CassError>(CassError::CASS_ERROR_LIB_INVALID_VALUE_TYPE)
            } else if b.len() == 4 || b.len() == 16 {
                r is Ok && r->Ok_0@ == b
            } else {
                r == Err::<&[u8], CassError>(CassError::CASS_ERROR_LIB_INVALID_DATA)
            },
        },
{
    let b = bytes_non_null(value)?;
    if value.value_type.get_value_type() != CassValueType::CASS_VALUE_TYPE_INET {
        return Err(CassError::CASS_ERROR_LIB_INVALID_VALUE_TYPE);
    }
    if b.len() == 4 || b.len() == 16 {
        Ok(b)
    } else {
        Err(CassError::CASS_ERROR_LIB_INVALID_DATA)
    }
}

/// A decimal value: its unscaled value as signed big-endian bytes, and its
/// scale. `NULL_VALUE` for null, `INVALID_VALUE_TYPE` for any other
/// column, `INVALID_DATA` for fewer than four bytes.
pub fn cass_value_get_decimal(value: &CassValue) -> (r: Result<(Vec<u8>, i32), CassError>)
    ensures
        match value.value.bytes() {
            None => r == Err::<(Vec<u8>, i32), CassError>(CassError::CASS_ERROR_LIB_NULL_VALUE),
            Some(b) => if tag(*value) != CassValueType::CASS_VALUE_TYPE_DECIMAL {
                r == Err::<(Vec<u8>, i32), CassError>(CassError::CASS_ERROR_LIB_INVALID_VALUE_TYPE)
            } else if b.len() >= 4 {
                r is Ok && r->Ok_0.0@ == b.skip(4) && r->Ok_0.1 as int == be_signed(b.take(4))
            } else {
                r == Err::<(Vec<u8>, i32), CassError>(CassError::CASS_ERROR_LIB_INVALID_DATA)
            },
        },
{
    let b = bytes_non_null(value)?;
    if value.value_type.get_value_type() != CassValueType::CASS_VALUE_TYPE_DECIMAL {
        return Err(CassError::CASS_ERROR_LIB_INVALID_VALUE_TYPE);
    }
    match deserialize_decimal(b) {
        Some(d) => Ok(d),
        None => Err(CassError::CASS_ERROR_LIB_INVALID_DATA),
    }
}

/// The bytes of an ascii, text or varchar value, which must be UTF-8 (and
/// ASCII for an ascii column). `INVALID_VALUE_TYPE` for any other column,
/// `NULL_VALUE` for null, `INVALID_DATA` for other bytes.
pub fn cass_value_get_string(value: &CassValue) -> (r: Result<&[u8], CassError>)
    ensures
        ({
            let t = tag(*value);
            if t != CassValueType::CASS_VALUE_TYPE_ASCII && t != CassValueType::CASS_VALUE_TYPE_TEXT && t
                != CassValueType::CASS_VALUE_TYPE_VARCHAR {
                r == Err::<&[u8], CassError>(CassError::CASS_ERROR_LIB_INVALID_VALUE_TYPE)
            } else {
                match value.value.bytes() {
                    None => r == Err::<&[u8], CassError>(CassError::CASS_ERROR_LIB_NULL_VALUE),
                    Some(b) => if valid_utf8(b) && (t == CassValueType::CASS_VALUE_TYPE_ASCII
                        ==> forall|i: int| 0 <= i < b.len() ==> b[i] < 128) {
                        r is Ok && r->Ok_0@ == b
                    } else {
                        r == Err::<&[u8], CassError>(CassError::CASS_ERROR_LIB_INVALID_DATA)
                    },
                }
            }
        }),
{
    let t = value.value_type.get_value_type();
    if t != CassValueType::CASS_VALUE_TYPE_ASCII && t != CassValueType::CASS_VALUE_TYPE_TEXT && t
        != CassValueType::CASS_VALUE_TYPE_VARCHAR {
        return Err(CassError::CASS_ERROR_LIB_INVALID_VALUE_TYPE);
    }
    let b = bytes_non_null(value)?;
    if text_is_valid(b, t == CassValueType::CASS_VALUE_TYPE_ASCII) {
        Ok(b)
    } else {
        Err(CassError::CASS_ERROR_LIB_INVALID_DATA)
    }
}

/// A duration value as (months, days, nanoseconds). `NULL_VALUE` for null,
/// `INVALID_VALUE_TYPE` for any other column, `INVALID_DATA` for bytes that
/// do not decode.
pub fn cass_value_get_duration(value: &CassValue) -> (r: Result<(i32, i32, i64), CassError>)
    ensures
        match value.value.bytes() {
            None => r == Err::<(i32, i32, i64), CassError>(CassError::CASS_ERROR_LIB_NULL_VALUE),
            Some(b) => if tag(*value) != CassValueType::CASS_VALUE_TYPE_DURATION {
                r == Err::<(i32, i32, i64), CassError>(CassError::CASS_ERROR_LIB_INVALID_VALUE_TYPE)
            } else {
                match duration_of(b) {
                    Some(d) => r == Ok::<(i32, i32, i64), CassError>(d),
                    None => r == Err::<(i32, i32, i64), CassError>(
                        CassError::CASS_ERROR_LIB_INVALID_DATA,
                    ),
                }
            },
        },
{
    let b = bytes_non_null(value)?;
    if value.value_type.get_value_type() != CassValueType::CASS_VALUE_TYPE_DURATION {
        return Err(CassError::CASS_ERROR_LIB_INVALID_VALUE_TYPE);
    }
    match deserialize_duration(b) {
        Some(d) => Ok(d),
        None => Err(CassError::CASS_ERROR_LIB_INVALID_DATA),
    }
}

/// The raw bytes of any non-null value; `NULL_VALUE` for null.
pub fn cass_value_get_bytes(value: &CassValue) -> (r: Result<&[u8], CassError>)
    ensures
        match value.value.bytes() {
            None => r == Err::<&[u8], CassError>(CassError::CASS_ERROR_LIB_NULL_VALUE),
            Some(b) => r is Ok && r->Ok_0@ == b,
        },
{
    bytes_non_null(value)
}
/// Why a value could not be read as a non-null value of some type.
#[derive(Clone, Copy, Debug, PartialEq, Eq, Structural)]
pub enum NonNullDeserializationError {
    IsNull,
    Typecheck,
    Deserialization,
}

impl NonNullDeserializationError {
    /// The status code a caller sees for this failure.
    pub fn to_cass_error(&self) -> (r: CassError)
        ensures
            r == match *self {
                NonNullDeserializationError::IsNull => CassError::CASS_ERROR_LIB_NULL_VALUE,
                NonNullDeserializationError::Typecheck => CassError::CASS_ERROR_LIB_INVALID_VALUE_TYPE,
                NonNullDeserializationError::Deserialization => CassError::CASS_ERROR_LIB_INVALID_DATA,
            },
    {
        match self {
            NonNullDeserializationError::IsNull => CassError::CASS_ERROR_LIB_NULL_VALUE,
            NonNullDeserializationError::Typecheck => CassError::CASS_ERROR_LIB_INVALID_VALUE_TYPE,
            NonNullDeserializationError::Deserialization => CassError::CASS_ERROR_LIB_INVALID_DATA,
        }
    }
}

impl CassValue {
    /// The bytes of a non-null value.
    pub fn get_bytes_non_null(&self) -> (r: Result<&[u8], NonNullDeserializationError>)
        ensures
            match self.value.bytes() {
                None => r == Err::<&[u8], NonNullDeserializationError>(
                    NonNullDeserializationError::IsNull,
                ),
                Some(b) => r is Ok && r->Ok_0@ == b,
            },
    {
        match &self.value.slice {
            Some(b) => Ok(b.as_slice()),
            None => Err(NonNullDeserializationError::IsNull),
        }
    }
}

} // verus!
