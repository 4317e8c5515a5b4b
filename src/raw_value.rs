//! Type-directed decoding of one encoded column or element into a raw value.
use vstd::prelude::*;
use crate::types::{CassDataType, CassValueType};

verus! {

/// The first four bytes read as an unsigned big-endian integer.
pub open spec fn be_u32(b: Seq<u8>) -> int {
    b[0] as int * 16777216 + b[1] as int * 65536 + b[2] as int * 256 + b[3] as int
}

/// The first four bytes read as a signed (two's complement) big-endian integer.
pub open spec fn be_i32(b: Seq<u8>) -> int {
    if b[0] >= 128 {
        be_u32(b) - 4294967296
    } else {
        be_u32(b)
    }
}

/// Whether a present but zero-length value keeps its (empty) bytes for a
/// column of this type, rather than being read as null.
pub open spec fn keeps_empty_value(t: CassDataType) -> bool {
    match t {
        CassDataType::Value(v) => v == CassValueType::CASS_VALUE_TYPE_DURATION || v
            == CassValueType::CASS_VALUE_TYPE_COUNTER || v == CassValueType::CASS_VALUE_TYPE_ASCII
            || v == CassValueType::CASS_VALUE_TYPE_TEXT || v == CassValueType::CASS_VALUE_TYPE_VARCHAR
            || v == CassValueType::CASS_VALUE_TYPE_BLOB,
        CassDataType::TupleType(_) => false,
        _ => true,
    }
}

/// The bytes that a decoded value holds: an empty value of an emptiable
/// type becomes null.
pub open spec fn normalized_slice(t: CassDataType, v: Option<Seq<u8>>) -> Option<Seq<u8>> {
    match v {
        Some(b) => if b.len() == 0 && !keeps_empty_value(t) {
            None
        } else {
            Some(b)
        },
        None => None,
    }
}

/// Why the element count of a collection could not be read.
#[derive(Clone, Copy, Debug, PartialEq, Eq, Structural)]
pub enum CollectionLengthDeserializationError {
    /// Fewer than four bytes; holds how many there were.
    TooFewBytes(usize),
    /// The count read was negative; holds it.
    NegativeLength(i32),
}

/// The item count precomputed for a (normalized) value: the encoded element
/// count of a collection, the arity of a tuple, the field count of a user
/// type, and nothing for any other type or for null.
pub open spec fn spec_item_count(t: CassDataType, s: Option<Seq<u8>>) -> Result<
    Option<usize>,
    CollectionLengthDeserializationError,
> {
    match s {
        None => Ok(None),
        Some(b) => match t {
            CassDataType::ListType { .. } | CassDataType::SetType { .. } | CassDataType::MapType {
                ..
            } => if b.len() < 4 {
                Err(CollectionLengthDeserializationError::TooFewBytes(b.len() as usize))
            } else if be_i32(b) < 0 {
                Err(CollectionLengthDeserializationError::NegativeLength(be_i32(b) as i32))
            } else {
                Ok(Some(be_i32(b) as usize))
            },
            CassDataType::TupleType(ts) => Ok(Some(ts.len() as usize)),
            CassDataType::UserType { fields, .. } => Ok(Some(fields.len() as usize)),
            _ => Ok(None),
        },
    }
}

pub open spec fn opt_bytes(v: Option<Vec<u8>>) -> Option<Seq<u8>> {
    match v {
        Some(b) => Some(b@),
        None => None,
    }
}

/// A decoded value: its bytes (`None` for null) and its precomputed item count.
pub struct CassRawValue {
    pub slice: Option<Vec<u8>>,
    pub item_count: Option<usize>,
}

impl CassRawValue {
    pub open spec fn bytes(&self) -> Option<Seq<u8>> {
        opt_bytes(self.slice)
    }

    /// What decoding `v` as a value of type `t` gives.
    pub open spec fn decodes_from(&self, t: CassDataType, v: Option<Seq<u8>>) -> bool {
        &&& spec_item_count(t, normalized_slice(t, v)) is Ok
        &&& self.bytes() == normalized_slice(t, v)
        &&& Ok::<Option<usize>, CollectionLengthDeserializationError>(self.item_count) == spec_item_count(t, normalized_slice(t, v))
    }
}

/// Reads the encoded element count at the start of a collection value.
pub fn read_collection_length(b: &[u8]) -> (r: Result<usize, CollectionLengthDeserializationError>)
    ensures
        b@.len() < 4 ==> r == Err::<usize, _>(
            CollectionLengthDeserializationError::TooFewBytes(b@.len() as usize),
        ),
        b@.len() >= 4 && be_i32(b@) < 0 ==> r == Err::<usize, _>(
            CollectionLengthDeserializationError::NegativeLength(be_i32(b@) as i32),
        ),
        b@.len() >= 4 && be_i32(b@) >= 0 ==> r == Ok::<usize, CollectionLengthDeserializationError>(
            be_i32(b@) as usize,
        ),
{
    if b.len() < 4 {
        return Err(CollectionLengthDeserializationError::TooFewBytes(b.len()));
    }
    let u: u64 = (b[0] as u64) * 16777216 + (b[1] as u64) * 65536 + (b[2] as u64) * 256
        + (b[3] as u64);
    if b[0] >= 128 {
        let n: i64 = u as i64 - 4294967296;
        return Err(CollectionLengthDeserializationError::NegativeLength(n as i32));
    }
    Ok(u as usize)
}

/// Precomputes the item count of a normalized value: see `spec_item_count`.
pub fn determine_value_item_count(typ: &CassDataType, slice: &Option<Vec<u8>>) -> (r: Result<
    Option<usize>,
    CollectionLengthDeserializationError,
>)
    ensures
        r == spec_item_count(*typ, opt_bytes(*slice)),
{
    match slice {
        None => Ok(None),
        Some(b) => match typ {
            CassDataType::ListType { .. } | CassDataType::SetType { .. } | CassDataType::MapType {
                ..
            } => match read_collection_length(b.as_slice()) {
                Ok(n) => Ok(Some(n)),
                Err(e) => Err(e),
            },
            CassDataType::TupleType(ts) => Ok(Some(ts.len())),
            CassDataType::UserType { fields, .. } => Ok(Some(fields.len())),
            _ => Ok(None),
        },
    }
}

/// Decodes the encoded value `v` (`None` for null) of a column of type `typ`.
///
/// An empty value becomes null unless the type keeps empty values; then the
/// item count is precomputed, which fails only on a collection whose count
/// cannot be read.
pub fn deserialize(typ: &CassDataType, v: Option<Vec<u8>>) -> (r: Result<
    CassRawValue,
    CollectionLengthDeserializationError,
>)
    ensures
        match spec_item_count(*typ, normalized_slice(*typ, opt_bytes(v))) {
            Ok(_) => r is Ok && r->Ok_0.decodes_from(*typ, opt_bytes(v)),
            Err(e) => r == Err::<CassRawValue, _>(e),
        },
{
    let keeps_empty = match typ {
        CassDataType::Value(t) => match t {
            CassValueType::CASS_VALUE_TYPE_DURATION | CassValueType::CASS_VALUE_TYPE_COUNTER
            | CassValueType::CASS_VALUE_TYPE_ASCII | CassValueType::CASS_VALUE_TYPE_TEXT
            | CassValueType::CASS_VALUE_TYPE_VARCHAR | CassValueType::CASS_VALUE_TYPE_BLOB => true,
            _ => false,
        },
        CassDataType::TupleType(_) => false,
        _ => true,
    };
    let slice = match v {
        Some(b) => if b.len() == 0 && !keeps_empty {
            None
        } else {
            Some(b)
        },
        None => None,
    };
    let item_count = determine_value_item_count(typ, &slice)?;
    Ok(CassRawValue { slice, item_count })
}

} // verus!
