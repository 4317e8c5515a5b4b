use std::sync::Arc;
use vstd::prelude::*;

verus! {

/// The value-type tag of a column or of a collection element.
#[allow(non_camel_case_types)]
#[derive(Clone, Copy, Debug, PartialEq, Eq, Structural)]
pub enum CassValueType {
    CASS_VALUE_TYPE_UNKNOWN,
    CASS_VALUE_TYPE_CUSTOM,
    CASS_VALUE_TYPE_ASCII,
    CASS_VALUE_TYPE_BIGINT,
    CASS_VALUE_TYPE_BLOB,
    CASS_VALUE_TYPE_BOOLEAN,
    CASS_VALUE_TYPE_COUNTER,
    CASS_VALUE_TYPE_DECIMAL,
    CASS_VALUE_TYPE_DOUBLE,
    CASS_VALUE_TYPE_FLOAT,
    CASS_VALUE_TYPE_INT,
    CASS_VALUE_TYPE_TEXT,
    CASS_VALUE_TYPE_TIMESTAMP,
    CASS_VALUE_TYPE_UUID,
    CASS_VALUE_TYPE_VARCHAR,
    CASS_VALUE_TYPE_VARINT,
    CASS_VALUE_TYPE_TIMEUUID,
    CASS_VALUE_TYPE_INET,
    CASS_VALUE_TYPE_DATE,
    CASS_VALUE_TYPE_TIME,
    CASS_VALUE_TYPE_SMALL_INT,
    CASS_VALUE_TYPE_TINY_INT,
    CASS_VALUE_TYPE_DURATION,
    CASS_VALUE_TYPE_LIST,
    CASS_VALUE_TYPE_MAP,
    CASS_VALUE_TYPE_SET,
    CASS_VALUE_TYPE_UDT,
    CASS_VALUE_TYPE_TUPLE,
}

/// Status codes returned by fallible calls.
#[allow(non_camel_case_types)]
#[derive(Clone, Copy, Debug, PartialEq, Eq, Structural)]
pub enum CassError {
    CASS_OK,
    CASS_ERROR_LIB_BAD_PARAMS,
    CASS_ERROR_LIB_NULL_VALUE,
    CASS_ERROR_LIB_INVALID_VALUE_TYPE,
    CASS_ERROR_LIB_INVALID_DATA,
    CASS_ERROR_LIB_INDEX_OUT_OF_BOUNDS,
    CASS_ERROR_LIB_NO_PAGING_STATE,
}

/// The role of a column within its table.
#[allow(non_camel_case_types)]
#[derive(Clone, Copy, Debug, PartialEq, Eq, Structural)]
pub enum CassColumnType {
    CASS_COLUMN_TYPE_REGULAR,
    CASS_COLUMN_TYPE_PARTITION_KEY,
    CASS_COLUMN_TYPE_CLUSTERING_KEY,
    CASS_COLUMN_TYPE_STATIC,
    CASS_COLUMN_TYPE_COMPACT_VALUE,
}

/// The shape of the collection an iterator walks.
#[allow(non_camel_case_types)]
#[derive(Clone, Copy, Debug, PartialEq, Eq, Structural)]
pub enum CassIteratorType {
    CASS_ITERATOR_TYPE_RESULT,
    CASS_ITERATOR_TYPE_ROW,
    CASS_ITERATOR_TYPE_COLLECTION,
    CASS_ITERATOR_TYPE_MAP,
    CASS_ITERATOR_TYPE_TUPLE,
    CASS_ITERATOR_TYPE_USER_TYPE_FIELD,
    CASS_ITERATOR_TYPE_META_FIELD,
    CASS_ITERATOR_TYPE_KEYSPACE_META,
    CASS_ITERATOR_TYPE_TABLE_META,
    CASS_ITERATOR_TYPE_TYPE_META,
    CASS_ITERATOR_TYPE_FUNCTION_META,
    CASS_ITERATOR_TYPE_AGGREGATE_META,
    CASS_ITERATOR_TYPE_COLUMN_META,
    CASS_ITERATOR_TYPE_INDEX_META,
    CASS_ITERATOR_TYPE_MATERIALIZED_VIEW_META,
}

/// A fully resolved data type. Collection element types are part of the
/// descriptor, since the encoded bytes do not describe them.
#[derive(Debug, PartialEq)]
pub enum CassDataType {
    Value(CassValueType),
    ListType { typ: Arc<CassDataType>, frozen: bool },
    SetType { typ: Arc<CassDataType>, frozen: bool },
    MapType { key: Arc<CassDataType>, val: Arc<CassDataType>, frozen: bool },
    TupleType(Vec<Arc<CassDataType>>),
    UserType { keyspace: Vec<u8>, name: Vec<u8>, fields: Vec<(Vec<u8>, Arc<CassDataType>)>, frozen: bool },
}

impl CassDataType {
    /// The value-type tag of this descriptor.
    pub open spec fn spec_value_type(&self) -> CassValueType {
        match self {
            CassDataType::Value(v) => *v,
            CassDataType::ListType { .. } => CassValueType::CASS_VALUE_TYPE_LIST,
            CassDataType::SetType { .. } => CassValueType::CASS_VALUE_TYPE_SET,
            CassDataType::MapType { .. } => CassValueType::CASS_VALUE_TYPE_MAP,
            CassDataType::TupleType(_) => CassValueType::CASS_VALUE_TYPE_TUPLE,
            CassDataType::UserType { .. } => CassValueType::CASS_VALUE_TYPE_UDT,
        }
    }

    pub fn get_value_type(&self) -> (r: CassValueType)
        ensures
            r == self.spec_value_type(),
    {
        match self {
            CassDataType::Value(v) => *v,
            CassDataType::ListType { .. } => CassValueType::CASS_VALUE_TYPE_LIST,
            CassDataType::SetType { .. } => CassValueType::CASS_VALUE_TYPE_SET,
            CassDataType::MapType { .. } => CassValueType::CASS_VALUE_TYPE_MAP,
            CassDataType::TupleType(_) => CassValueType::CASS_VALUE_TYPE_TUPLE,
            CassDataType::UserType { .. } => CassValueType::CASS_VALUE_TYPE_UDT,
        }
    }

    /// Whether this is a list, set or map.
    pub open spec fn spec_is_collection(&self) -> bool {
        self is ListType || self is SetType || self is MapType
    }
}

} // verus!
