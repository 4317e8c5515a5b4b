use std::sync::Arc;

use scylla_rust_wrapper::query_result::{
    cass_result_column_count, cass_result_column_data_type, cass_result_column_name,
    cass_result_column_type, cass_result_first_row, cass_result_has_more_pages,
    cass_result_paging_state_token, cass_result_row_count, cass_row_get_column,
    cass_row_get_column_by_name, cass_row_get_column_by_name_n, cass_value_is_collection,
    cass_value_is_duration, cass_value_is_null, cass_value_item_count,
    cass_value_primary_sub_type, cass_value_secondary_sub_type, cass_value_type, CassRawRows,
    CassResult, CassResultMetadata, PagingStateResponse, QueryResultPayload,
    RowDeserializationError,
};
use scylla_rust_wrapper::raw_value::CollectionLengthDeserializationError;
use scylla_rust_wrapper::types::{CassDataType, CassError, CassValueType};

const FIRST_COLUMN_NAME: &str = "bigint_col";
const SECOND_COLUMN_NAME: &str = "varint_col";
const THIRD_COLUMN_NAME: &str = "list_double_col";

fn list_of_double() -> CassDataType {
    CassDataType::ListType {
        typ: Arc::new(CassDataType::Value(CassValueType::CASS_VALUE_TYPE_DOUBLE)),
        frozen: false,
    }
}

fn create_cass_rows_result() -> CassResult {
    let col_specs = vec![
        (
            FIRST_COLUMN_NAME.as_bytes().to_vec(),
            CassDataType::Value(CassValueType::CASS_VALUE_TYPE_BIGINT),
        ),
        (
            SECOND_COLUMN_NAME.as_bytes().to_vec(),
            CassDataType::Value(CassValueType::CASS_VALUE_TYPE_VARINT),
        ),
        (THIRD_COLUMN_NAME.as_bytes().to_vec(), list_of_double()),
    ];
    CassResult::from_result_payload(
        QueryResultPayload::Rows { col_specs, raw_rows: CassRawRows { rows: vec![] } },
        PagingStateResponse::NoMorePages,
        None,
    )
    .unwrap()
}

fn be_cell(b: &[u8]) -> Vec<u8> {
    let mut out = (b.len() as i32).to_be_bytes().to_vec();
    out.extend_from_slice(b);
    out
}

fn result_with_rows(
    col_specs: Vec<(Vec<u8>, CassDataType)>,
    rows: Vec<Vec<Option<Vec<u8>>>>,
) -> Result<CassResult, RowDeserializationError> {
    CassResult::from_result_payload(
        QueryResultPayload::Rows { col_specs, raw_rows: CassRawRows { rows } },
        PagingStateResponse::NoMorePages,
        None,
    )
}

#[test]
fn rows_cass_result_api_test() {
    let result = create_cass_rows_result();

    assert_eq!(3, cass_result_column_count(&result));

    assert_eq!(FIRST_COLUMN_NAME.as_bytes(), cass_result_column_name(&result, 0).unwrap());
    assert_eq!(SECOND_COLUMN_NAME.as_bytes(), cass_result_column_name(&result, 1).unwrap());
    assert_eq!(THIRD_COLUMN_NAME.as_bytes(), cass_result_column_name(&result, 2).unwrap());

    assert_eq!(CassValueType::CASS_VALUE_TYPE_BIGINT, cass_result_column_type(&result, 0));
    assert_eq!(CassValueType::CASS_VALUE_TYPE_VARINT, cass_result_column_type(&result, 1));
    assert_eq!(CassValueType::CASS_VALUE_TYPE_LIST, cass_result_column_type(&result, 2));
    assert_eq!(CassValueType::CASS_VALUE_TYPE_UNKNOWN, cass_result_column_type(&result, 555));

    assert_eq!(
        &CassDataType::Value(CassValueType::CASS_VALUE_TYPE_BIGINT),
        cass_result_column_data_type(&result, 0).unwrap()
    );
    assert_eq!(
        &CassDataType::Value(CassValueType::CASS_VALUE_TYPE_VARINT),
        cass_result_column_data_type(&result, 1).unwrap()
    );
    assert_eq!(&list_of_double(), cass_result_column_data_type(&result, 2).unwrap());
    assert!(cass_result_column_data_type(&result, 555).is_none());
}

#[test]
fn non_rows_cass_result_api_test() {
    let result = CassResult::from_result_payload(
        QueryResultPayload::NonRows,
        PagingStateResponse::NoMorePages,
        None,
    )
    .unwrap();

    assert_eq!(0, cass_result_column_count(&result));
    assert_eq!(CassValueType::CASS_VALUE_TYPE_UNKNOWN, cass_result_column_type(&result, 0));
    assert!(cass_result_column_data_type(&result, 0).is_none());
    assert!(cass_result_first_row(&result).is_none());
    assert_eq!(
        Err(CassError::CASS_ERROR_LIB_INDEX_OUT_OF_BOUNDS),
        cass_result_column_name(&result, 0)
    );
}

#[test]
fn column_metadata_far_past_the_end_is_null() {
    let result = create_cass_rows_result();
    assert!(cass_result_column_data_type(&result, 555).is_none());
    assert_eq!(
        Err(CassError::CASS_ERROR_LIB_INDEX_OUT_OF_BOUNDS),
        cass_result_column_name(&result, 555)
    );
    assert_eq!(
        Err(CassError::CASS_ERROR_LIB_INDEX_OUT_OF_BOUNDS),
        cass_result_column_name(&result, 3)
    );
}

#[test]
fn empty_int_is_null_but_empty_text_is_empty() {
    let result = result_with_rows(
        vec![
            (b"i".to_vec(), CassDataType::Value(CassValueType::CASS_VALUE_TYPE_INT)),
            (b"t".to_vec(), CassDataType::Value(CassValueType::CASS_VALUE_TYPE_TEXT)),
        ],
        vec![vec![Some(vec![]), Some(vec![])]],
    )
    .unwrap();
    let row = cass_result_first_row(&result).unwrap();
    let int_value = cass_row_get_column(row, 0).unwrap();
    let text_value = cass_row_get_column(row, 1).unwrap();
    assert!(cass_value_is_null(int_value));
    assert!(!cass_value_is_null(text_value));
    assert_eq!(
        Ok(&b""[..]),
        scylla_rust_wrapper::value::cass_value_get_string(text_value)
    );
}

#[test]
fn first_row_is_decoded_eagerly() {
    let result = result_with_rows(
        vec![
            (b"Id".to_vec(), CassDataType::Value(CassValueType::CASS_VALUE_TYPE_INT)),
            (b"name".to_vec(), CassDataType::Value(CassValueType::CASS_VALUE_TYPE_TEXT)),
        ],
        vec![
            vec![Some(vec![0, 0, 0, 7]), Some(b"ann".to_vec())],
            vec![Some(vec![0, 0, 0, 8]), None],
        ],
    )
    .unwrap();
    assert_eq!(2, cass_result_row_count(&result));
    let row = cass_result_first_row(&result).unwrap();
    assert_eq!(2, row.columns.len());
    let id = cass_row_get_column(row, 0).unwrap();
    assert_eq!(Some(vec![0, 0, 0, 7]), id.value.slice);
    assert_eq!(CassValueType::CASS_VALUE_TYPE_INT, cass_value_type(id));
    assert!(cass_row_get_column(row, 2).is_none());
}

#[test]
fn malformed_first_row_fails_the_result() {
    let list_of_int = CassDataType::ListType {
        typ: Arc::new(CassDataType::Value(CassValueType::CASS_VALUE_TYPE_INT)),
        frozen: false,
    };
    let err = result_with_rows(
        vec![
            (b"a".to_vec(), CassDataType::Value(CassValueType::CASS_VALUE_TYPE_INT)),
            (b"l".to_vec(), list_of_int),
        ],
        vec![vec![Some(vec![0, 0, 0, 1]), Some(vec![0, 1])]],
    )
    .err()
    .unwrap();
    assert_eq!(
        RowDeserializationError::ColumnDeserializationFailed {
            column_index: 1,
            err: CollectionLengthDeserializationError::TooFewBytes(2),
        },
        err
    );
}

#[test]
fn negative_collection_length_is_reported() {
    let set_of_int = CassDataType::SetType {
        typ: Arc::new(CassDataType::Value(CassValueType::CASS_VALUE_TYPE_INT)),
        frozen: false,
    };
    let err = result_with_rows(
        vec![(b"s".to_vec(), set_of_int)],
        vec![vec![Some(vec![0xff, 0xff, 0xff, 0xfe])]],
    )
    .err()
    .unwrap();
    assert_eq!(
        RowDeserializationError::ColumnDeserializationFailed {
            column_index: 0,
            err: CollectionLengthDeserializationError::NegativeLength(-2),
        },
        err
    );
}

#[test]
fn no_rows_means_no_first_row() {
    let result = result_with_rows(
        vec![(b"a".to_vec(), CassDataType::Value(CassValueType::CASS_VALUE_TYPE_INT))],
        vec![],
    )
    .unwrap();
    assert!(cass_result_first_row(&result).is_none());
    assert_eq!(0, cass_result_row_count(&result));
}

#[test]
fn cached_metadata_is_used() {
    let cached = Arc::new(CassResultMetadata::from_column_specs(vec![(
        b"cached".to_vec(),
        CassDataType::Value(CassValueType::CASS_VALUE_TYPE_BOOLEAN),
    )]));
    let result = CassResult::from_result_payload(
        QueryResultPayload::Rows {
            col_specs: vec![(b"other".to_vec(), CassDataType::Value(CassValueType::CASS_VALUE_TYPE_INT))],
            raw_rows: CassRawRows { rows: vec![] },
        },
        PagingStateResponse::NoMorePages,
        Some(cached),
    )
    .unwrap();
    assert_eq!(b"cached", cass_result_column_name(&result, 0).unwrap());
    assert_eq!(CassValueType::CASS_VALUE_TYPE_BOOLEAN, cass_result_column_type(&result, 0));
}

#[test]
fn column_lookup_by_name_folds_case_unless_quoted() {
    let result = result_with_rows(
        vec![
            (b"Name".to_vec(), CassDataType::Value(CassValueType::CASS_VALUE_TYPE_TEXT)),
            (b"name".to_vec(), CassDataType::Value(CassValueType::CASS_VALUE_TYPE_TEXT)),
        ],
        vec![vec![Some(b"upper".to_vec()), Some(b"lower".to_vec())]],
    )
    .unwrap();
    let row = cass_result_first_row(&result).unwrap();
    let first = cass_row_get_column_by_name(row, b"NAME").unwrap();
    assert_eq!(Some(b"upper".to_vec()), first.value.slice);
    let exact = cass_row_get_column_by_name(row, b"\"name\"").unwrap();
    assert_eq!(Some(b"lower".to_vec()), exact.value.slice);
    assert!(cass_row_get_column_by_name(row, b"\"NAME\"").is_none());
    assert!(cass_row_get_column_by_name(row, b"missing").is_none());
    let prefix = cass_row_get_column_by_name_n(row, b"namexyz", 4).unwrap();
    assert_eq!(Some(b"upper".to_vec()), prefix.value.slice);
}

#[test]
fn paging_state_is_reported_only_with_more_pages() {
    let last = CassResult::from_result_payload(
        QueryResultPayload::NonRows,
        PagingStateResponse::NoMorePages,
        None,
    )
    .unwrap();
    assert!(!cass_result_has_more_pages(&last));
    assert_eq!(
        Err(CassError::CASS_ERROR_LIB_NO_PAGING_STATE),
        cass_result_paging_state_token(&last)
    );
    let more = CassResult::from_result_payload(
        QueryResultPayload::NonRows,
        PagingStateResponse::HasMorePages { state: Some(vec![1, 2, 3]) },
        None,
    )
    .unwrap();
    assert!(cass_result_has_more_pages(&more));
    assert_eq!(Ok(Some(&[1u8, 2, 3][..])), cass_result_paging_state_token(&more));
}

#[test]
fn value_type_queries() {
    let map_type = CassDataType::MapType {
        key: Arc::new(CassDataType::Value(CassValueType::CASS_VALUE_TYPE_TEXT)),
        val: Arc::new(CassDataType::Value(CassValueType::CASS_VALUE_TYPE_INT)),
        frozen: false,
    };
    let mut body = 1i32.to_be_bytes().to_vec();
    body.extend(be_cell(b"k"));
    body.extend(be_cell(&[0, 0, 0, 5]));
    let result = result_with_rows(
        vec![
            (b"m".to_vec(), map_type),
            (b"d".to_vec(), CassDataType::Value(CassValueType::CASS_VALUE_TYPE_DURATION)),
        ],
        vec![vec![Some(body), Some(vec![2, 4, 6])]],
    )
    .unwrap();
    let row = cass_result_first_row(&result).unwrap();
    let m = cass_row_get_column(row, 0).unwrap();
    let d = cass_row_get_column(row, 1).unwrap();
    assert!(cass_value_is_collection(m));
    assert!(!cass_value_is_collection(d));
    assert!(cass_value_is_duration(d));
    assert_eq!(1, cass_value_item_count(m));
    assert_eq!(0, cass_value_item_count(d));
    assert_eq!(CassValueType::CASS_VALUE_TYPE_TEXT, cass_value_primary_sub_type(m));
    assert_eq!(CassValueType::CASS_VALUE_TYPE_INT, cass_value_secondary_sub_type(m));
    assert_eq!(CassValueType::CASS_VALUE_TYPE_UNKNOWN, cass_value_primary_sub_type(d));
}

#[test]
fn tuple_and_user_type_counts_come_from_the_type() {
    let tuple = CassDataType::TupleType(vec![
        Arc::new(CassDataType::Value(CassValueType::CASS_VALUE_TYPE_INT)),
        Arc::new(CassDataType::Value(CassValueType::CASS_VALUE_TYPE_TEXT)),
    ]);
    let result = result_with_rows(vec![(b"t".to_vec(), tuple)], vec![vec![Some(vec![0xff])]])
        .unwrap();
    let row = cass_result_first_row(&result).unwrap();
    assert_eq!(2, cass_value_item_count(cass_row_get_column(row, 0).unwrap()));
}
