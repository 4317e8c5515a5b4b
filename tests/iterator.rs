use std::sync::Arc;

use scylla_rust_wrapper::iterator::{
    cass_iterator_columns_from_table_meta, cass_iterator_fields_from_user_type,
    cass_iterator_from_collection, cass_iterator_from_map, cass_iterator_from_result,
    cass_iterator_from_row, cass_iterator_from_tuple, cass_iterator_get_column,
    cass_iterator_get_column_meta, cass_iterator_get_keyspace_meta, cass_iterator_get_map_key,
    cass_iterator_get_map_value, cass_iterator_get_materialized_view_meta, cass_iterator_get_row,
    cass_iterator_get_table_meta, cass_iterator_get_user_type,
    cass_iterator_get_user_type_field_name, cass_iterator_get_user_type_field_value,
    cass_iterator_get_value, cass_iterator_keyspaces_from_schema_meta,
    cass_iterator_materialized_views_from_keyspace_meta, cass_iterator_next,
    cass_iterator_tables_from_keyspace_meta, cass_iterator_type,
    cass_iterator_user_types_from_keyspace_meta, CassMapCollectionIterator, CassMapIterator,
    CassListlikeIterator, CassSchemaMetaIterator,
};
use scylla_rust_wrapper::metadata::{
    create_table_metadata, CassKeyspaceMeta, CassMaterializedViewMeta, CassSchemaMeta, Column,
    ColumnKind, Table,
};
use scylla_rust_wrapper::query_result::{
    cass_result_first_row, CassRawRows, CassResult, CassValue, PagingStateResponse,
    QueryResultPayload,
};
use scylla_rust_wrapper::raw_value::deserialize;
use scylla_rust_wrapper::types::{CassDataType, CassError, CassIteratorType, CassValueType};
use scylla_rust_wrapper::value::NonNullDeserializationError;

fn int_type() -> Arc<CassDataType> {
    Arc::new(CassDataType::Value(CassValueType::CASS_VALUE_TYPE_INT))
}

fn text() -> Arc<CassDataType> {
    Arc::new(CassDataType::Value(CassValueType::CASS_VALUE_TYPE_TEXT))
}

fn cell(b: &[u8]) -> Vec<u8> {
    let mut out = (b.len() as i32).to_be_bytes().to_vec();
    out.extend_from_slice(b);
    out
}

fn value_of(typ: CassDataType, bytes: Option<Vec<u8>>) -> CassValue {
    CassValue { value: deserialize(&typ, bytes).unwrap(), value_type: Arc::new(typ) }
}

fn map_value() -> CassValue {
    let mut body = 3i32.to_be_bytes().to_vec();
    for (k, v) in [(b"a", 1i32), (b"b", 2), (b"c", 3)] {
        body.extend(cell(k));
        body.extend(cell(&v.to_be_bytes()));
    }
    value_of(CassDataType::MapType { key: text(), val: int_type(), frozen: false }, Some(body))
}

fn list_value(items: &[i32]) -> CassValue {
    let mut body = (items.len() as i32).to_be_bytes().to_vec();
    for i in items {
        body.extend(cell(&i.to_be_bytes()));
    }
    value_of(CassDataType::ListType { typ: int_type(), frozen: false }, Some(body))
}

fn rows_result() -> CassResult {
    CassResult::from_result_payload(
        QueryResultPayload::Rows {
            col_specs: vec![(b"a".to_vec(), (*int_type()).clone_type())],
            raw_rows: CassRawRows {
                rows: vec![
                    vec![Some(vec![0, 0, 0, 1])],
                    vec![Some(vec![0, 0, 0, 2])],
                ],
            },
        },
        PagingStateResponse::NoMorePages,
        None,
    )
    .unwrap()
}

trait CloneType {
    fn clone_type(&self) -> CassDataType;
}

impl CloneType for CassDataType {
    fn clone_type(&self) -> CassDataType {
        match self {
            CassDataType::Value(v) => CassDataType::Value(*v),
            _ => panic!("only plain types are cloned here"),
        }
    }
}

fn as_int(v: &CassValue) -> i32 {
    scylla_rust_wrapper::value::cass_value_get_int32(v).unwrap()
}

#[test]
fn fresh_iterators_have_no_current_element() {
    let result = rows_result();
    let it = cass_iterator_from_result(&result);
    assert!(cass_iterator_get_row(&it).is_none());
    let row = cass_result_first_row(&result).unwrap();
    let it = cass_iterator_from_row(row);
    assert!(cass_iterator_get_column(&it).is_none());
    let list = list_value(&[4, 5]);
    let it = cass_iterator_from_collection(&list).unwrap();
    assert!(cass_iterator_get_value(&it).is_none());
    let map = map_value();
    let it = cass_iterator_from_map(&map).unwrap();
    assert!(cass_iterator_get_map_key(&it).is_none());
    assert!(cass_iterator_get_map_value(&it).is_none());
}

#[test]
fn result_iterator_walks_every_row_then_stops_for_good() {
    let result = rows_result();
    let mut it = cass_iterator_from_result(&result);
    assert_eq!(CassIteratorType::CASS_ITERATOR_TYPE_RESULT, cass_iterator_type(&it));
    let mut seen = Vec::new();
    while cass_iterator_next(&mut it) {
        let row = cass_iterator_get_row(&it).unwrap();
        seen.push(as_int(&row.columns[0]));
    }
    assert_eq!(vec![1, 2], seen);
    assert!(cass_iterator_get_row(&it).is_none());
    assert!(!cass_iterator_next(&mut it));
    assert!(!cass_iterator_next(&mut it));
}

#[test]
fn bad_row_ends_the_walk() {
    let result = CassResult::from_result_payload(
        QueryResultPayload::Rows {
            col_specs: vec![(
                b"l".to_vec(),
                CassDataType::ListType { typ: int_type(), frozen: false },
            )],
            raw_rows: CassRawRows {
                rows: vec![
                    vec![Some(0i32.to_be_bytes().to_vec())],
                    vec![Some(vec![1])],
                    vec![Some(0i32.to_be_bytes().to_vec())],
                ],
            },
        },
        PagingStateResponse::NoMorePages,
        None,
    )
    .unwrap();
    let mut it = cass_iterator_from_result(&result);
    assert!(cass_iterator_next(&mut it));
    assert!(!cass_iterator_next(&mut it));
    assert!(!cass_iterator_next(&mut it));
}

#[test]
fn row_iterator_walks_columns() {
    let result = rows_result();
    let row = cass_result_first_row(&result).unwrap();
    let mut it = cass_iterator_from_row(row);
    assert!(cass_iterator_next(&mut it));
    assert_eq!(1, as_int(cass_iterator_get_column(&it).unwrap()));
    assert!(!cass_iterator_next(&mut it));
    assert!(cass_iterator_get_column(&it).is_none());
    assert!(!cass_iterator_next(&mut it));
}

#[test]
fn flattened_map_alternates_keys_and_values() {
    let map = map_value();
    let mut it = cass_iterator_from_collection(&map).unwrap();
    assert_eq!(CassIteratorType::CASS_ITERATOR_TYPE_COLLECTION, cass_iterator_type(&it));
    let mut positions = Vec::new();
    while cass_iterator_next(&mut it) {
        let v = cass_iterator_get_value(&it).unwrap();
        positions.push(v.value.slice.clone().unwrap());
    }
    assert_eq!(6, positions.len());
    let keys = [b"a", b"b", b"c"];
    for k in 0..3 {
        assert_eq!(keys[k].to_vec(), positions[2 * k]);
        assert_eq!(((k + 1) as i32).to_be_bytes().to_vec(), positions[2 * k + 1]);
    }
    assert!(!cass_iterator_next(&mut it));
}

#[test]
fn paired_map_iterator_yields_entries() {
    let map = map_value();
    let mut it = cass_iterator_from_map(&map).unwrap();
    assert_eq!(CassIteratorType::CASS_ITERATOR_TYPE_MAP, cass_iterator_type(&it));
    let mut n = 0;
    while cass_iterator_next(&mut it) {
        n += 1;
        assert_eq!(n, as_int(cass_iterator_get_map_value(&it).unwrap()));
        assert!(cass_iterator_get_map_key(&it).is_some());
    }
    assert_eq!(3, n);
    assert!(cass_iterator_get_value(&it).is_none());
}

#[test]
fn key_value_state_machine_steps_entries_every_other_step() {
    let map = map_value();
    let mut it = CassMapCollectionIterator::new_from_value(&map).unwrap();
    assert!(it.current_value().is_none());
    let mut seen = Vec::new();
    while it.next() {
        seen.push(it.current_value().unwrap().value.slice.clone().unwrap());
    }
    assert_eq!(6, seen.len());
    assert_eq!(b"b".to_vec(), seen[2]);
    assert_eq!(2i32.to_be_bytes().to_vec(), seen[3]);
    assert!(!it.next());
    let mut entries = CassMapIterator::new_from_value(&map).unwrap();
    assert!(entries.current_entry().is_none());
    assert!(entries.next());
    assert_eq!(1, as_int(&entries.current_entry().unwrap().1));
}

#[test]
fn list_iteration_stops_at_a_malformed_element() {
    let mut body = 3i32.to_be_bytes().to_vec();
    body.extend(cell(&7i32.to_be_bytes()));
    body.extend(cell(&8i32.to_be_bytes()));
    body.extend(vec![0, 0]);
    let list = value_of(CassDataType::ListType { typ: int_type(), frozen: false }, Some(body));
    let mut it = CassListlikeIterator::new_from_value(&list).unwrap();
    assert!(it.next());
    assert_eq!(7, as_int(it.current_value().unwrap()));
    assert!(it.next());
    assert_eq!(8, as_int(it.current_value().unwrap()));
    assert!(!it.next());
    assert!(it.current_value().is_none());
    let null_list = value_of(CassDataType::ListType { typ: int_type(), frozen: false }, None);
    assert_eq!(
        NonNullDeserializationError::IsNull,
        CassListlikeIterator::new_from_value(&null_list).err().unwrap()
    );
    let not_list = value_of((*int_type()).clone_type(), Some(vec![0, 0, 0, 1]));
    assert_eq!(
        NonNullDeserializationError::Typecheck,
        CassListlikeIterator::new_from_value(&not_list).err().unwrap()
    );
}

#[test]
fn wrong_kind_of_iterator_gives_nothing() {
    let list = list_value(&[1]);
    assert!(cass_iterator_from_map(&list).is_none());
    assert!(cass_iterator_from_tuple(&list).is_none());
    assert!(cass_iterator_fields_from_user_type(&list).is_none());
    let scalar = value_of((*int_type()).clone_type(), Some(vec![0, 0, 0, 1]));
    assert!(cass_iterator_from_collection(&scalar).is_none());
    let mut it = cass_iterator_from_collection(&list).unwrap();
    assert!(cass_iterator_next(&mut it));
    assert!(cass_iterator_get_map_key(&it).is_none());
    assert!(cass_iterator_get_row(&it).is_none());
    assert!(cass_iterator_get_keyspace_meta(&it).is_none());
    assert_eq!(
        Err(CassError::CASS_ERROR_LIB_BAD_PARAMS),
        cass_iterator_get_user_type_field_name(&it)
    );
}

#[test]
fn tuple_and_user_type_iteration() {
    let tuple_type = CassDataType::TupleType(vec![int_type(), text()]);
    let mut body = cell(&9i32.to_be_bytes());
    body.extend((-1i32).to_be_bytes());
    let tuple = value_of(tuple_type, Some(body));
    let mut it = cass_iterator_from_tuple(&tuple).unwrap();
    assert!(cass_iterator_next(&mut it));
    assert_eq!(9, as_int(cass_iterator_get_value(&it).unwrap()));
    assert!(cass_iterator_next(&mut it));
    assert!(cass_iterator_get_value(&it).unwrap().value.slice.is_none());
    assert!(!cass_iterator_next(&mut it));

    let udt_type = CassDataType::UserType {
        keyspace: b"ks".to_vec(),
        name: b"point".to_vec(),
        fields: vec![(b"x".to_vec(), int_type()), (b"y".to_vec(), int_type())],
        frozen: true,
    };
    let mut body = cell(&3i32.to_be_bytes());
    body.extend(cell(&4i32.to_be_bytes()));
    let udt = value_of(udt_type, Some(body));
    let mut it = cass_iterator_fields_from_user_type(&udt).unwrap();
    assert_eq!(CassIteratorType::CASS_ITERATOR_TYPE_USER_TYPE_FIELD, cass_iterator_type(&it));
    assert_eq!(
        Err(CassError::CASS_ERROR_LIB_BAD_PARAMS),
        cass_iterator_get_user_type_field_name(&it)
    );
    assert!(cass_iterator_next(&mut it));
    assert_eq!(Ok(&b"x"[..]), cass_iterator_get_user_type_field_name(&it));
    assert_eq!(3, as_int(cass_iterator_get_user_type_field_value(&it).unwrap()));
    assert!(cass_iterator_next(&mut it));
    assert_eq!(Ok(&b"y"[..]), cass_iterator_get_user_type_field_name(&it));
    assert!(!cass_iterator_next(&mut it));
    assert!(cass_iterator_get_user_type_field_value(&it).is_none());
}

#[test]
fn schema_iterators() {
    let table = create_table_metadata(
        b"t".to_vec(),
        Table {
            columns: vec![
                Column { name: b"k".to_vec(), typ: (*int_type()).clone_type(), kind: ColumnKind::PartitionKey },
                Column { name: b"v".to_vec(), typ: (*int_type()).clone_type(), kind: ColumnKind::Regular },
            ],
            partition_key: vec![b"k".to_vec()],
            clustering_key: vec![],
        },
    );
    let view_table = create_table_metadata(
        b"mv".to_vec(),
        Table { columns: vec![], partition_key: vec![], clustering_key: vec![] },
    );
    let keyspace = CassKeyspaceMeta {
        name: b"ks".to_vec(),
        user_defined_type_data_type: vec![(b"u".to_vec(), text())],
        tables: vec![Arc::new(table)],
        views: vec![Arc::new(CassMaterializedViewMeta {
            name: b"mv".to_vec(),
            view_metadata: view_table,
            base_table: b"t".to_vec(),
        })],
    };
    let schema = CassSchemaMeta { keyspaces: vec![keyspace] };

    let mut it = cass_iterator_keyspaces_from_schema_meta(&schema);
    assert!(cass_iterator_get_keyspace_meta(&it).is_none());
    assert!(cass_iterator_next(&mut it));
    let ks = cass_iterator_get_keyspace_meta(&it).unwrap();
    assert_eq!(b"ks".to_vec(), ks.name);
    assert!(!cass_iterator_next(&mut it));
    assert!(cass_iterator_get_keyspace_meta(&it).is_none());

    let mut tables = cass_iterator_tables_from_keyspace_meta(ks);
    assert!(cass_iterator_next(&mut tables));
    let t = cass_iterator_get_table_meta(&tables).unwrap();
    assert_eq!(b"t".to_vec(), t.name);
    assert!(!cass_iterator_next(&mut tables));

    let mut cols = cass_iterator_columns_from_table_meta(t);
    let mut n = 0;
    while cass_iterator_next(&mut cols) {
        assert!(cass_iterator_get_column_meta(&cols).is_some());
        n += 1;
    }
    assert_eq!(2, n);

    let mut types = cass_iterator_user_types_from_keyspace_meta(ks);
    assert!(cass_iterator_next(&mut types));
    assert_eq!(&*text(), cass_iterator_get_user_type(&types).unwrap());
    assert!(!cass_iterator_next(&mut types));

    let mut views = cass_iterator_materialized_views_from_keyspace_meta(ks);
    assert_eq!(CassIteratorType::CASS_ITERATOR_TYPE_MATERIALIZED_VIEW_META, cass_iterator_type(&views));
    assert!(cass_iterator_next(&mut views));
    assert_eq!(b"mv".to_vec(), cass_iterator_get_materialized_view_meta(&views).unwrap().name);
    assert!(!cass_iterator_next(&mut views));

    let mut raw = CassSchemaMetaIterator { value: &schema, count: 1, position: None };
    assert!(raw.next());
    assert!(!raw.next());
    assert!(!raw.next());
}
