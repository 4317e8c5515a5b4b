use std::sync::Arc;

use scylla_rust_wrapper::metadata::{
    cass_column_meta_data_type, cass_column_meta_name, cass_column_meta_type,
    cass_keyspace_meta_materialized_view_by_name, cass_keyspace_meta_name,
    cass_keyspace_meta_table_by_name, cass_keyspace_meta_table_by_name_n,
    cass_keyspace_meta_user_type_by_name, cass_materialized_view_meta_base_table,
    cass_materialized_view_meta_column, cass_materialized_view_meta_column_count,
    cass_materialized_view_meta_name, cass_schema_meta_keyspace_by_name,
    cass_schema_meta_keyspace_by_name_n, cass_table_meta_clustering_key,
    cass_table_meta_clustering_key_count, cass_table_meta_column, cass_table_meta_column_by_name,
    cass_table_meta_column_count, cass_table_meta_materialized_view,
    cass_table_meta_materialized_view_by_name, cass_table_meta_materialized_view_count,
    cass_table_meta_name, cass_table_meta_partition_key, cass_table_meta_partition_key_count,
    create_table_metadata, CassKeyspaceMeta, CassMaterializedViewMeta, CassSchemaMeta,
    CassTableMeta, Column, ColumnKind, Table,
};
use scylla_rust_wrapper::types::{CassColumnType, CassDataType, CassValueType};

fn int_type() -> CassDataType {
    CassDataType::Value(CassValueType::CASS_VALUE_TYPE_INT)
}

fn column(name: &str, kind: ColumnKind) -> Column {
    Column { name: name.as_bytes().to_vec(), typ: int_type(), kind }
}

fn sample_table() -> CassTableMeta {
    // CREATE TABLE t (i int, f int, g int STATIC, b int, c int STATIC, a int,
    //   d int, j int, h int, PRIMARY KEY ((d, a, j), h, i))
    let table = Table {
        columns: vec![
            column("i", ColumnKind::Clustering),
            column("f", ColumnKind::Regular),
            column("g", ColumnKind::Static),
            column("b", ColumnKind::Regular),
            column("c", ColumnKind::Static),
            column("a", ColumnKind::PartitionKey),
            column("d", ColumnKind::PartitionKey),
            column("j", ColumnKind::PartitionKey),
            column("h", ColumnKind::Clustering),
        ],
        partition_key: vec![b"d".to_vec(), b"a".to_vec(), b"j".to_vec()],
        clustering_key: vec![b"h".to_vec(), b"i".to_vec()],
    };
    create_table_metadata(b"t".to_vec(), table)
}

fn simple_table(name: &str) -> CassTableMeta {
    let table = Table {
        columns: vec![column("k", ColumnKind::PartitionKey), column("v", ColumnKind::Regular)],
        partition_key: vec![b"k".to_vec()],
        clustering_key: vec![],
    };
    create_table_metadata(name.as_bytes().to_vec(), table)
}

fn view_of(name: &str, base: &str) -> CassMaterializedViewMeta {
    CassMaterializedViewMeta {
        name: name.as_bytes().to_vec(),
        view_metadata: simple_table(name),
        base_table: base.as_bytes().to_vec(),
    }
}

#[test]
fn column_order_is_keys_then_sorted_rest() {
    let t = sample_table();
    let mut names = Vec::new();
    let mut index = 0;
    while let Some(c) = cass_table_meta_column(&t, index) {
        names.push(String::from_utf8(cass_column_meta_name(c).to_vec()).unwrap());
        index += 1;
    }
    assert_eq!(vec!["d", "a", "j", "h", "i", "b", "c", "f", "g"], names);
    assert_eq!(9, cass_table_meta_column_count(&t));
    assert!(cass_table_meta_column(&t, 9).is_none());
}

#[test]
fn key_columns_by_position() {
    let t = sample_table();
    assert_eq!(3, cass_table_meta_partition_key_count(&t));
    assert_eq!(2, cass_table_meta_clustering_key_count(&t));
    assert_eq!(b"a", cass_column_meta_name(cass_table_meta_partition_key(&t, 1).unwrap()));
    assert_eq!(b"i", cass_column_meta_name(cass_table_meta_clustering_key(&t, 1).unwrap()));
    assert!(cass_table_meta_partition_key(&t, 3).is_none());
    assert!(cass_table_meta_clustering_key(&t, 2).is_none());
    let g = cass_table_meta_column_by_name(&t, b"g").unwrap();
    assert_eq!(CassColumnType::CASS_COLUMN_TYPE_STATIC, cass_column_meta_type(g));
    assert_eq!(&int_type(), cass_column_meta_data_type(g));
    let d = cass_table_meta_column_by_name(&t, b"d").unwrap();
    assert_eq!(CassColumnType::CASS_COLUMN_TYPE_PARTITION_KEY, cass_column_meta_type(d));
    assert!(cass_table_meta_column_by_name(&t, b"zz").is_none());
    assert_eq!(b"t", cass_table_meta_name(&t));
}

#[test]
fn lookups_by_name_in_a_schema() {
    let mut users = simple_table("users");
    users.views.push(Arc::new(view_of("users_by_v", "users")));
    let keyspace = CassKeyspaceMeta {
        name: b"ks".to_vec(),
        user_defined_type_data_type: vec![(b"addr".to_vec(), Arc::new(int_type()))],
        tables: vec![Arc::new(users), Arc::new(simple_table("other"))],
        views: vec![Arc::new(view_of("users_by_v", "users"))],
    };
    let schema = CassSchemaMeta { keyspaces: vec![keyspace] };
    let ks = cass_schema_meta_keyspace_by_name(&schema, b"ks").unwrap();
    assert_eq!(b"ks", cass_keyspace_meta_name(ks));
    assert!(cass_schema_meta_keyspace_by_name(&schema, b"nope").is_none());
    assert!(cass_schema_meta_keyspace_by_name_n(&schema, b"ksx", 2).is_some());
    let other = cass_keyspace_meta_table_by_name(ks, b"other").unwrap();
    assert_eq!(b"other", cass_table_meta_name(other));
    assert!(cass_keyspace_meta_table_by_name_n(ks, b"usersXYZ", 5).is_some());
    assert_eq!(&int_type(), &**cass_keyspace_meta_user_type_by_name(ks, b"addr").unwrap());
    let users = cass_keyspace_meta_table_by_name(ks, b"users").unwrap();
    assert_eq!(1, cass_table_meta_materialized_view_count(users));
    let v = cass_table_meta_materialized_view(users, 0).unwrap();
    assert_eq!(b"users_by_v", cass_materialized_view_meta_name(v));
    assert!(cass_table_meta_materialized_view(users, 1).is_none());
    assert!(cass_table_meta_materialized_view_by_name(users, b"users_by_v").is_some());
    let kv = cass_keyspace_meta_materialized_view_by_name(ks, b"users_by_v").unwrap();
    assert_eq!(2, cass_materialized_view_meta_column_count(kv));
    assert!(cass_materialized_view_meta_column(kv, 2).is_none());
}

#[test]
fn base_table_resolves_until_removed() {
    let mut keyspace = CassKeyspaceMeta {
        name: b"ks".to_vec(),
        user_defined_type_data_type: vec![],
        tables: vec![Arc::new(simple_table("base")), Arc::new(simple_table("keep"))],
        views: vec![],
    };
    let view = view_of("v", "base");
    let base = cass_materialized_view_meta_base_table(&keyspace, &view).unwrap();
    assert_eq!(b"base", cass_table_meta_name(base));
    keyspace.remove_table(b"base");
    assert!(cass_materialized_view_meta_base_table(&keyspace, &view).is_none());
    assert_eq!(1, keyspace.tables.len());
    assert!(cass_keyspace_meta_table_by_name(&keyspace, b"keep").is_some());
}
