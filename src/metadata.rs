//! Schema metadata: schema → keyspaces → tables / views / user types → columns.
use std::sync::Arc;
use vstd::prelude::*;
use crate::names::{
    Named, bytes_lt, copy_bytes, find_by_name, has_name, lemma_lex_total, lex_lt,
};
use crate::types::{CassColumnType, CassDataType};

verus! {

/// The kind of a column as the driver's schema reports it.
#[derive(Clone, Copy, Debug, PartialEq, Eq, Structural)]
pub enum ColumnKind {
    Regular,
    Static,
    Clustering,
    PartitionKey,
}

/// A column of a table as the driver's schema reports it.
pub struct Column {
    pub name: Vec<u8>,
    pub typ: CassDataType,
    pub kind: ColumnKind,
}

/// A table as the driver's schema reports it: its columns, and the names of
/// its partition-key and clustering-key columns by position.
pub struct Table {
    pub columns: Vec<Column>,
    pub partition_key: Vec<Vec<u8>>,
    pub clustering_key: Vec<Vec<u8>>,
}

pub open spec fn column_type_of(k: ColumnKind) -> CassColumnType {
    match k {
        ColumnKind::Regular => CassColumnType::CASS_COLUMN_TYPE_REGULAR,
        ColumnKind::Static => CassColumnType::CASS_COLUMN_TYPE_STATIC,
        ColumnKind::Clustering => CassColumnType::CASS_COLUMN_TYPE_CLUSTERING_KEY,
        ColumnKind::PartitionKey => CassColumnType::CASS_COLUMN_TYPE_PARTITION_KEY,
    }
}

pub open spec fn is_key_kind(k: CassColumnType) -> bool {
    k == CassColumnType::CASS_COLUMN_TYPE_PARTITION_KEY || k
        == CassColumnType::CASS_COLUMN_TYPE_CLUSTERING_KEY
}

pub open spec fn names_of(s: Seq<Vec<u8>>) -> Seq<Seq<u8>> {
    s.map_values(|v: Vec<u8>| v@)
}

/// Each name comes strictly before the next.
pub open spec fn strictly_sorted(s: Seq<Seq<u8>>) -> bool {
    forall|i: int| 0 <= i < s.len() - 1 ==> lex_lt(#[trigger] s[i], s[i + 1])
}

/// A column of a table or view: name, type and role.
pub struct CassColumnMeta {
    pub name: Vec<u8>,
    pub column_type: Arc<CassDataType>,
    pub column_kind: CassColumnType,
}

/// A table (or the table-like body of a view): its columns, its keys by
/// position, the sorted names of its other columns, and its views.
pub struct CassTableMeta {
    pub name: Vec<u8>,
    pub columns_metadata: Vec<CassColumnMeta>,
    pub partition_keys: Vec<Vec<u8>>,
    pub clustering_keys: Vec<Vec<u8>>,
    /// Names of the non-key columns, sorted.
    pub non_key_sorted_columns: Vec<Vec<u8>>,
    pub views: Vec<Arc<CassMaterializedViewMeta>>,
}

/// A materialized view: its own columns, and the name of its base table.
pub struct CassMaterializedViewMeta {
    pub name: Vec<u8>,
    pub view_metadata: CassTableMeta,
    /// The name of the base table, resolved in the owning keyspace.
    pub base_table: Vec<u8>,
}

/// A keyspace: its user types, tables and views, each shared.
pub struct CassKeyspaceMeta {
    pub name: Vec<u8>,
    pub user_defined_type_data_type: Vec<(Vec<u8>, Arc<CassDataType>)>,
    pub tables: Vec<Arc<CassTableMeta>>,
    pub views: Vec<Arc<CassMaterializedViewMeta>>,
}

/// The schema: the keyspaces it owns.
pub struct CassSchemaMeta {
    pub keyspaces: Vec<CassKeyspaceMeta>,
}

impl Named for CassColumnMeta {
    open spec fn spec_name(&self) -> Seq<u8> {
        self.name@
    }

    fn name_bytes(&self) -> (r: &[u8]) {
        self.name.as_slice()
    }
}

impl Named for Arc<CassTableMeta> {
    open spec fn spec_name(&self) -> Seq<u8> {
        self.name@
    }

    fn name_bytes(&self) -> (r: &[u8]) {
        self.name.as_slice()
    }
}

impl Named for Arc<CassMaterializedViewMeta> {
    open spec fn spec_name(&self) -> Seq<u8> {
        self.name@
    }

    fn name_bytes(&self) -> (r: &[u8]) {
        self.name.as_slice()
    }
}

impl Named for CassKeyspaceMeta {
    open spec fn spec_name(&self) -> Seq<u8> {
        self.name@
    }

    fn name_bytes(&self) -> (r: &[u8]) {
        self.name.as_slice()
    }
}

impl Named for (Vec<u8>, Arc<CassDataType>) {
    open spec fn spec_name(&self) -> Seq<u8> {
        self.0@
    }

    fn name_bytes(&self) -> (r: &[u8]) {
        self.0.as_slice()
    }
}

/// Whether some column of `cols` is a non-key column named `n`.
pub open spec fn is_non_key_name(cols: Seq<CassColumnMeta>, n: Seq<u8>) -> bool {
    exists|j: int| 0 <= j < cols.len() && (#[trigger] cols[j]).name@ == n && !is_key_kind(cols[j].column_kind)
}

/// Whether no two items carry the same name.
pub open spec fn unique_names<T: Named>(s: Seq<T>) -> bool {
    forall|i: int, j: int|
        0 <= i < s.len() && 0 <= j < s.len() && i != j ==> (#[trigger] s[i]).spec_name() != (
        #[trigger] s[j]).spec_name()
}

impl CassTableMeta {
    /// Column names are unique, every key names a column, and the cached
    /// non-key list is exactly the non-key column names, sorted.
    pub open spec fn wf(&self) -> bool {
        &&& unique_names(self.columns_metadata@)
        &&& forall|i: int|
            0 <= i < self.partition_keys@.len() ==> has_name(
                self.columns_metadata@,
                #[trigger] self.partition_keys@[i]@,
            )
        &&& forall|i: int|
            0 <= i < self.clustering_keys@.len() ==> has_name(
                self.columns_metadata@,
                #[trigger] self.clustering_keys@[i]@,
            )
        &&& strictly_sorted(names_of(self.non_key_sorted_columns@))
        &&& forall|n: Seq<u8>|
            names_of(self.non_key_sorted_columns@).contains(n) <==> is_non_key_name(
                self.columns_metadata@,
                n,
            )
    }

    /// The column names in their fixed order: partition keys by position,
    /// clustering keys by position, then the other columns by name.
    pub open spec fn column_order(&self) -> Seq<Seq<u8>> {
        names_of(self.partition_keys@) + names_of(self.clustering_keys@) + names_of(
            self.non_key_sorted_columns@,
        )
    }
}

/// Inserts `name` into a strictly sorted list of names that lacks it.
fn insert_sorted(v: &mut Vec<Vec<u8>>, name: Vec<u8>)
    requires
        strictly_sorted(names_of(old(v)@)),
        !names_of(old(v)@).contains(name@),
    ensures
        strictly_sorted(names_of(final(v)@)),
        forall|n: Seq<u8>|
            names_of(final(v)@).contains(n) <==> (names_of(old(v)@).contains(n) || n == name@),
{
    let mut pos: usize = 0;
    while pos < v.len() && !bytes_lt(name.as_slice(), v[pos].as_slice())
        invariant
            pos <= v@.len(),
            forall|j: int| 0 <= j < pos ==> !lex_lt(name@, #[trigger] v@[j]@),
        decreases v@.len() - pos,
    {
        pos = pos + 1;
    }
    let ghost old_names = names_of(v@);
    let ghost nm = name@;
    v.insert(pos, name);
    let ghost new_names = names_of(v@);
    assert(new_names =~= old_names.insert(pos as int, nm));
    proof {
        if pos > 0 {
            assert(old_names[pos - 1] != nm) by {
                if old_names[pos - 1] == nm {
                    assert(old_names.contains(nm));
                }
            }
            lemma_lex_total(old_names[pos - 1], nm);
        }
    }
    assert forall|k: int| 0 <= k < new_names.len() - 1 implies lex_lt(
        #[trigger] new_names[k],
        new_names[k + 1],
    ) by {
        if k < pos - 1 {
            assert(lex_lt(old_names[k], old_names[k + 1]));
        } else if k == pos - 1 {
        } else if k == pos {
        } else {
            assert(lex_lt(old_names[k - 1], old_names[k]));
        }
    }
    assert forall|n: Seq<u8>| new_names.contains(n) <==> (old_names.contains(n) || n == nm) by {
        if new_names.contains(n) {
            let k = choose|k: int| 0 <= k < new_names.len() && new_names[k] == n;
            if k < pos {
                assert(old_names[k] == n);
            } else if k > pos {
                assert(old_names[k - 1] == n);
            }
        }
        if old_names.contains(n) {
            let k = choose|k: int| 0 <= k < old_names.len() && old_names[k] == n;
            if k < pos {
                assert(new_names[k] == n);
            } else {
                assert(new_names[k + 1] == n);
            }
        }
        if n == nm {
            assert(new_names[pos as int] == n);
        }
    }
}
impl Named for Column {
    open spec fn spec_name(&self) -> Seq<u8> {
        self.name@
    }

    fn name_bytes(&self) -> (r: &[u8]) {
        self.name.as_slice()
    }
}

/// `m` is the metadata made from the driver's column `c`.
pub open spec fn column_meta_from(m: CassColumnMeta, c: Column) -> bool {
    &&& m.name@ == c.name@
    &&& *m.column_type == c.typ
    &&& m.column_kind == column_type_of(c.kind)
}

/// Builds the metadata of a table named `table_name` from the driver's
/// description of it, and caches the sorted list of its non-key columns.
pub fn create_table_metadata(table_name: Vec<u8>, table_metadata: Table) -> (r: CassTableMeta)
    requires
        unique_names(table_metadata.columns@),
        forall|i: int|
            0 <= i < table_metadata.partition_key@.len() ==> has_name(
                table_metadata.columns@,
                #[trigger] table_metadata.partition_key@[i]@,
            ),
        forall|i: int|
            0 <= i < table_metadata.clustering_key@.len() ==> has_name(
                table_metadata.columns@,
                #[trigger] table_metadata.clustering_key@[i]@,
            ),
    ensures
        r.wf(),
        r.name@ == table_name@,
        r.partition_keys@ == table_metadata.partition_key@,
        r.clustering_keys@ == table_metadata.clustering_key@,
        r.columns_metadata@.len() == table_metadata.columns@.len(),
        forall|i: int|
            0 <= i < r.columns_metadata@.len() ==> column_meta_from(
                #[trigger] r.columns_metadata@[i],
                table_metadata.columns@[i],
            ),
        r.views@.len() == 0,
{
    let Table { columns, partition_key, clustering_key } = table_metadata;
    let mut columns = columns;
    let ghost orig = columns@;
    let mut metas: Vec<CassColumnMeta> = Vec::new();
    while columns.len() > 0
        invariant
            metas@.len() + columns@.len() == orig.len(),
            columns@ == orig.skip(metas@.len() as int),
            forall|i: int| 0 <= i < metas@.len() ==> column_meta_from(#[trigger] metas@[i], orig[i]),
        decreases columns@.len(),
    {
        let c = columns.remove(0);
        let kind = match c.kind {
            ColumnKind::Regular => CassColumnType::CASS_COLUMN_TYPE_REGULAR,
            ColumnKind::Static => CassColumnType::CASS_COLUMN_TYPE_STATIC,
            ColumnKind::Clustering => CassColumnType::CASS_COLUMN_TYPE_CLUSTERING_KEY,
            ColumnKind::PartitionKey => CassColumnType::CASS_COLUMN_TYPE_PARTITION_KEY,
        };
        let ghost skipped = orig.skip(metas@.len() as int);
        assert(c == skipped[0]);
        metas.push(CassColumnMeta { name: c.name, column_type: Arc::new(c.typ), column_kind: kind });
        assert(columns@ =~= orig.skip(metas@.len() as int));
    }
    assert(unique_names(metas@)) by {
        assert forall|i: int, j: int|
            0 <= i < metas@.len() && 0 <= j < metas@.len() && i != j implies (
            #[trigger] metas@[i]).spec_name() != (#[trigger] metas@[j]).spec_name() by {
            assert(column_meta_from(metas@[i], orig[i]));
            assert(column_meta_from(metas@[j], orig[j]));
        }
    }
    assert forall|n: Seq<u8>| has_name(orig, n) implies has_name(metas@, n) by {
        let j = choose|j: int| 0 <= j < orig.len() && (#[trigger] orig[j]).spec_name() == n;
        assert(column_meta_from(metas@[j], orig[j]));
    }
    let mut sorted: Vec<Vec<u8>> = Vec::new();
    let mut i: usize = 0;
    while i < metas.len()
        invariant
            i <= metas@.len(),
            unique_names(metas@),
            strictly_sorted(names_of(sorted@)),
            forall|n: Seq<u8>|
                names_of(sorted@).contains(n) <==> is_non_key_name(metas@.take(i as int), n),
        decreases metas@.len() - i,
    {
        let k = metas[i].column_kind;
        let ghost before = metas@.take(i as int);
        let ghost after = metas@.take(i + 1);
        if k != CassColumnType::CASS_COLUMN_TYPE_PARTITION_KEY && k
            != CassColumnType::CASS_COLUMN_TYPE_CLUSTERING_KEY {
            assert(!names_of(sorted@).contains(metas@[i as int].name@)) by {
                if names_of(sorted@).contains(metas@[i as int].name@) {
                    let j = choose|j: int|
                        0 <= j < before.len() && (#[trigger] before[j]).name@
                            == metas@[i as int].name@ && !is_key_kind(before[j].column_kind);
                    assert(metas@[j].spec_name() == metas@[i as int].spec_name());
                }
            }
            insert_sorted(&mut sorted, copy_bytes(metas[i].name.as_slice()));
        }
        assert forall|n: Seq<u8>| is_non_key_name(after, n) <==> (is_non_key_name(before, n) || (
            n == metas@[i as int].name@ && !is_key_kind(k))) by {
            if is_non_key_name(after, n) {
                let j = choose|j: int|
                    0 <= j < after.len() && (#[trigger] after[j]).name@ == n && !is_key_kind(
                        after[j].column_kind,
                    );
                if j < i {
                    assert(before[j] == after[j]);
                }
            }
            if is_non_key_name(before, n) {
                let j = choose|j: int|
                    0 <= j < before.len() && (#[trigger] before[j]).name@ == n && !is_key_kind(
                        before[j].column_kind,
                    );
                assert(after[j] == before[j]);
            }
            if n == metas@[i as int].name@ && !is_key_kind(k) {
                assert(after[i as int] == metas@[i as int]);
            }
        }
        i = i + 1;
    }
    assert(metas@.take(metas@.len() as int) =~= metas@);
    CassTableMeta {
        name: table_name,
        columns_metadata: metas,
        partition_keys: partition_key,
        clustering_keys: clustering_key,
        non_key_sorted_columns: sorted,
        views: Vec::new(),
    }
}
pub open spec fn deref_opt<T>(r: Option<&T>) -> Option<T> {
    match r {
        Some(t) => Some(*t),
        None => None,
    }
}

/// `r` is an entry of `items` named `name`, or `None` when there is none.
pub open spec fn lookup_result<T: Named>(items: Seq<T>, name: Seq<u8>, r: Option<T>) -> bool {
    match r {
        Some(t) => t.spec_name() == name && items.contains(t),
        None => !has_name(items, name),
    }
}

/// The first `len` bytes of `name`.
fn name_prefix(name: &[u8], len: usize) -> (r: &[u8])
    requires
        len <= name@.len(),
    ensures
        r@ == name@.subrange(0, len as int),
{
    vstd::slice::slice_subrange(name, 0, len)
}

/// The column of a table or view named `name`.
fn column_by_name<'a>(t: &'a CassTableMeta, name: &[u8]) -> (r: Option<&'a CassColumnMeta>)
    ensures
        lookup_result(t.columns_metadata@, name@, deref_opt(r)),
{
    match find_by_name(&t.columns_metadata, name) {
        Some(i) => Some(&t.columns_metadata[i]),
        None => None,
    }
}

/// The column named by the `index`-th entry of `keys`.
fn key_column<'a>(t: &'a CassTableMeta, keys: &Vec<Vec<u8>>, index: usize) -> (r: Option<
    &'a CassColumnMeta,
>)
    ensures
        index >= keys@.len() ==> r is None,
        index < keys@.len() ==> lookup_result(t.columns_metadata@, keys@[index as int]@, deref_opt(r)),
{
    if index < keys.len() {
        column_by_name(t, keys[index].as_slice())
    } else {
        None
    }
}

pub fn cass_schema_meta_keyspace_by_name<'a>(
    schema_meta: &'a CassSchemaMeta,
    keyspace_name: &[u8],
) -> (r: Option<&'a CassKeyspaceMeta>)
    ensures
        lookup_result(schema_meta.keyspaces@, keyspace_name@, deref_opt(r)),
{
    assert(keyspace_name@.subrange(0, keyspace_name@.len() as int) =~= keyspace_name@);
    cass_schema_meta_keyspace_by_name_n(schema_meta, keyspace_name, keyspace_name.len())
}

pub fn cass_schema_meta_keyspace_by_name_n<'a>(
    schema_meta: &'a CassSchemaMeta,
    keyspace_name: &[u8],
    keyspace_name_length: usize,
) -> (r: Option<&'a CassKeyspaceMeta>)
    requires
        keyspace_name_length <= keyspace_name@.len(),
    ensures
        lookup_result(
            schema_meta.keyspaces@,
            keyspace_name@.subrange(0, keyspace_name_length as int),
            deref_opt(r),
        ),
{
    let name = name_prefix(keyspace_name, keyspace_name_length);
    match find_by_name(&schema_meta.keyspaces, name) {
        Some(i) => Some(&schema_meta.keyspaces[i]),
        None => None,
    }
}

pub fn cass_keyspace_meta_name(keyspace_meta: &CassKeyspaceMeta) -> (r: &[u8])
    ensures
        r@ == keyspace_meta.name@,
{
    keyspace_meta.name.as_slice()
}

pub fn cass_keyspace_meta_user_type_by_name<'a>(
    keyspace_meta: &'a CassKeyspaceMeta,
    type_: &[u8],
) -> (r: Option<&'a Arc<CassDataType>>)
    ensures
        match r {
            Some(t) => exists|j: int|
                0 <= j < keyspace_meta.user_defined_type_data_type@.len()
                    && #[trigger] keyspace_meta.user_defined_type_data_type@[j].0@ == type_@
                    && keyspace_meta.user_defined_type_data_type@[j].1 == *t,
            None => !has_name(keyspace_meta.user_defined_type_data_type@, type_@),
        },
{
    assert(type_@.subrange(0, type_@.len() as int) =~= type_@);
    cass_keyspace_meta_user_type_by_name_n(keyspace_meta, type_, type_.len())
}

pub fn cass_keyspace_meta_user_type_by_name_n<'a>(
    keyspace_meta: &'a CassKeyspaceMeta,
    type_: &[u8],
    type_length: usize,
) -> (r: Option<&'a Arc<CassDataType>>)
    requires
        type_length <= type_@.len(),
    ensures
        match r {
            Some(t) => exists|j: int|
                0 <= j < keyspace_meta.user_defined_type_data_type@.len()
                    && #[trigger] keyspace_meta.user_defined_type_data_type@[j].0@
                    == type_@.subrange(0, type_length as int)
                    && keyspace_meta.user_defined_type_data_type@[j].1 == *t,
            None => !has_name(
                keyspace_meta.user_defined_type_data_type@,
                type_@.subrange(0, type_length as int),
            ),
        },
{
    let name = name_prefix(type_, type_length);
    match find_by_name(&keyspace_meta.user_defined_type_data_type, name) {
        Some(i) => Some(&keyspace_meta.user_defined_type_data_type[i].1),
        None => None,
    }
}
/// `r` is the target of an entry of `items` named `name`, or `None` when
/// there is none.
pub open spec fn shared_lookup_result<T>(items: Seq<Arc<T>>, name: Seq<u8>, r: Option<&T>) -> bool
    where Arc<T>: Named
{
    match r {
        Some(t) => exists|j: int|
            0 <= j < items.len() && (#[trigger] items[j]).spec_name() == name && *items[j] == *t,
        None => !has_name(items, name),
    }
}

/// The entry of `items` named `name`, if any.
fn find_shared<'a, T>(items: &'a Vec<Arc<T>>, name: &[u8]) -> (r: Option<&'a T>)
    where Arc<T>: Named
    ensures
        shared_lookup_result(items@, name@, r),
{
    match find_by_name(items, name) {
        Some(i) => Some(&*items[i]),
        None => None,
    }
}

pub fn cass_keyspace_meta_table_by_name<'a>(keyspace_meta: &'a CassKeyspaceMeta, table: &[u8]) -> (r:
    Option<&'a CassTableMeta>)
    ensures
        shared_lookup_result(keyspace_meta.tables@, table@, r),
{
    find_shared(&keyspace_meta.tables, table)
}

pub fn cass_keyspace_meta_table_by_name_n<'a>(
    keyspace_meta: &'a CassKeyspaceMeta,
    table: &[u8],
    table_length: usize,
) -> (r: Option<&'a CassTableMeta>)
    requires
        table_length <= table@.len(),
    ensures
        shared_lookup_result(keyspace_meta.tables@, table@.subrange(0, table_length as int), r),
{
    find_shared(&keyspace_meta.tables, name_prefix(table, table_length))
}

pub fn cass_table_meta_name(table_meta: &CassTableMeta) -> (r: &[u8])
    ensures
        r@ == table_meta.name@,
{
    table_meta.name.as_slice()
}

pub fn cass_table_meta_column_count(table_meta: &CassTableMeta) -> (r: usize)
    ensures
        r == table_meta.columns_metadata@.len(),
{
    table_meta.columns_metadata.len()
}

/// The column at `index` in the fixed column order: partition keys by
/// position, then clustering keys by position, then the remaining columns
/// sorted by name; `None` past the end.
pub fn cass_table_meta_column<'a>(table_meta: &'a CassTableMeta, index: usize) -> (r: Option<
    &'a CassColumnMeta,
>)
    requires
        table_meta.wf(),
    ensures
        index < table_meta.column_order().len() ==> (r matches Some(c) && c.name@
            == table_meta.column_order()[index as int] && table_meta.columns_metadata@.contains(*c)),
        index >= table_meta.column_order().len() ==> r is None,
{
    let t = table_meta;
    let ghost pk = names_of(t.partition_keys@);
    let ghost ck = names_of(t.clustering_keys@);
    let ghost nk = names_of(t.non_key_sorted_columns@);
    assert(t.column_order() == pk + ck + nk);
    if index < t.partition_keys.len() {
        assert(t.column_order()[index as int] == t.partition_keys@[index as int]@);
        return key_column(t, &t.partition_keys, index);
    }
    let index = index - t.partition_keys.len();
    if index < t.clustering_keys.len() {
        assert(t.column_order()[pk.len() + index] == t.clustering_keys@[index as int]@);
        return key_column(t, &t.clustering_keys, index);
    }
    let index = index - t.clustering_keys.len();
    if index < t.non_key_sorted_columns.len() {
        let name = t.non_key_sorted_columns[index].as_slice();
        assert(t.column_order()[pk.len() + ck.len() + index] == name@);
        assert(nk[index as int] == name@);
        assert(is_non_key_name(t.columns_metadata@, name@));
        column_by_name(t, name)
    } else {
        None
    }
}

pub fn cass_table_meta_partition_key<'a>(table_meta: &'a CassTableMeta, index: usize) -> (r: Option<
    &'a CassColumnMeta,
>)
    ensures
        index >= table_meta.partition_keys@.len() ==> r is None,
        index < table_meta.partition_keys@.len() ==> lookup_result(
            table_meta.columns_metadata@,
            table_meta.partition_keys@[index as int]@,
            deref_opt(r),
        ),
{
    key_column(table_meta, &table_meta.partition_keys, index)
}

pub fn cass_table_meta_partition_key_count(table_meta: &CassTableMeta) -> (r: usize)
    ensures
        r == table_meta.partition_keys@.len(),
{
    table_meta.partition_keys.len()
}

pub fn cass_table_meta_clustering_key<'a>(table_meta: &'a CassTableMeta, index: usize) -> (r: Option<
    &'a CassColumnMeta,
>)
    ensures
        index >= table_meta.clustering_keys@.len() ==> r is None,
        index < table_meta.clustering_keys@.len() ==> lookup_result(
            table_meta.columns_metadata@,
            table_meta.clustering_keys@[index as int]@,
            deref_opt(r),
        ),
{
    key_column(table_meta, &table_meta.clustering_keys, index)
}

pub fn cass_table_meta_clustering_key_count(table_meta: &CassTableMeta) -> (r: usize)
    ensures
        r == table_meta.clustering_keys@.len(),
{
    table_meta.clustering_keys.len()
}

pub fn cass_table_meta_column_by_name<'a>(table_meta: &'a CassTableMeta, column: &[u8]) -> (r:
    Option<&'a CassColumnMeta>)
    ensures
        lookup_result(table_meta.columns_metadata@, column@, deref_opt(r)),
{
    column_by_name(table_meta, column)
}

pub fn cass_table_meta_column_by_name_n<'a>(
    table_meta: &'a CassTableMeta,
    column: &[u8],
    column_length: usize,
) -> (r: Option<&'a CassColumnMeta>)
    requires
        column_length <= column@.len(),
    ensures
        lookup_result(
            table_meta.columns_metadata@,
            column@.subrange(0, column_length as int),
            deref_opt(r),
        ),
{
    column_by_name(table_meta, name_prefix(column, column_length))
}

pub fn cass_column_meta_name(column_meta: &CassColumnMeta) -> (r: &[u8])
    ensures
        r@ == column_meta.name@,
{
    column_meta.name.as_slice()
}

pub fn cass_column_meta_data_type(column_meta: &CassColumnMeta) -> (r: &CassDataType)
    ensures
        *r == *column_meta.column_type,
{
    &*column_meta.column_type
}

pub fn cass_column_meta_type(column_meta: &CassColumnMeta) -> (r: CassColumnType)
    ensures
        r == column_meta.column_kind,
{
    column_meta.column_kind
}
pub fn cass_keyspace_meta_materialized_view_by_name<'a>(
    keyspace_meta: &'a CassKeyspaceMeta,
    view: &[u8],
) -> (r: Option<&'a CassMaterializedViewMeta>)
    ensures
        shared_lookup_result(keyspace_meta.views@, view@, r),
{
    find_shared(&keyspace_meta.views, view)
}

pub fn cass_keyspace_meta_materialized_view_by_name_n<'a>(
    keyspace_meta: &'a CassKeyspaceMeta,
    view: &[u8],
    view_length: usize,
) -> (r: Option<&'a CassMaterializedViewMeta>)
    requires
        view_length <= view@.len(),
    ensures
        shared_lookup_result(keyspace_meta.views@, view@.subrange(0, view_length as int), r),
{
    find_shared(&keyspace_meta.views, name_prefix(view, view_length))
}

pub fn cass_table_meta_materialized_view_by_name<'a>(table_meta: &'a CassTableMeta, view: &[u8]) -> (r:
    Option<&'a CassMaterializedViewMeta>)
    ensures
        shared_lookup_result(table_meta.views@, view@, r),
{
    find_shared(&table_meta.views, view)
}

pub fn cass_table_meta_materialized_view_by_name_n<'a>(
    table_meta: &'a CassTableMeta,
    view: &[u8],
    view_length: usize,
) -> (r: Option<&'a CassMaterializedViewMeta>)
    requires
        view_length <= view@.len(),
    ensures
        shared_lookup_result(table_meta.views@, view@.subrange(0, view_length as int), r),
{
    find_shared(&table_meta.views, name_prefix(view, view_length))
}

pub fn cass_table_meta_materialized_view_count(table_meta: &CassTableMeta) -> (r: usize)
    ensures
        r == table_meta.views@.len(),
{
    table_meta.views.len()
}

pub fn cass_table_meta_materialized_view<'a>(table_meta: &'a CassTableMeta, index: usize) -> (r:
    Option<&'a CassMaterializedViewMeta>)
    ensures
        index < table_meta.views@.len() ==> (r matches Some(v) && *v
            == *table_meta.views@[index as int]),
        index >= table_meta.views@.len() ==> r is None,
{
    if index < table_meta.views.len() {
        Some(&*table_meta.views[index])
    } else {
        None
    }
}

pub fn cass_materialized_view_meta_column_by_name<'a>(
    view_meta: &'a CassMaterializedViewMeta,
    column: &[u8],
) -> (r: Option<&'a CassColumnMeta>)
    ensures
        lookup_result(view_meta.view_metadata.columns_metadata@, column@, deref_opt(r)),
{
    column_by_name(&view_meta.view_metadata, column)
}

pub fn cass_materialized_view_meta_column_by_name_n<'a>(
    view_meta: &'a CassMaterializedViewMeta,
    column: &[u8],
    column_length: usize,
) -> (r: Option<&'a CassColumnMeta>)
    requires
        column_length <= column@.len(),
    ensures
        lookup_result(
            view_meta.view_metadata.columns_metadata@,
            column@.subrange(0, column_length as int),
            deref_opt(r),
        ),
{
    column_by_name(&view_meta.view_metadata, name_prefix(column, column_length))
}

pub fn cass_materialized_view_meta_name(view_meta: &CassMaterializedViewMeta) -> (r: &[u8])
    ensures
        r@ == view_meta.name@,
{
    view_meta.name.as_slice()
}

/// Resolves the view's base table in the keyspace that owns it: the live
/// table while the keyspace holds a table of that name, `None` once it does
/// not.
pub fn cass_materialized_view_meta_base_table<'a>(
    keyspace_meta: &'a CassKeyspaceMeta,
    view_meta: &CassMaterializedViewMeta,
) -> (r: Option<&'a CassTableMeta>)
    ensures
        shared_lookup_result(keyspace_meta.tables@, view_meta.base_table@, r),
        r is Some <==> has_name(keyspace_meta.tables@, view_meta.base_table@),
{
    find_shared(&keyspace_meta.tables, view_meta.base_table.as_slice())
}

pub fn cass_materialized_view_meta_column_count(view_meta: &CassMaterializedViewMeta) -> (r: usize)
    ensures
        r == view_meta.view_metadata.columns_metadata@.len(),
{
    view_meta.view_metadata.columns_metadata.len()
}

pub fn cass_materialized_view_meta_column<'a>(
    view_meta: &'a CassMaterializedViewMeta,
    index: usize,
) -> (r: Option<&'a CassColumnMeta>)
    ensures
        index < view_meta.view_metadata.columns_metadata@.len() ==> (r matches Some(c) && *c
            == view_meta.view_metadata.columns_metadata@[index as int]),
        index >= view_meta.view_metadata.columns_metadata@.len() ==> r is None,
{
    if index < view_meta.view_metadata.columns_metadata.len() {
        Some(&view_meta.view_metadata.columns_metadata[index])
    } else {
        None
    }
}

pub fn cass_materialized_view_meta_partition_key_count(view_meta: &CassMaterializedViewMeta) -> (r:
    usize)
    ensures
        r == view_meta.view_metadata.partition_keys@.len(),
{
    view_meta.view_metadata.partition_keys.len()
}

pub fn cass_materialized_view_meta_partition_key<'a>(
    view_meta: &'a CassMaterializedViewMeta,
    index: usize,
) -> (r: Option<&'a CassColumnMeta>)
    ensures
        index >= view_meta.view_metadata.partition_keys@.len() ==> r is None,
        index < view_meta.view_metadata.partition_keys@.len() ==> lookup_result(
            view_meta.view_metadata.columns_metadata@,
            view_meta.view_metadata.partition_keys@[index as int]@,
            deref_opt(r),
        ),
{
    key_column(&view_meta.view_metadata, &view_meta.view_metadata.partition_keys, index)
}

pub fn cass_materialized_view_meta_clustering_key_count(view_meta: &CassMaterializedViewMeta) -> (r:
    usize)
    ensures
        r == view_meta.view_metadata.clustering_keys@.len(),
{
    view_meta.view_metadata.clustering_keys.len()
}

pub fn cass_materialized_view_meta_clustering_key<'a>(
    view_meta: &'a CassMaterializedViewMeta,
    index: usize,
) -> (r: Option<&'a CassColumnMeta>)
    ensures
        index >= view_meta.view_metadata.clustering_keys@.len() ==> r is None,
        index < view_meta.view_metadata.clustering_keys@.len() ==> lookup_result(
            view_meta.view_metadata.columns_metadata@,
            view_meta.view_metadata.clustering_keys@[index as int]@,
            deref_opt(r),
        ),
{
    key_column(&view_meta.view_metadata, &view_meta.view_metadata.clustering_keys, index)
}

impl CassKeyspaceMeta {
    /// Drops every table named `name` from the keyspace, keeping the others
    /// in order.
    pub fn remove_table(&mut self, name: &[u8])
        ensures
            final(self).name == old(self).name,
            final(self).views == old(self).views,
            final(self).user_defined_type_data_type == old(self).user_defined_type_data_type,
            final(self).tables@ == old(self).tables@.filter(
                |t: Arc<CassTableMeta>| t.spec_name() != name@,
            ),
    {
        let ghost pred = |t: Arc<CassTableMeta>| t.spec_name() != name@;
        let mut kept: Vec<Arc<CassTableMeta>> = Vec::new();
        let mut i: usize = 0;
        assert(self.tables@.take(0).filter(pred) =~= Seq::<Arc<CassTableMeta>>::empty()) by {
            reveal(Seq::filter);
        }
        while i < self.tables.len()
            invariant
                i <= self.tables@.len(),
                kept@ == self.tables@.take(i as int).filter(pred),
                pred == (|t: Arc<CassTableMeta>| t.spec_name() != name@),
            decreases self.tables@.len() - i,
        {
            let ghost before = self.tables@.take(i as int);
            let ghost after = self.tables@.take(i + 1);
            assert(after.drop_last() =~= before);
            assert(after.last() == self.tables@[i as int]);
            assert(after.filter(pred) == if pred(after.last()) {
                before.filter(pred).push(after.last())
            } else {
                before.filter(pred)
            }) by {
                reveal(Seq::filter);
            }
            if !crate::names::bytes_eq(self.tables[i].name.as_slice(), name) {
                kept.push(self.tables[i].clone());
            }
            i = i + 1;
        }
        assert(self.tables@.take(self.tables@.len() as int) =~= self.tables@);
        self.tables = kept;
    }
}
/// Once the tables named like a view's base table are removed from a
/// keyspace, the keyspace has no table of that name, so resolving the view's
/// base table there finds nothing; tables of every other name stay.
pub proof fn lemma_removed_base_table_is_not_found(
    keyspace_meta: CassKeyspaceMeta,
    after_removal: CassKeyspaceMeta,
    view_meta: CassMaterializedViewMeta,
)
    requires
        after_removal.tables@ == keyspace_meta.tables@.filter(
            |t: Arc<CassTableMeta>| t.spec_name() != view_meta.base_table@,
        ),
    ensures
        !has_name(after_removal.tables@, view_meta.base_table@),
        forall|n: Seq<u8>|
            n != view_meta.base_table@ && has_name(keyspace_meta.tables@, n) ==> has_name(
                after_removal.tables@,
                n,
            ),
{
    let pred = |t: Arc<CassTableMeta>| t.spec_name() != view_meta.base_table@;
    assert forall|j: int| 0 <= j < after_removal.tables@.len() implies (
    #[trigger] after_removal.tables@[j]).spec_name() != view_meta.base_table@ by {
        keyspace_meta.tables@.lemma_filter_pred(pred, j);
    }
    assert forall|n: Seq<u8>|
        n != view_meta.base_table@ && has_name(keyspace_meta.tables@, n) implies has_name(
            after_removal.tables@,
            n,
        ) by {
        let j = choose|j: int|
            0 <= j < keyspace_meta.tables@.len() && (#[trigger] keyspace_meta.tables@[j]).spec_name()
                == n;
        keyspace_meta.tables@.lemma_filter_contains_rev(pred, keyspace_meta.tables@[j]);
        assert(keyspace_meta.tables@.contains(keyspace_meta.tables@[j]));
        let t = keyspace_meta.tables@[j];
        assert(after_removal.tables@.contains(t));
        let k = choose|k: int| 0 <= k < after_removal.tables@.len() && after_removal.tables@[k] == t;
        assert(after_removal.tables@[k].spec_name() == n);
    }
}

} // verus!
