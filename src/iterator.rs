//! The iterator engine: one handle type over every shape of collection, each
//! a cursor that starts before the first element and steps forward only.
use std::sync::Arc;
use vstd::prelude::*;
use crate::metadata::{
    deref_opt, CassColumnMeta, CassKeyspaceMeta, CassMaterializedViewMeta, CassSchemaMeta, CassTableMeta,
};
use crate::query_result::{
    decode_row, row_decodes, CassResult, CassResultKind, CassRow, CassRowsResultSharedData,
    CassValue,
};
use crate::collection::{collection_of, counted_cells, decoded_collection, lemma_cells_len, Collection};
use crate::raw_value::be_i32;
use crate::types::{CassDataType, CassError, CassIteratorType};
use crate::value::NonNullDeserializationError;

verus! {

/// Where a positional cursor goes on a step: to the first element when
/// unstarted, else one further, but never past `count`.
pub open spec fn advanced(position: Option<usize>, count: usize) -> usize {
    match position {
        None => 0,
        Some(p) => if p < count {
            (p + 1) as usize
        } else {
            p
        },
    }
}

/// The element a positional cursor is on, if it is on one.
pub open spec fn current_index(position: Option<usize>, count: usize) -> Option<usize> {
    match position {
        Some(p) => if p < count {
            Some(p)
        } else {
            None
        },
        None => None,
    }
}

/// Whether a positional cursor has walked off the end.
pub open spec fn walked_off(position: Option<usize>, count: usize) -> bool {
    match position {
        Some(p) => p >= count,
        None => false,
    }
}

/// One step of a positional cursor: the new position, and whether it is on
/// an element.
fn step(position: Option<usize>, count: usize) -> (r: (usize, bool))
    ensures
        r.0 == advanced(position, count),
        r.1 == (r.0 < count),
{
    let p = match position {
        None => 0,
        Some(p) => if p < count {
            p + 1
        } else {
            p
        },
    };
    (p, p < count)
}

/// The element of `s` at the cursor, if the cursor is on one.
pub open spec fn at_cursor<T>(s: Seq<T>, position: Option<usize>) -> Option<T> {
    match current_index(position, s.len() as usize) {
        Some(i) => Some(s[i as int]),
        None => None,
    }
}

/// The element of `s` at the cursor, if the cursor is on one.
fn get_at<'a, T>(s: &'a Vec<T>, position: Option<usize>) -> (r: Option<&'a T>)
    ensures
        deref_opt(r) == at_cursor(s@, position),
{
    match position {
        Some(p) => if p < s.len() {
            Some(&s[p])
        } else {
            None
        },
        None => None,
    }
}
/// Once a step of a positional cursor finds no element, the next step finds
/// none either: the cursor never moves back.
pub proof fn lemma_step_after_end_stays_at_end(position: Option<usize>, count: usize)
    requires
        advanced(position, count) >= count,
    ensures
        advanced(Some(advanced(position, count)), count) == advanced(position, count),
        walked_off(Some(advanced(position, count)), count),
        current_index(Some(advanced(position, count)), count) is None,
{
}

/// A walk over the rows of a result, decoding each row as it is reached.
pub struct CassRowsResultIterator<'result> {
    pub shared_data: &'result CassRowsResultSharedData,
    pub position: Option<usize>,
    pub current_row: Option<CassRow>,
}

/// A walk over the rows of a result; a result without rows has none.
pub enum CassResultIterator<'result> {
    NonRows,
    Rows(CassRowsResultIterator<'result>),
}

impl<'result> CassRowsResultIterator<'result> {
    /// Steps to the next row and decodes it; a row that fails to decode ends
    /// the walk, as the end of the rows does.
    pub fn next(&mut self) -> (r: bool)
        ensures
            final(self).shared_data == old(self).shared_data,
            ({
                let rows = old(self).shared_data.raw_rows.rows@;
                let md = *old(self).shared_data.metadata;
                let i = advanced(old(self).position, rows.len() as usize);
                &&& r == (i < rows.len() as usize && row_decodes(rows[i as int]@, md))
                &&& r ==> final(self).position == Some(i) && (final(self).current_row matches Some(
                    row) && row.decoded_from(rows[i as int]@, md))
                &&& !r ==> final(self).position == Some(rows.len() as usize)
                    && final(self).current_row is None
            }),
    {
        let rows = &self.shared_data.raw_rows.rows;
        let (i, ok) = step(self.position, rows.len());
        if ok {
            match decode_row(&rows[i], &self.shared_data.metadata) {
                Ok(row) => {
                    self.position = Some(i);
                    self.current_row = Some(row);
                    return true;
                },
                Err(_) => {},
            }
        }
        self.position = Some(rows.len());
        self.current_row = None;
        false
    }
}

impl<'result> CassResultIterator<'result> {
    fn next(&mut self) -> (r: bool)
        ensures
            match (*old(self), *final(self)) {
                (CassResultIterator::NonRows, CassResultIterator::NonRows) => !r,
                (CassResultIterator::Rows(a), CassResultIterator::Rows(b)) => {
                    let rows = a.shared_data.raw_rows.rows@;
                    let md = *a.shared_data.metadata;
                    let i = advanced(a.position, rows.len() as usize);
                    &&& b.shared_data == a.shared_data
                    &&& r == (i < rows.len() as usize && row_decodes(rows[i as int]@, md))
                    &&& r ==> b.position == Some(i) && (b.current_row matches Some(row)
                        && row.decoded_from(rows[i as int]@, md))
                    &&& !r ==> b.position == Some(rows.len() as usize) && b.current_row is None
                },
                _ => false,
            },
    {
        match self {
            CassResultIterator::NonRows => false,
            CassResultIterator::Rows(it) => it.next(),
        }
    }
}

/// A walk over the values of a row.
pub struct CassRowIterator<'result> {
    pub row: &'result CassRow,
    pub position: Option<usize>,
}

impl<'result> CassRowIterator<'result> {
    fn next(&mut self) -> (r: bool)
        ensures
            final(self).row == old(self).row,
            final(self).position == Some(advanced(old(self).position, old(self).row.columns@.len() as usize)),
            r == (advanced(old(self).position, old(self).row.columns@.len() as usize)
                < old(self).row.columns@.len() as usize),
    {
        let (p, ok) = step(self.position, self.row.columns.len());
        self.position = Some(p);
        ok
    }
}

/// A walk over the elements of a list, set or tuple, or over the keys and
/// values of a map taken alternately (an even position is the key of entry
/// position / 2, an odd one its value).
pub struct LegacyCassCollectionIterator {
    pub value: Collection,
    pub count: usize,
    pub position: Option<usize>,
}

/// How many positions a walk over the decoded elements has.
pub open spec fn collection_len(c: Collection) -> int {
    match c {
        Collection::ListItems(v) => v@.len() as int,
        Collection::SetItems(v) => v@.len() as int,
        Collection::MapEntries(v) => 2 * v@.len() as int,
        Collection::TupleItems(v) => v@.len() as int,
        Collection::UdtFields(v) => v@.len() as int,
    }
}

impl LegacyCassCollectionIterator {
    pub fn next(&mut self) -> (r: bool)
        ensures
            final(self).value == old(self).value,
            final(self).count == old(self).count,
            final(self).position == Some(advanced(old(self).position, old(self).count)),
            r == (advanced(old(self).position, old(self).count) < old(self).count),
    {
        let (p, ok) = step(self.position, self.count);
        self.position = Some(p);
        ok
    }
}

/// A walk over the entries of a map, one entry per step.
pub struct LegacyCassMapIterator {
    pub value: Vec<(CassValue, CassValue)>,
    pub count: usize,
    pub position: Option<usize>,
}

impl LegacyCassMapIterator {
    pub fn next(&mut self) -> (r: bool)
        ensures
            final(self).value == old(self).value,
            final(self).count == old(self).count,
            final(self).position == Some(advanced(old(self).position, old(self).count)),
            r == (advanced(old(self).position, old(self).count) < old(self).count),
    {
        let (p, ok) = step(self.position, self.count);
        self.position = Some(p);
        ok
    }
}

/// A walk over the (name, value) fields of a user-type value.
pub struct LegacyCassUdtIterator {
    pub value: Vec<(Vec<u8>, CassValue)>,
    pub count: usize,
    pub position: Option<usize>,
}

impl LegacyCassUdtIterator {
    pub fn next(&mut self) -> (r: bool)
        ensures
            final(self).value == old(self).value,
            final(self).count == old(self).count,
            final(self).position == Some(advanced(old(self).position, old(self).count)),
            r == (advanced(old(self).position, old(self).count) < old(self).count),
    {
        let (p, ok) = step(self.position, self.count);
        self.position = Some(p);
        ok
    }
}

/// A walk over the keyspaces of a schema.
pub struct CassSchemaMetaIterator<'schema> {
    pub value: &'schema CassSchemaMeta,
    pub count: usize,
    pub position: Option<usize>,
}

impl<'schema> CassSchemaMetaIterator<'schema> {
    pub fn next(&mut self) -> (r: bool)
        ensures
            final(self).value == old(self).value,
            final(self).count == old(self).count,
            final(self).position == Some(advanced(old(self).position, old(self).count)),
            r == (advanced(old(self).position, old(self).count) < old(self).count),
    {
        let (p, ok) = step(self.position, self.count);
        self.position = Some(p);
        ok
    }
}

/// A walk over the tables, views or user types of a keyspace.
pub struct CassKeyspaceMetaIterator<'schema> {
    pub value: &'schema CassKeyspaceMeta,
    pub count: usize,
    pub position: Option<usize>,
}

impl<'schema> CassKeyspaceMetaIterator<'schema> {
    pub fn next(&mut self) -> (r: bool)
        ensures
            final(self).value == old(self).value,
            final(self).count == old(self).count,
            final(self).position == Some(advanced(old(self).position, old(self).count)),
            r == (advanced(old(self).position, old(self).count) < old(self).count),
    {
        let (p, ok) = step(self.position, self.count);
        self.position = Some(p);
        ok
    }
}

/// A walk over the columns or views of a table.
pub struct CassTableMetaIterator<'schema> {
    pub value: &'schema CassTableMeta,
    pub count: usize,
    pub position: Option<usize>,
}

impl<'schema> CassTableMetaIterator<'schema> {
    pub fn next(&mut self) -> (r: bool)
        ensures
            final(self).value == old(self).value,
            final(self).count == old(self).count,
            final(self).position == Some(advanced(old(self).position, old(self).count)),
            r == (advanced(old(self).position, old(self).count) < old(self).count),
    {
        let (p, ok) = step(self.position, self.count);
        self.position = Some(p);
        ok
    }
}

/// A walk over the columns of a view.
pub struct CassViewMetaIterator<'schema> {
    pub value: &'schema CassMaterializedViewMeta,
    pub count: usize,
    pub position: Option<usize>,
}

impl<'schema> CassViewMetaIterator<'schema> {
    pub fn next(&mut self) -> (r: bool)
        ensures
            final(self).value == old(self).value,
            final(self).count == old(self).count,
            final(self).position == Some(advanced(old(self).position, old(self).count)),
            r == (advanced(old(self).position, old(self).count) < old(self).count),
    {
        let (p, ok) = step(self.position, self.count);
        self.position = Some(p);
        ok
    }
}

/// Columns of a table or of a view.
pub enum CassColumnsMetaIterator<'schema> {
    FromTable(CassTableMetaIterator<'schema>),
    FromView(CassViewMetaIterator<'schema>),
}

/// Views of a keyspace or of a table.
pub enum CassMaterializedViewsMetaIterator<'schema> {
    FromKeyspace(CassKeyspaceMetaIterator<'schema>),
    FromTable(CassTableMetaIterator<'schema>),
}
/// An iterator handle: one variant per shape of collection.
pub enum CassIterator<'result_or_schema> {
    /// Rows of a result.
    Result(CassResultIterator<'result_or_schema>),
    /// Values of a row.
    Row(CassRowIterator<'result_or_schema>),
    /// Elements of a list or set; keys and values of a map, alternately.
    Collection(LegacyCassCollectionIterator),
    /// Entries of a map.
    MapEntries(LegacyCassMapIterator),
    /// Elements of a tuple.
    Tuple(LegacyCassCollectionIterator),
    /// Fields of a user-type value.
    Udt(LegacyCassUdtIterator),
    /// Keyspaces of a schema.
    KeyspacesMeta(CassSchemaMetaIterator<'result_or_schema>),
    /// Tables of a keyspace.
    TablesMeta(CassKeyspaceMetaIterator<'result_or_schema>),
    /// User types of a keyspace.
    UserTypes(CassKeyspaceMetaIterator<'result_or_schema>),
    /// Views of a keyspace or of a table.
    MaterializedViewsMeta(CassMaterializedViewsMetaIterator<'result_or_schema>),
    /// Columns of a table or of a view.
    ColumnsMeta(CassColumnsMetaIterator<'result_or_schema>),
}

impl<'a> CassIterator<'a> {
    /// The cursor position.
    pub open spec fn spec_position(&self) -> Option<usize> {
        match self {
            CassIterator::Result(CassResultIterator::Rows(it)) => it.position,
            CassIterator::Result(CassResultIterator::NonRows) => None,
            CassIterator::Row(it) => it.position,
            CassIterator::Collection(it) => it.position,
            CassIterator::MapEntries(it) => it.position,
            CassIterator::Tuple(it) => it.position,
            CassIterator::Udt(it) => it.position,
            CassIterator::KeyspacesMeta(it) => it.position,
            CassIterator::TablesMeta(it) => it.position,
            CassIterator::UserTypes(it) => it.position,
            CassIterator::MaterializedViewsMeta(CassMaterializedViewsMetaIterator::FromKeyspace(it)) => it.position,
            CassIterator::MaterializedViewsMeta(CassMaterializedViewsMetaIterator::FromTable(it)) => it.position,
            CassIterator::ColumnsMeta(CassColumnsMetaIterator::FromTable(it)) => it.position,
            CassIterator::ColumnsMeta(CassColumnsMetaIterator::FromView(it)) => it.position,
        }
    }

    /// How many positions the walk has.
    pub open spec fn spec_count(&self) -> usize {
        match self {
            CassIterator::Result(CassResultIterator::Rows(it)) => it.shared_data.raw_rows.rows@.len() as usize,
            CassIterator::Result(CassResultIterator::NonRows) => 0,
            CassIterator::Row(it) => it.row.columns@.len() as usize,
            CassIterator::Collection(it) => it.count,
            CassIterator::MapEntries(it) => it.count,
            CassIterator::Tuple(it) => it.count,
            CassIterator::Udt(it) => it.count,
            CassIterator::KeyspacesMeta(it) => it.count,
            CassIterator::TablesMeta(it) => it.count,
            CassIterator::UserTypes(it) => it.count,
            CassIterator::MaterializedViewsMeta(CassMaterializedViewsMetaIterator::FromKeyspace(it)) => it.count,
            CassIterator::MaterializedViewsMeta(CassMaterializedViewsMetaIterator::FromTable(it)) => it.count,
            CassIterator::ColumnsMeta(CassColumnsMetaIterator::FromTable(it)) => it.count,
            CassIterator::ColumnsMeta(CassColumnsMetaIterator::FromView(it)) => it.count,
        }
    }

    /// How many elements the walked collection holds.
    pub open spec fn source_len(&self) -> int {
        match self {
            CassIterator::Result(CassResultIterator::Rows(it)) => it.shared_data.raw_rows.rows@.len() as int,
            CassIterator::Result(CassResultIterator::NonRows) => 0,
            CassIterator::Row(it) => it.row.columns@.len() as int,
            CassIterator::Collection(it) => collection_len(it.value),
            CassIterator::MapEntries(it) => it.value@.len() as int,
            CassIterator::Tuple(it) => collection_len(it.value),
            CassIterator::Udt(it) => it.value@.len() as int,
            CassIterator::KeyspacesMeta(it) => it.value.keyspaces@.len() as int,
            CassIterator::TablesMeta(it) => it.value.tables@.len() as int,
            CassIterator::UserTypes(it) => it.value.user_defined_type_data_type@.len() as int,
            CassIterator::MaterializedViewsMeta(CassMaterializedViewsMetaIterator::FromKeyspace(it)) => it.value.views@.len() as int,
            CassIterator::MaterializedViewsMeta(CassMaterializedViewsMetaIterator::FromTable(it)) => it.value.views@.len() as int,
            CassIterator::ColumnsMeta(CassColumnsMetaIterator::FromTable(it)) => it.value.columns_metadata@.len() as int,
            CassIterator::ColumnsMeta(CassColumnsMetaIterator::FromView(it)) => it.value.view_metadata.columns_metadata@.len() as int,
        }
    }

    /// A walk with a stored length has as many positions as its collection
    /// has elements.
    pub open spec fn wf(&self) -> bool {
        match self {
            CassIterator::Result(_) | CassIterator::Row(_) => true,
            _ => self.spec_count() == self.source_len(),
        }
    }

    /// Not yet stepped.
    pub open spec fn is_unstarted(&self) -> bool {
        &&& self.spec_position() is None
        &&& self matches CassIterator::Result(CassResultIterator::Rows(it)) ==> it.current_row is None
    }

    /// Walked off the end: no step finds an element any more.
    pub open spec fn is_exhausted(&self) -> bool {
        match self {
            CassIterator::Result(CassResultIterator::NonRows) => true,
            _ => walked_off(self.spec_position(), self.spec_count()),
        }
    }

    /// Whether the iterator is on an element that accessors can read.
    pub open spec fn has_current(&self) -> bool {
        match self {
            CassIterator::Result(CassResultIterator::Rows(it)) => it.current_row is Some,
            CassIterator::Result(CassResultIterator::NonRows) => false,
            CassIterator::Collection(it) | CassIterator::Tuple(it) => it.position matches Some(p)
                && collection_at(it.value, p as int) is Some,
            _ => current_index(self.spec_position(), self.source_len() as usize) is Some,
        }
    }

    pub open spec fn spec_iterator_type(&self) -> CassIteratorType {
        match self {
            CassIterator::Result(_) => CassIteratorType::CASS_ITERATOR_TYPE_RESULT,
            CassIterator::Row(_) => CassIteratorType::CASS_ITERATOR_TYPE_ROW,
            CassIterator::Collection(_) => CassIteratorType::CASS_ITERATOR_TYPE_COLLECTION,
            CassIterator::MapEntries(_) => CassIteratorType::CASS_ITERATOR_TYPE_MAP,
            CassIterator::Tuple(_) => CassIteratorType::CASS_ITERATOR_TYPE_TUPLE,
            CassIterator::Udt(_) => CassIteratorType::CASS_ITERATOR_TYPE_USER_TYPE_FIELD,
            CassIterator::KeyspacesMeta(_) => CassIteratorType::CASS_ITERATOR_TYPE_KEYSPACE_META,
            CassIterator::TablesMeta(_) => CassIteratorType::CASS_ITERATOR_TYPE_TABLE_META,
            CassIterator::UserTypes(_) => CassIteratorType::CASS_ITERATOR_TYPE_TYPE_META,
            CassIterator::MaterializedViewsMeta(_) => CassIteratorType::CASS_ITERATOR_TYPE_MATERIALIZED_VIEW_META,
            CassIterator::ColumnsMeta(_) => CassIteratorType::CASS_ITERATOR_TYPE_COLUMN_META,
        }
    }
}

/// An iterator that has not been stepped is on no element, so every
/// accessor of the current element yields nothing.
pub proof fn lemma_unstarted_iterator_has_no_current(it: CassIterator)
    requires
        it.is_unstarted(),
    ensures
        !it.has_current(),
{
}

/// Once `cass_iterator_next` has returned false the iterator is exhausted,
/// and from an exhausted iterator a step returns false and leaves it
/// exhausted: the walk never restarts.
pub proof fn lemma_exhausted_iterator_stays_exhausted(it: CassIterator, stepped: CassIterator, r: bool)
    requires
        next_spec(it, stepped, r),
        it.is_exhausted(),
    ensures
        !r,
        stepped.is_exhausted(),
{
}

/// What one step does to an iterator: same shape and length; on success it
/// stands on the next position, which is on an element; else it is exhausted.
/// Only a failed decode of a row, which ends the walk, moves a cursor to the
/// end ahead of time.
pub open spec fn next_spec(old_it: CassIterator, new_it: CassIterator, r: bool) -> bool {
    let i = advanced(old_it.spec_position(), old_it.spec_count());
    &&& new_it.spec_iterator_type() == old_it.spec_iterator_type()
    &&& new_it.spec_count() == old_it.spec_count()
    &&& new_it.source_len() == old_it.source_len()
    &&& r ==> new_it.spec_position() == Some(i) && i < old_it.spec_count()
    &&& !r ==> new_it.is_exhausted()
    &&& old_it.is_exhausted() ==> !r
    &&& !(old_it is Result) ==> new_it.spec_position() == Some(i) && r == (i < old_it.spec_count())
}

pub fn cass_iterator_type(iterator: &CassIterator) -> (r: CassIteratorType)
    ensures
        r == iterator.spec_iterator_type(),
{
    match iterator {
        CassIterator::Result(_) => CassIteratorType::CASS_ITERATOR_TYPE_RESULT,
        CassIterator::Row(_) => CassIteratorType::CASS_ITERATOR_TYPE_ROW,
        CassIterator::Collection(_) => CassIteratorType::CASS_ITERATOR_TYPE_COLLECTION,
        CassIterator::MapEntries(_) => CassIteratorType::CASS_ITERATOR_TYPE_MAP,
        CassIterator::Tuple(_) => CassIteratorType::CASS_ITERATOR_TYPE_TUPLE,
        CassIterator::Udt(_) => CassIteratorType::CASS_ITERATOR_TYPE_USER_TYPE_FIELD,
        CassIterator::KeyspacesMeta(_) => CassIteratorType::CASS_ITERATOR_TYPE_KEYSPACE_META,
        CassIterator::TablesMeta(_) => CassIteratorType::CASS_ITERATOR_TYPE_TABLE_META,
        CassIterator::UserTypes(_) => CassIteratorType::CASS_ITERATOR_TYPE_TYPE_META,
        CassIterator::MaterializedViewsMeta(_) => {
            CassIteratorType::CASS_ITERATOR_TYPE_MATERIALIZED_VIEW_META
        },
        CassIterator::ColumnsMeta(_) => CassIteratorType::CASS_ITERATOR_TYPE_COLUMN_META,
    }
}

/// Steps the iterator to its next element; false once there is none.
pub fn cass_iterator_next(iterator: &mut CassIterator) -> (r: bool)
    ensures
        next_spec(*old(iterator), *final(iterator), r),
{
    match iterator {
        CassIterator::Result(it) => it.next(),
        CassIterator::Row(it) => it.next(),
        CassIterator::Collection(it) => it.next(),
        CassIterator::Tuple(it) => it.next(),
        CassIterator::MapEntries(it) => it.next(),
        CassIterator::Udt(it) => it.next(),
        CassIterator::KeyspacesMeta(it) => it.next(),
        CassIterator::TablesMeta(it) => it.next(),
        CassIterator::UserTypes(it) => it.next(),
        CassIterator::MaterializedViewsMeta(CassMaterializedViewsMetaIterator::FromKeyspace(it)) => it.next(),
        CassIterator::MaterializedViewsMeta(CassMaterializedViewsMetaIterator::FromTable(it)) => it.next(),
        CassIterator::ColumnsMeta(CassColumnsMetaIterator::FromTable(it)) => it.next(),
        CassIterator::ColumnsMeta(CassColumnsMetaIterator::FromView(it)) => it.next(),
    }
}
/// The element at walk position `p` of decoded elements: for a map, the key
/// of entry p / 2 at an even position and its value at an odd one.
pub open spec fn collection_at(c: Collection, p: int) -> Option<CassValue> {
    match c {
        Collection::ListItems(v) => if 0 <= p < v@.len() {
            Some(v@[p])
        } else {
            None
        },
        Collection::SetItems(v) => if 0 <= p < v@.len() {
            Some(v@[p])
        } else {
            None
        },
        Collection::TupleItems(v) => if 0 <= p < v@.len() {
            Some(v@[p])
        } else {
            None
        },
        Collection::MapEntries(es) => if 0 <= p < 2 * es@.len() {
            if p % 2 == 0 {
                Some(es@[p / 2].0)
            } else {
                Some(es@[p / 2].1)
            }
        } else {
            None
        },
        Collection::UdtFields(_) => None,
    }
}

/// `r` is the target of the entry of `s` at the cursor, if the cursor is on one.
pub open spec fn shared_at_cursor<T>(s: Seq<Arc<T>>, position: Option<usize>, r: Option<&T>) -> bool {
    match r {
        Some(t) => current_index(position, s.len() as usize) matches Some(i) && *t == *s[i as int],
        None => current_index(position, s.len() as usize) is None,
    }
}

fn get_shared_at<'a, T>(s: &'a Vec<Arc<T>>, position: Option<usize>) -> (r: Option<&'a T>)
    ensures
        shared_at_cursor(s@, position, r),
{
    match position {
        Some(p) => if p < s.len() {
            Some(&*s[p])
        } else {
            None
        },
        None => None,
    }
}

/// The row the result iterator is on.
pub fn cass_iterator_get_row<'b>(iterator: &'b CassIterator) -> (r: Option<&'b CassRow>)
    ensures
        match *iterator {
            CassIterator::Result(CassResultIterator::Rows(it)) => deref_opt(r) == it.current_row,
            _ => r is None,
        },
        !iterator.has_current() ==> r is None,
{
    match iterator {
        CassIterator::Result(CassResultIterator::Rows(it)) => match &it.current_row {
            Some(row) => Some(row),
            None => None,
        },
        _ => None,
    }
}

/// The value the row iterator is on.
pub fn cass_iterator_get_column<'a>(iterator: &CassIterator<'a>) -> (r: Option<&'a CassValue>)
    ensures
        match *iterator {
            CassIterator::Row(it) => deref_opt(r) == at_cursor(it.row.columns@, it.position),
            _ => r is None,
        },
        !iterator.has_current() ==> r is None,
{
    match iterator {
        CassIterator::Row(it) => {
            let row: &'a CassRow = it.row;
            get_at(&row.columns, it.position)
        },
        _ => None,
    }
}

/// The element a collection or tuple iterator is on.
pub fn cass_iterator_get_value<'b>(iterator: &'b CassIterator) -> (r: Option<&'b CassValue>)
    ensures
        match *iterator {
            CassIterator::Collection(it) | CassIterator::Tuple(it) => deref_opt(r) == match it.position {
                Some(p) => collection_at(it.value, p as int),
                None => None,
            },
            _ => r is None,
        },
        !iterator.has_current() ==> r is None,
{
    match iterator {
        CassIterator::Collection(it) | CassIterator::Tuple(it) => {
            let p = match it.position {
                Some(p) => p,
                None => {
                    return None;
                },
            };
            match &it.value {
                Collection::ListItems(v) | Collection::SetItems(v) | Collection::TupleItems(v) => {
                    if p < v.len() {
                        Some(&v[p])
                    } else {
                        None
                    }
                },
                Collection::MapEntries(es) => {
                    if p / 2 < es.len() {
                        if p % 2 == 0 {
                            Some(&es[p / 2].0)
                        } else {
                            Some(&es[p / 2].1)
                        }
                    } else {
                        None
                    }
                },
                Collection::UdtFields(_) => None,
            }
        },
        _ => None,
    }
}

/// The key of the entry a map iterator is on.
pub fn cass_iterator_get_map_key<'b>(iterator: &'b CassIterator) -> (r: Option<&'b CassValue>)
    ensures
        match *iterator {
            CassIterator::MapEntries(it) => match current_index(it.position, it.value@.len() as usize) {
                Some(i) => r matches Some(k) && *k == it.value@[i as int].0,
                None => r is None,
            },
            _ => r is None,
        },
        !iterator.has_current() ==> r is None,
{
    match iterator {
        CassIterator::MapEntries(it) => match get_at(&it.value, it.position) {
            Some(e) => Some(&e.0),
            None => None,
        },
        _ => None,
    }
}

/// The value of the entry a map iterator is on.
pub fn cass_iterator_get_map_value<'b>(iterator: &'b CassIterator) -> (r: Option<&'b CassValue>)
    ensures
        match *iterator {
            CassIterator::MapEntries(it) => match current_index(it.position, it.value@.len() as usize) {
                Some(i) => r matches Some(v) && *v == it.value@[i as int].1,
                None => r is None,
            },
            _ => r is None,
        },
        !iterator.has_current() ==> r is None,
{
    match iterator {
        CassIterator::MapEntries(it) => match get_at(&it.value, it.position) {
            Some(e) => Some(&e.1),
            None => None,
        },
        _ => None,
    }
}

/// The name of the field a user-type iterator is on; `BAD_PARAMS` when it
/// is on none or is another kind of iterator.
pub fn cass_iterator_get_user_type_field_name<'b>(iterator: &'b CassIterator) -> (r: Result<
    &'b [u8],
    CassError,
>)
    ensures
        match *iterator {
            CassIterator::Udt(it) => match current_index(it.position, it.value@.len() as usize) {
                Some(i) => r matches Ok(n) && n@ == it.value@[i as int].0@,
                None => r == Err::<&[u8], CassError>(CassError::CASS_ERROR_LIB_BAD_PARAMS),
            },
            _ => r == Err::<&[u8], CassError>(CassError::CASS_ERROR_LIB_BAD_PARAMS),
        },
{
    match iterator {
        CassIterator::Udt(it) => match get_at(&it.value, it.position) {
            Some(f) => Ok(f.0.as_slice()),
            None => Err(CassError::CASS_ERROR_LIB_BAD_PARAMS),
        },
        _ => Err(CassError::CASS_ERROR_LIB_BAD_PARAMS),
    }
}

/// The value of the field a user-type iterator is on.
pub fn cass_iterator_get_user_type_field_value<'b>(iterator: &'b CassIterator) -> (r: Option<
    &'b CassValue,
>)
    ensures
        match *iterator {
            CassIterator::Udt(it) => match current_index(it.position, it.value@.len() as usize) {
                Some(i) => r matches Some(v) && *v == it.value@[i as int].1,
                None => r is None,
            },
            _ => r is None,
        },
        !iterator.has_current() ==> r is None,
{
    match iterator {
        CassIterator::Udt(it) => match get_at(&it.value, it.position) {
            Some(f) => Some(&f.1),
            None => None,
        },
        _ => None,
    }
}

pub fn cass_iterator_get_keyspace_meta<'s>(iterator: &CassIterator<'s>) -> (r: Option<
    &'s CassKeyspaceMeta,
>)
    ensures
        match *iterator {
            CassIterator::KeyspacesMeta(it) => deref_opt(r) == at_cursor(it.value.keyspaces@, it.position),
            _ => r is None,
        },
        !iterator.has_current() ==> r is None,
{
    match iterator {
        CassIterator::KeyspacesMeta(it) => {
            let schema: &'s CassSchemaMeta = it.value;
            get_at(&schema.keyspaces, it.position)
        },
        _ => None,
    }
}

pub fn cass_iterator_get_table_meta<'s>(iterator: &CassIterator<'s>) -> (r: Option<&'s CassTableMeta>)
    ensures
        match *iterator {
            CassIterator::TablesMeta(it) => shared_at_cursor(it.value.tables@, it.position, r),
            _ => r is None,
        },
        !iterator.has_current() ==> r is None,
{
    match iterator {
        CassIterator::TablesMeta(it) => {
            let ks: &'s CassKeyspaceMeta = it.value;
            get_shared_at(&ks.tables, it.position)
        },
        _ => None,
    }
}

pub fn cass_iterator_get_user_type<'s>(iterator: &CassIterator<'s>) -> (r: Option<&'s CassDataType>)
    ensures
        match *iterator {
            CassIterator::UserTypes(it) => match current_index(
                it.position,
                it.value.user_defined_type_data_type@.len() as usize,
            ) {
                Some(i) => r matches Some(t) && *t == *it.value.user_defined_type_data_type@[i as int].1,
                None => r is None,
            },
            _ => r is None,
        },
        !iterator.has_current() ==> r is None,
{
    match iterator {
        CassIterator::UserTypes(it) => {
            let ks: &'s CassKeyspaceMeta = it.value;
            match get_at(&ks.user_defined_type_data_type, it.position) {
                Some(e) => Some(&*e.1),
                None => None,
            }
        },
        _ => None,
    }
}

pub fn cass_iterator_get_column_meta<'s>(iterator: &CassIterator<'s>) -> (r: Option<&'s CassColumnMeta>)
    ensures
        match *iterator {
            CassIterator::ColumnsMeta(CassColumnsMetaIterator::FromTable(it)) => deref_opt(r)
                == at_cursor(it.value.columns_metadata@, it.position),
            CassIterator::ColumnsMeta(CassColumnsMetaIterator::FromView(it)) => deref_opt(r)
                == at_cursor(it.value.view_metadata.columns_metadata@, it.position),
            _ => r is None,
        },
        !iterator.has_current() ==> r is None,
{
    match iterator {
        CassIterator::ColumnsMeta(CassColumnsMetaIterator::FromTable(it)) => {
            let t: &'s CassTableMeta = it.value;
            get_at(&t.columns_metadata, it.position)
        },
        CassIterator::ColumnsMeta(CassColumnsMetaIterator::FromView(it)) => {
            let v: &'s CassMaterializedViewMeta = it.value;
            get_at(&v.view_metadata.columns_metadata, it.position)
        },
        _ => None,
    }
}

pub fn cass_iterator_get_materialized_view_meta<'s>(iterator: &CassIterator<'s>) -> (r: Option<
    &'s CassMaterializedViewMeta,
>)
    ensures
        match *iterator {
            CassIterator::MaterializedViewsMeta(
                CassMaterializedViewsMetaIterator::FromKeyspace(it),
            ) => shared_at_cursor(it.value.views@, it.position, r),
            CassIterator::MaterializedViewsMeta(CassMaterializedViewsMetaIterator::FromTable(it)) => {
                shared_at_cursor(it.value.views@, it.position, r)
            },
            _ => r is None,
        },
        !iterator.has_current() ==> r is None,
{
    match iterator {
        CassIterator::MaterializedViewsMeta(CassMaterializedViewsMetaIterator::FromKeyspace(it)) => {
            let ks: &'s CassKeyspaceMeta = it.value;
            get_shared_at(&ks.views, it.position)
        },
        CassIterator::MaterializedViewsMeta(CassMaterializedViewsMetaIterator::FromTable(it)) => {
            let t: &'s CassTableMeta = it.value;
            get_shared_at(&t.views, it.position)
        },
        _ => None,
    }
}
/// An iterator over the rows of a result; one over nothing for a result
/// without rows.
pub fn cass_iterator_from_result<'result>(result: &'result CassResult) -> (r: CassIterator<'result>)
    ensures
        r.is_unstarted(),
        r.wf(),
        match result.kind {
            CassResultKind::NonRows => r matches CassIterator::Result(CassResultIterator::NonRows),
            CassResultKind::Rows(rr) => r matches CassIterator::Result(CassResultIterator::Rows(it))
                && *it.shared_data == *rr.shared_data,
        },
{
    let it = match &result.kind {
        CassResultKind::NonRows => CassResultIterator::NonRows,
        CassResultKind::Rows(rr) => CassResultIterator::Rows(
            CassRowsResultIterator { shared_data: &*rr.shared_data, position: None, current_row: None },
        ),
    };
    CassIterator::Result(it)
}

/// An iterator over the values of a row.
pub fn cass_iterator_from_row<'result>(row: &'result CassRow) -> (r: CassIterator<'result>)
    ensures
        r.is_unstarted(),
        r.wf(),
        r matches CassIterator::Row(it) && *it.row == *row,
{
    CassIterator::Row(CassRowIterator { row, position: None })
}

/// An iterator over the elements of a list or set, or over the keys and
/// values of a map taken alternately; `None` for a value of another type.
pub fn cass_iterator_from_collection<'result>(value: &CassValue) -> (r: Option<CassIterator<'result>>)
    ensures
        value.value_type.spec_is_collection() ==> (r matches Some(CassIterator::Collection(it))
            && decoded_collection(*value, Some(it.value)) && it.position is None
            && it.count == collection_len(it.value)),
        !value.value_type.spec_is_collection() ==> r is None,
{
    let is_collection = match &*value.value_type {
        CassDataType::ListType { .. } | CassDataType::SetType { .. } | CassDataType::MapType {
            ..
        } => true,
        _ => false,
    };
    if !is_collection {
        return None;
    }
    match collection_of(value) {
        Some(c) => {
            let count = match &c {
                Collection::ListItems(v) | Collection::SetItems(v) => v.len(),
                Collection::MapEntries(es) => {
                    proof {
                        lemma_map_cells_fit(value.value.bytes());
                    }
                    2 * es.len()
                },
                _ => 0,
            };
            Some(CassIterator::Collection(LegacyCassCollectionIterator { value: c, count, position: None }))
        },
        None => None,
    }
}

/// A map body holds fewer than 2^32 cells, so its entries fit twice over.
proof fn lemma_map_cells_fit(b: Option<Seq<u8>>)
    ensures
        counted_cells(b, 2).len() < 4294967296,
{
    if let Some(b) = b {
        if !(b.len() < 4 || be_i32(b) < 0) {
            lemma_cells_len(Some(b.skip(4)), 2 * (be_i32(b) as nat));
        }
    }
}

/// An iterator over the elements of a tuple; `None` for a value of another type.
pub fn cass_iterator_from_tuple<'result>(value: &CassValue) -> (r: Option<CassIterator<'result>>)
    ensures
        (*value.value_type) is TupleType ==> (r matches Some(CassIterator::Tuple(it))
            && decoded_collection(*value, Some(it.value)) && it.position is None
            && it.count == collection_len(it.value)),
        !((*value.value_type) is TupleType) ==> r is None,
{
    if let CassDataType::TupleType(_) = &*value.value_type {
        match collection_of(value) {
            Some(Collection::TupleItems(v)) => {
                let count = v.len();
                Some(
                    CassIterator::Tuple(
                        LegacyCassCollectionIterator {
                            value: Collection::TupleItems(v),
                            count,
                            position: None,
                        },
                    ),
                )
            },
            _ => None,
        }
    } else {
        None
    }
}

/// An iterator over the entries of a map; `None` for a value of another type.
pub fn cass_iterator_from_map<'result>(value: &CassValue) -> (r: Option<CassIterator<'result>>)
    ensures
        (*value.value_type) is MapType ==> (r matches Some(CassIterator::MapEntries(it))
            && decoded_collection(*value, Some(Collection::MapEntries(it.value))) && it.position is None
            && it.count == it.value@.len()),
        !((*value.value_type) is MapType) ==> r is None,
{
    if let CassDataType::MapType { .. } = &*value.value_type {
        match collection_of(value) {
            Some(Collection::MapEntries(es)) => {
                let count = es.len();
                Some(CassIterator::MapEntries(LegacyCassMapIterator { value: es, count, position: None }))
            },
            _ => None,
        }
    } else {
        None
    }
}

/// An iterator over the fields of a user-type value; `None` for a value of
/// another type.
pub fn cass_iterator_fields_from_user_type<'result>(value: &CassValue) -> (r: Option<
    CassIterator<'result>,
>)
    ensures
        (*value.value_type) is UserType ==> (r matches Some(CassIterator::Udt(it))
            && decoded_collection(*value, Some(Collection::UdtFields(it.value))) && it.position is None
            && it.count == it.value@.len()),
        !((*value.value_type) is UserType) ==> r is None,
{
    if let CassDataType::UserType { .. } = &*value.value_type {
        match collection_of(value) {
            Some(Collection::UdtFields(fs)) => {
                let count = fs.len();
                Some(CassIterator::Udt(LegacyCassUdtIterator { value: fs, count, position: None }))
            },
            _ => None,
        }
    } else {
        None
    }
}

pub fn cass_iterator_keyspaces_from_schema_meta<'schema>(schema_meta: &'schema CassSchemaMeta) -> (r:
    CassIterator<'schema>)
    ensures
        r.is_unstarted(),
        r.wf(),
        r matches CassIterator::KeyspacesMeta(it) && *it.value == *schema_meta,
{
    CassIterator::KeyspacesMeta(
        CassSchemaMetaIterator { value: schema_meta, count: schema_meta.keyspaces.len(), position: None },
    )
}

pub fn cass_iterator_tables_from_keyspace_meta<'schema>(keyspace_meta: &'schema CassKeyspaceMeta) -> (r:
    CassIterator<'schema>)
    ensures
        r.is_unstarted(),
        r.wf(),
        r matches CassIterator::TablesMeta(it) && *it.value == *keyspace_meta,
{
    CassIterator::TablesMeta(
        CassKeyspaceMetaIterator { value: keyspace_meta, count: keyspace_meta.tables.len(), position: None },
    )
}

pub fn cass_iterator_materialized_views_from_keyspace_meta<'schema>(
    keyspace_meta: &'schema CassKeyspaceMeta,
) -> (r: CassIterator<'schema>)
    ensures
        r.is_unstarted(),
        r.wf(),
        r matches CassIterator::MaterializedViewsMeta(
            CassMaterializedViewsMetaIterator::FromKeyspace(it),
        ) && *it.value == *keyspace_meta,
{
    CassIterator::MaterializedViewsMeta(
        CassMaterializedViewsMetaIterator::FromKeyspace(
            CassKeyspaceMetaIterator {
                value: keyspace_meta,
                count: keyspace_meta.views.len(),
                position: None,
            },
        ),
    )
}

pub fn cass_iterator_user_types_from_keyspace_meta<'schema>(keyspace_meta: &'schema CassKeyspaceMeta) -> (r:
    CassIterator<'schema>)
    ensures
        r.is_unstarted(),
        r.wf(),
        r matches CassIterator::UserTypes(it) && *it.value == *keyspace_meta,
{
    CassIterator::UserTypes(
        CassKeyspaceMetaIterator {
            value: keyspace_meta,
            count: keyspace_meta.user_defined_type_data_type.len(),
            position: None,
        },
    )
}

pub fn cass_iterator_columns_from_table_meta<'schema>(table_meta: &'schema CassTableMeta) -> (r:
    CassIterator<'schema>)
    ensures
        r.is_unstarted(),
        r.wf(),
        r matches CassIterator::ColumnsMeta(CassColumnsMetaIterator::FromTable(it)) && *it.value
            == *table_meta,
{
    CassIterator::ColumnsMeta(
        CassColumnsMetaIterator::FromTable(
            CassTableMetaIterator {
                value: table_meta,
                count: table_meta.columns_metadata.len(),
                position: None,
            },
        ),
    )
}

pub fn cass_iterator_materialized_views_from_table_meta<'schema>(table_meta: &'schema CassTableMeta) -> (r:
    CassIterator<'schema>)
    ensures
        r.is_unstarted(),
        r.wf(),
        r matches CassIterator::MaterializedViewsMeta(
            CassMaterializedViewsMetaIterator::FromTable(it),
        ) && *it.value == *table_meta,
{
    CassIterator::MaterializedViewsMeta(
        CassMaterializedViewsMetaIterator::FromTable(
            CassTableMetaIterator { value: table_meta, count: table_meta.views.len(), position: None },
        ),
    )
}

pub fn cass_iterator_columns_from_materialized_view_meta<'schema>(
    view_meta: &'schema CassMaterializedViewMeta,
) -> (r: CassIterator<'schema>)
    ensures
        r.is_unstarted(),
        r.wf(),
        r matches CassIterator::ColumnsMeta(CassColumnsMetaIterator::FromView(it)) && *it.value
            == *view_meta,
{
    CassIterator::ColumnsMeta(
        CassColumnsMetaIterator::FromView(
            CassViewMetaIterator {
                value: view_meta,
                count: view_meta.view_metadata.columns_metadata.len(),
                position: None,
            },
        ),
    )
}
/// Walking a map's keys and values alternately takes two positions per
/// entry: position 2k holds the key of entry k, position 2k + 1 its value,
/// and nothing lies past the last entry.
pub proof fn lemma_flattened_map_positions(es: Vec<(CassValue, CassValue)>, k: int)
    requires
        0 <= k < es@.len(),
    ensures
        collection_len(Collection::MapEntries(es)) == 2 * es@.len(),
        collection_at(Collection::MapEntries(es), 2 * k) == Some(es@[k].0),
        collection_at(Collection::MapEntries(es), 2 * k + 1) == Some(es@[k].1),
        collection_at(Collection::MapEntries(es), 2 * es@.len() as int) is None,
{
    assert((2 * k) / 2 == k && (2 * k) % 2 == 0);
    assert((2 * k + 1) / 2 == k && (2 * k + 1) % 2 == 1);
}
/// A walk over the elements of a list or set value.
pub struct CassListlikeIterator {
    pub items: Vec<CassValue>,
    pub position: Option<usize>,
}

impl CassListlikeIterator {
    /// `IsNull` for a null value, `Typecheck` for a value that is no list
    /// or set; else a walk over its decoded elements.
    pub fn new_from_value(value: &CassValue) -> (r: Result<CassListlikeIterator, NonNullDeserializationError>)
        ensures
            value.value.slice is None ==> r == Err::<CassListlikeIterator, _>(
                NonNullDeserializationError::IsNull,
            ),
            value.value.slice is Some && !((*value.value_type) is ListType || (*value.value_type) is SetType)
                ==> r == Err::<CassListlikeIterator, _>(NonNullDeserializationError::Typecheck),
            value.value.slice is Some && ((*value.value_type) is ListType || (*value.value_type) is SetType)
                ==> (r matches Ok(it) && it.position is None && (decoded_collection(
                *value,
                Some(Collection::ListItems(it.items)),
            ) || decoded_collection(*value, Some(Collection::SetItems(it.items))))),
    {
        if value.value.slice.is_none() {
            return Err(NonNullDeserializationError::IsNull);
        }
        match collection_of(value) {
            Some(Collection::ListItems(items)) | Some(Collection::SetItems(items)) => Ok(
                CassListlikeIterator { items, position: None },
            ),
            _ => Err(NonNullDeserializationError::Typecheck),
        }
    }

    pub fn next(&mut self) -> (r: bool)
        ensures
            final(self).items == old(self).items,
            final(self).position == Some(advanced(old(self).position, old(self).items@.len() as usize)),
            r == (advanced(old(self).position, old(self).items@.len() as usize)
                < old(self).items@.len() as usize),
    {
        let (p, ok) = step(self.position, self.items.len());
        self.position = Some(p);
        ok
    }

    /// The element the walk is on.
    pub fn current_value(&self) -> (r: Option<&CassValue>)
        ensures
            deref_opt(r) == at_cursor(self.items@, self.position),
    {
        get_at(&self.items, self.position)
    }
}

/// A walk over the entries of a map value, one entry per step.
pub struct CassMapIterator {
    pub entries: Vec<(CassValue, CassValue)>,
    pub position: Option<usize>,
}

impl CassMapIterator {
    /// `IsNull` for a null value, `Typecheck` for a value that is no map;
    /// else a walk over its decoded entries.
    pub fn new_from_value(value: &CassValue) -> (r: Result<CassMapIterator, NonNullDeserializationError>)
        ensures
            value.value.slice is None ==> r == Err::<CassMapIterator, _>(
                NonNullDeserializationError::IsNull,
            ),
            value.value.slice is Some && !((*value.value_type) is MapType) ==> r == Err::<
                CassMapIterator,
                _,
            >(NonNullDeserializationError::Typecheck),
            value.value.slice is Some && (*value.value_type) is MapType ==> (r matches Ok(it)
                && it.position is None && decoded_collection(
                *value,
                Some(Collection::MapEntries(it.entries)),
            )),
    {
        if value.value.slice.is_none() {
            return Err(NonNullDeserializationError::IsNull);
        }
        match collection_of(value) {
            Some(Collection::MapEntries(entries)) => Ok(CassMapIterator { entries, position: None }),
            _ => Err(NonNullDeserializationError::Typecheck),
        }
    }

    pub fn next(&mut self) -> (r: bool)
        ensures
            final(self).entries == old(self).entries,
            final(self).position == Some(advanced(old(self).position, old(self).entries@.len() as usize)),
            r == (advanced(old(self).position, old(self).entries@.len() as usize)
                < old(self).entries@.len() as usize),
    {
        let (p, ok) = step(self.position, self.entries.len());
        self.position = Some(p);
        ok
    }

    /// The entry the walk is on.
    pub fn current_entry(&self) -> (r: Option<&(CassValue, CassValue)>)
        ensures
            deref_opt(r) == at_cursor(self.entries@, self.position),
    {
        get_at(&self.entries, self.position)
    }
}

/// Which half of the current entry a key-then-value walk is on.
#[derive(Clone, Copy, Debug, PartialEq, Eq, Structural)]
pub enum CassMapCollectionIteratorState {
    Key,
    Value,
}

/// A walk over a map's keys and values alternately, built on the walk over
/// its entries: the entry walk steps only on every other step.
pub struct CassMapCollectionIterator {
    pub iterator: CassMapIterator,
    pub state: Option<CassMapCollectionIteratorState>,
}

impl CassMapCollectionIterator {
    pub fn new_from_value(value: &CassValue) -> (r: Result<CassMapCollectionIterator, NonNullDeserializationError>)
        ensures
            value.value.slice is None ==> r == Err::<CassMapCollectionIterator, _>(
                NonNullDeserializationError::IsNull,
            ),
            value.value.slice is Some && !((*value.value_type) is MapType) ==> r == Err::<
                CassMapCollectionIterator,
                _,
            >(NonNullDeserializationError::Typecheck),
            value.value.slice is Some && (*value.value_type) is MapType ==> (r matches Ok(it)
                && it.state is None && it.iterator.position is None && decoded_collection(
                *value,
                Some(Collection::MapEntries(it.iterator.entries)),
            )),
    {
        let iterator = CassMapIterator::new_from_value(value)?;
        Ok(CassMapCollectionIterator { iterator, state: None })
    }

    /// From nothing or a value, steps the entry walk and stands on the key;
    /// from a key, stands on the value of the same entry. On failure the
    /// state stays.
    pub fn next(&mut self) -> (r: bool)
        ensures
            final(self).iterator.entries == old(self).iterator.entries,
            ({
                let n = old(self).iterator.entries@.len() as usize;
                let i = advanced(old(self).iterator.position, n);
                match old(self).state {
                    Some(CassMapCollectionIteratorState::Key) => r && final(self).state == Some(
                        CassMapCollectionIteratorState::Value,
                    ) && final(self).iterator.position == old(self).iterator.position,
                    _ => {
                        &&& r == (i < n)
                        &&& final(self).iterator.position == Some(i)
                        &&& r ==> final(self).state == Some(CassMapCollectionIteratorState::Key)
                        &&& !r ==> final(self).state == old(self).state
                    },
                }
            }),
    {
        let (new_state, ok) = match self.state {
            None => (CassMapCollectionIteratorState::Key, self.iterator.next()),
            Some(CassMapCollectionIteratorState::Key) => (CassMapCollectionIteratorState::Value, true),
            Some(CassMapCollectionIteratorState::Value) => (
                CassMapCollectionIteratorState::Key,
                self.iterator.next(),
            ),
        };
        if ok {
            self.state = Some(new_state);
        }
        ok
    }

    /// The key or the value the walk is on: position 2i or 2i + 1 of the
    /// map's keys and values taken alternately, for entry i.
    pub fn current_value(&self) -> (r: Option<&CassValue>)
        ensures
            deref_opt(r) == match (current_index(
                self.iterator.position,
                self.iterator.entries@.len() as usize,
            ), self.state) {
                (Some(i), Some(CassMapCollectionIteratorState::Key)) => collection_at(
                    Collection::MapEntries(self.iterator.entries),
                    2 * i,
                ),
                (Some(i), Some(CassMapCollectionIteratorState::Value)) => collection_at(
                    Collection::MapEntries(self.iterator.entries),
                    2 * i + 1,
                ),
                _ => None,
            },
    {
        let entry = match self.iterator.current_entry() {
            Some(e) => e,
            None => {
                return None;
            },
        };
        proof {
            let i = self.iterator.position->Some_0 as int;
            lemma_flattened_map_positions(self.iterator.entries, i);
        }
        match self.state {
            Some(CassMapCollectionIteratorState::Key) => Some(&entry.0),
            Some(CassMapCollectionIteratorState::Value) => Some(&entry.1),
            None => None,
        }
    }
}

} // verus!
