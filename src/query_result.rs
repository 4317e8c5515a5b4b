//! Query results: shared column metadata, rows of decoded values, and the
//! result container that decodes its first row eagerly.
use std::sync::Arc;
use vstd::prelude::*;
use crate::names::{bytes_eq, bytes_eq_ignore_ascii_case, copy_bytes, eq_ignore_ascii_case};
use crate::raw_value::{
    deserialize, normalized_slice, opt_bytes, spec_item_count, CassRawValue,
    CollectionLengthDeserializationError,
};
use crate::types::{CassDataType, CassError, CassValueType};

verus! {

/// A column of a result: its name and its resolved type.
pub struct CassColumnSpec {
    pub name: Vec<u8>,
    pub data_type: Arc<CassDataType>,
}

/// The ordered columns of a result; shared between the result, its rows and
/// prepared statements.
pub struct CassResultMetadata {
    pub col_specs: Vec<CassColumnSpec>,
}

impl CassResultMetadata {
    /// Metadata for columns given as (name, type) pairs, in that order.
    pub fn from_column_specs(col_specs: Vec<(Vec<u8>, CassDataType)>) -> (r: CassResultMetadata)
        ensures
            r.col_specs@.len() == col_specs@.len(),
            forall|i: int|
                0 <= i < col_specs@.len() ==> (#[trigger] r.col_specs@[i]).name
                    == col_specs@[i].0 && *r.col_specs@[i].data_type == col_specs@[i].1,
    {
        let mut specs = col_specs;
        let ghost orig = specs@;
        let mut out: Vec<CassColumnSpec> = Vec::new();
        while specs.len() > 0
            invariant
                out@.len() + specs@.len() == orig.len(),
                specs@ == orig.skip(out@.len() as int),
                forall|i: int|
                    0 <= i < out@.len() ==> (#[trigger] out@[i]).name == orig[i].0
                        && *out@[i].data_type == orig[i].1,
            decreases specs@.len(),
        {
            let (name, typ) = specs.remove(0);
            assert((name, typ) == orig.skip(out@.len() as int)[0]);
            out.push(CassColumnSpec { name, data_type: Arc::new(typ) });
            assert(specs@ =~= orig.skip(out@.len() as int));
        }
        CassResultMetadata { col_specs: out }
    }
}

/// A value of a row or of a collection: its decoded bytes and its type.
pub struct CassValue {
    pub value: CassRawValue,
    pub value_type: Arc<CassDataType>,
}

impl CassValue {
    /// The value is what decoding `v` as a value of type `t` gives.
    pub open spec fn decoded_from(&self, t: CassDataType, v: Option<Seq<u8>>) -> bool {
        *self.value_type == t && self.value.decodes_from(t, v)
    }
}

/// Whether the encoded value `v` of type `t` decodes.
pub open spec fn decodes(t: CassDataType, v: Option<Seq<u8>>) -> bool {
    spec_item_count(t, normalized_slice(t, v)) is Ok
}

/// A row as the frame holds it: one encoded value per column (`None` for null).
pub type RawRow = Vec<Option<Vec<u8>>>;

/// The rows of a result as the frame holds them.
pub struct CassRawRows {
    pub rows: Vec<RawRow>,
}

/// A row: its decoded values, column by column, and the metadata that names
/// and types the columns.
pub struct CassRow {
    pub columns: Vec<CassValue>,
    pub result_metadata: Arc<CassResultMetadata>,
}

pub open spec fn min(a: int, b: int) -> int {
    if a < b {
        a
    } else {
        b
    }
}

/// Whether every column of the raw row decodes under the metadata.
pub open spec fn row_decodes(raw: Seq<Option<Vec<u8>>>, md: CassResultMetadata) -> bool {
    forall|i: int|
        0 <= i < min(raw.len() as int, md.col_specs@.len() as int) ==> decodes(
            *md.col_specs@[i].data_type,
            opt_bytes(#[trigger] raw[i]),
        )
}

/// The first column of the raw row that fails to decode under the metadata.
pub open spec fn first_bad_column(raw: Seq<Option<Vec<u8>>>, md: CassResultMetadata, i: int) -> bool {
    &&& 0 <= i < min(raw.len() as int, md.col_specs@.len() as int)
    &&& !decodes(*md.col_specs@[i].data_type, opt_bytes(raw[i]))
    &&& forall|j: int| 0 <= j < i ==> decodes(*md.col_specs@[j].data_type, opt_bytes(#[trigger] raw[j]))
}

impl CassRow {
    /// The row is the raw row `raw` decoded under `md`.
    pub open spec fn decoded_from(&self, raw: Seq<Option<Vec<u8>>>, md: CassResultMetadata) -> bool {
        &&& *self.result_metadata == md
        &&& self.columns@.len() == min(raw.len() as int, md.col_specs@.len() as int)
        &&& forall|i: int|
            0 <= i < self.columns@.len() ==> (#[trigger] self.columns@[i]).decoded_from(
                *md.col_specs@[i].data_type,
                opt_bytes(raw[i]),
            )
    }
}

/// Why a row could not be decoded.
#[derive(Clone, Copy, Debug, PartialEq, Eq, Structural)]
pub enum RowDeserializationError {
    /// The column at `column_index` is malformed.
    ColumnDeserializationFailed { column_index: usize, err: CollectionLengthDeserializationError },
}

fn copy_cell(c: &Option<Vec<u8>>) -> (r: Option<Vec<u8>>)
    ensures
        opt_bytes(r) == opt_bytes(*c),
{
    match c {
        Some(b) => Some(copy_bytes(b.as_slice())),
        None => None,
    }
}

impl CassRow {
    /// Pairs each decoded value with the type of its column; a value past the
    /// last column is dropped.
    pub fn from_row_and_metadata(row: Vec<CassRawValue>, result_metadata: &Arc<CassResultMetadata>) -> (r:
        CassRow)
        ensures
            *r.result_metadata == **result_metadata,
            r.columns@.len() == min(row@.len() as int, result_metadata.col_specs@.len() as int),
            forall|i: int|
                0 <= i < r.columns@.len() ==> (#[trigger] r.columns@[i]).value == row@[i]
                    && *r.columns@[i].value_type == *result_metadata.col_specs@[i].data_type,
    {
        let mut row = row;
        let ghost orig = row@;
        let n = if row.len() < result_metadata.col_specs.len() {
            row.len()
        } else {
            result_metadata.col_specs.len()
        };
        let mut columns: Vec<CassValue> = Vec::new();
        let mut i: usize = 0;
        while i < n
            invariant
                n == min(orig.len() as int, result_metadata.col_specs@.len() as int),
                i <= n,
                columns@.len() == i,
                row@ == orig.skip(i as int),
                forall|j: int|
                    0 <= j < i ==> (#[trigger] columns@[j]).value == orig[j]
                        && *columns@[j].value_type == *result_metadata.col_specs@[j].data_type,
            decreases n - i,
        {
            let value = row.remove(0);
            assert(value == orig.skip(i as int)[0]);
            let value_type = result_metadata.col_specs[i].data_type.clone();
            columns.push(CassValue { value, value_type });
            i = i + 1;
            assert(row@ =~= orig.skip(i as int));
        }
        CassRow { columns, result_metadata: result_metadata.clone() }
    }
}

/// Decodes a raw row column by column under the metadata; fails at the
/// first malformed column.
pub fn decode_row(raw: &RawRow, metadata: &Arc<CassResultMetadata>) -> (r: Result<
    CassRow,
    RowDeserializationError,
>)
    ensures
        row_decodes(raw@, **metadata) ==> (r matches Ok(row) && row.decoded_from(raw@, **metadata)),
        !row_decodes(raw@, **metadata) ==> (r matches Err(
            RowDeserializationError::ColumnDeserializationFailed { column_index, err },
        ) && first_bad_column(raw@, **metadata, column_index as int)),
{
    let n = if raw.len() < metadata.col_specs.len() {
        raw.len()
    } else {
        metadata.col_specs.len()
    };
    let mut values: Vec<CassRawValue> = Vec::new();
    let mut i: usize = 0;
    while i < n
        invariant
            n == min(raw@.len() as int, metadata.col_specs@.len() as int),
            i <= n,
            values@.len() == i,
            forall|j: int|
                0 <= j < i ==> (#[trigger] values@[j]).decodes_from(
                    *metadata.col_specs@[j].data_type,
                    opt_bytes(raw@[j]),
                ),
        decreases n - i,
    {
        match deserialize(&*metadata.col_specs[i].data_type, copy_cell(&raw[i])) {
            Ok(value) => {
                values.push(value);
            },
            Err(err) => {
                assert forall|j: int| 0 <= j < i implies decodes(
                    *metadata.col_specs@[j].data_type,
                    opt_bytes(#[trigger] raw@[j]),
                ) by {
                    assert(values@[j].decodes_from(
                        *metadata.col_specs@[j].data_type,
                        opt_bytes(raw@[j]),
                    ));
                }
                return Err(
                    RowDeserializationError::ColumnDeserializationFailed { column_index: i, err },
                );
            },
        }
        i = i + 1;
    }
    assert forall|j: int| 0 <= j < n implies decodes(
        *metadata.col_specs@[j].data_type,
        opt_bytes(#[trigger] raw@[j]),
    ) by {
        assert(values@[j].decodes_from(*metadata.col_specs@[j].data_type, opt_bytes(raw@[j])));
    }
    let row = CassRow::from_row_and_metadata(values, metadata);
    assert forall|j: int| 0 <= j < row.columns@.len() implies (#[trigger] row.columns@[j]).decoded_from(
        *metadata.col_specs@[j].data_type,
        opt_bytes(raw@[j]),
    ) by {
        assert(values@[j].decodes_from(*metadata.col_specs@[j].data_type, opt_bytes(raw@[j])));
    }
    Ok(row)
}

/// Whether the paging response says more pages follow, and with which state.
pub enum PagingStateResponse {
    HasMorePages { state: Option<Vec<u8>> },
    NoMorePages,
}

/// The frame rows and the metadata, held together behind one shared allocation.
pub struct CassRowsResultSharedData {
    pub raw_rows: CassRawRows,
    pub metadata: Arc<CassResultMetadata>,
}

pub struct CassRowsResult {
    pub shared_data: Arc<CassRowsResultSharedData>,
    /// The first row, decoded when the result was built.
    pub first_row: Option<RowWithSelfBorrowedResultData>,
}

/// The first row of a result together with a share of the data it was
/// decoded from; the row is reached only through this container.
pub struct RowWithSelfBorrowedResultData {
    pub cart: Arc<CassRowsResultSharedData>,
    pub row: CassRow,
}

impl RowWithSelfBorrowedResultData {
    /// Decodes the first row of the shared rows: `None` when there are no
    /// rows, an error when the first row is malformed.
    pub fn first_from_raw_rows_and_metadata(raw_rows_and_metadata: Arc<CassRowsResultSharedData>) -> (r:
        Result<Option<RowWithSelfBorrowedResultData>, RowDeserializationError>)
        ensures
            ({
                let rows = raw_rows_and_metadata.raw_rows.rows@;
                let md = *raw_rows_and_metadata.metadata;
                &&& rows.len() == 0 ==> r == Ok::<
                    Option<RowWithSelfBorrowedResultData>,
                    RowDeserializationError,
                >(None)
                &&& rows.len() > 0 && row_decodes(rows[0]@, md) ==> (r matches Ok(Some(f))
                    && *f.cart == *raw_rows_and_metadata && f.row.decoded_from(rows[0]@, md))
                &&& rows.len() > 0 && !row_decodes(rows[0]@, md) ==> (r matches Err(
                    RowDeserializationError::ColumnDeserializationFailed { column_index, .. },
                ) && first_bad_column(rows[0]@, md, column_index as int))
            }),
    {
        if raw_rows_and_metadata.raw_rows.rows.len() == 0 {
            return Ok(None);
        }
        let row = decode_row(&raw_rows_and_metadata.raw_rows.rows[0], &raw_rows_and_metadata.metadata)?;
        Ok(Some(RowWithSelfBorrowedResultData { cart: raw_rows_and_metadata, row }))
    }

    /// The row, borrowed for as long as the container.
    pub fn row(&self) -> (r: &CassRow)
        ensures
            *r == self.row,
    {
        &self.row
    }
}

pub enum CassResultKind {
    NonRows,
    Rows(CassRowsResult),
}

pub struct CassResult {
    pub paging_state_response: PagingStateResponse,
    pub kind: CassResultKind,
}

/// What the driver hands over for an executed statement: an acknowledgement,
/// or rows with the columns that describe them.
pub enum QueryResultPayload {
    NonRows,
    Rows { col_specs: Vec<(Vec<u8>, CassDataType)>, raw_rows: CassRawRows },
}

/// `md` holds the columns `specs`, in order.
pub open spec fn metadata_from_specs(md: CassResultMetadata, specs: Seq<(Vec<u8>, CassDataType)>) -> bool {
    &&& md.col_specs@.len() == specs.len()
    &&& forall|i: int|
        0 <= i < specs.len() ==> (#[trigger] md.col_specs@[i]).name == specs[i].0
            && *md.col_specs@[i].data_type == specs[i].1
}

/// The metadata a rows result gets: the cached one if given, else one made
/// from the columns.
pub open spec fn metadata_chosen(
    md: CassResultMetadata,
    maybe_result_metadata: Option<Arc<CassResultMetadata>>,
    col_specs: Seq<(Vec<u8>, CassDataType)>,
) -> bool {
    match maybe_result_metadata {
        Some(m) => md == *m,
        None => metadata_from_specs(md, col_specs),
    }
}

/// `res` is the rows result built from `raw_rows`: it keeps the rows and the
/// chosen metadata, and holds the first row decoded (none for no rows).
pub open spec fn built_from_rows(
    res: CassResult,
    paging_state_response: PagingStateResponse,
    col_specs: Seq<(Vec<u8>, CassDataType)>,
    raw_rows: CassRawRows,
    maybe_result_metadata: Option<Arc<CassResultMetadata>>,
) -> bool {
    &&& res.paging_state_response == paging_state_response
    &&& match res.kind {
        CassResultKind::Rows(rr) => {
            &&& rr.shared_data.raw_rows == raw_rows
            &&& metadata_chosen(*rr.shared_data.metadata, maybe_result_metadata, col_specs)
            &&& match rr.first_row {
                None => raw_rows.rows@.len() == 0,
                Some(f) => raw_rows.rows@.len() > 0 && *f.cart == *rr.shared_data
                    && f.row.decoded_from(raw_rows.rows@[0]@, *rr.shared_data.metadata),
            }
        },
        CassResultKind::NonRows => false,
    }
}

impl CassResult {
    /// Builds a result. Rows get the cached metadata when there is one (a
    /// prepared statement), else metadata made from the columns; the first
    /// row is decoded now, and a malformed first row fails the whole result.
    pub fn from_result_payload(
        result: QueryResultPayload,
        paging_state_response: PagingStateResponse,
        maybe_result_metadata: Option<Arc<CassResultMetadata>>,
    ) -> (r: Result<CassResult, RowDeserializationError>)
        ensures
            result is NonRows ==> (r matches Ok(res) && res.kind is NonRows
                && res.paging_state_response == paging_state_response),
            result matches QueryResultPayload::Rows { col_specs, raw_rows } ==> match r {
                Ok(res) => built_from_rows(
                    res,
                    paging_state_response,
                    col_specs@,
                    raw_rows,
                    maybe_result_metadata,
                ),
                Err(RowDeserializationError::ColumnDeserializationFailed { column_index, .. }) => {
                    &&& raw_rows.rows@.len() > 0
                    &&& exists|md: CassResultMetadata|
                        metadata_chosen(md, maybe_result_metadata, col_specs@) && first_bad_column(
                            raw_rows.rows@[0]@,
                            md,
                            column_index as int,
                        )
                },
            },
    {
        match result {
            QueryResultPayload::NonRows => Ok(
                CassResult { paging_state_response, kind: CassResultKind::NonRows },
            ),
            QueryResultPayload::Rows { col_specs, raw_rows } => {
                let ghost specs = col_specs@;
                let ghost maybe = maybe_result_metadata;
                let metadata = match maybe_result_metadata {
                    Some(m) => m,
                    None => Arc::new(CassResultMetadata::from_column_specs(col_specs)),
                };
                let shared_data = Arc::new(CassRowsResultSharedData { raw_rows, metadata });
                let first_row = match RowWithSelfBorrowedResultData::first_from_raw_rows_and_metadata(
                    shared_data.clone(),
                ) {
                    Ok(f) => f,
                    Err(e) => {
                        assert(metadata_chosen(*shared_data.metadata, maybe, specs));
                        return Err(e);
                    },
                };
                Ok(
                    CassResult {
                        paging_state_response,
                        kind: CassResultKind::Rows(CassRowsResult { shared_data, first_row }),
                    },
                )
            },
        }
    }
}
/// The rows part of a result, if it has one.
pub open spec fn rows_of(result: CassResult) -> Option<CassRowsResult> {
    match result.kind {
        CassResultKind::Rows(rr) => Some(rr),
        CassResultKind::NonRows => None,
    }
}

/// The columns of a result: none for a result without rows.
pub open spec fn result_columns(result: CassResult) -> Seq<CassColumnSpec> {
    match result.kind {
        CassResultKind::Rows(rr) => rr.shared_data.metadata.col_specs@,
        CassResultKind::NonRows => Seq::empty(),
    }
}

pub fn cass_result_has_more_pages(result: &CassResult) -> (r: bool)
    ensures
        r == result.paging_state_response is HasMorePages,
{
    match &result.paging_state_response {
        PagingStateResponse::HasMorePages { .. } => true,
        PagingStateResponse::NoMorePages => false,
    }
}

pub fn cass_row_get_column(row: &CassRow, index: usize) -> (r: Option<&CassValue>)
    ensures
        index < row.columns@.len() ==> (r matches Some(v) && *v == row.columns@[index as int]),
        index >= row.columns@.len() ==> r is None,
{
    if index < row.columns.len() {
        Some(&row.columns[index])
    } else {
        None
    }
}

/// A name in double quotes is matched exactly, without its quotes.
pub open spec fn is_quoted(name: Seq<u8>) -> bool {
    name.len() >= 2 && name[0] == 34 && name[name.len() - 1] == 34
}

/// Whether the column name `col` answers the query `name`: exactly when the
/// query is quoted, else up to ASCII case.
pub open spec fn column_name_matches(col: Seq<u8>, name: Seq<u8>) -> bool {
    if is_quoted(name) {
        col == name.subrange(1, name.len() - 1)
    } else {
        eq_ignore_ascii_case(col, name)
    }
}

/// `i` is the first column of `specs` that answers `name`.
pub open spec fn first_match(specs: Seq<CassColumnSpec>, name: Seq<u8>, i: int) -> bool {
    &&& 0 <= i < specs.len()
    &&& column_name_matches(specs[i].name@, name)
    &&& forall|j: int| 0 <= j < i ==> !column_name_matches(#[trigger] specs[j].name@, name)
}

pub fn cass_row_get_column_by_name<'a>(row: &'a CassRow, name: &[u8]) -> (r: Option<&'a CassValue>)
    ensures
        match r {
            Some(v) => exists|i: int|
                first_match(row.result_metadata.col_specs@, name@, i) && i < row.columns@.len()
                    && *v == #[trigger] row.columns@[i],
            None => forall|i: int|
                first_match(row.result_metadata.col_specs@, name@, i) ==> i >= row.columns@.len(),
        },
{
    assert(name@.subrange(0, name@.len() as int) =~= name@);
    cass_row_get_column_by_name_n(row, name, name.len())
}

pub fn cass_row_get_column_by_name_n<'a>(row: &'a CassRow, name: &[u8], name_length: usize) -> (r:
    Option<&'a CassValue>)
    requires
        name_length <= name@.len(),
    ensures
        ({
            let q = name@.subrange(0, name_length as int);
            match r {
                Some(v) => exists|i: int|
                    first_match(row.result_metadata.col_specs@, q, i) && i < row.columns@.len()
                        && *v == #[trigger] row.columns@[i],
                None => forall|i: int|
                    first_match(row.result_metadata.col_specs@, q, i) ==> i
                        >= row.columns@.len(),
            }
        }),
{
    let q = vstd::slice::slice_subrange(name, 0, name_length);
    let quoted = q.len() >= 2 && q[0] == 34 && q[q.len() - 1] == 34;
    let key = if quoted {
        vstd::slice::slice_subrange(q, 1, q.len() - 1)
    } else {
        q
    };
    let specs = &row.result_metadata.col_specs;
    let mut i: usize = 0;
    while i < specs.len()
        invariant
            i <= specs@.len(),
            specs@ == row.result_metadata.col_specs@,
            name_length <= name@.len(),
            q@ == name@.subrange(0, name_length as int),
            quoted == is_quoted(q@),
            quoted ==> key@ == q@.subrange(1, q@.len() - 1),
            !quoted ==> key@ == q@,
            forall|j: int| 0 <= j < i ==> !column_name_matches(#[trigger] specs@[j].name@, q@),
        decreases specs@.len() - i,
    {
        let hit = if quoted {
            bytes_eq(specs[i].name.as_slice(), key)
        } else {
            bytes_eq_ignore_ascii_case(specs[i].name.as_slice(), key)
        };
        if hit {
            assert(column_name_matches(specs@[i as int].name@, q@));
            assert(first_match(specs@, q@, i as int));
            assert forall|j: int| first_match(specs@, q@, j) implies j == i by {
                if j > i {
                    assert(!column_name_matches(specs@[i as int].name@, q@));
                }
            }
            if i < row.columns.len() {
                let v = &row.columns[i];
                assert(first_match(row.result_metadata.col_specs@, q@, i as int) && i
                    < row.columns@.len() && *v == row.columns@[i as int]);
                return Some(v);
            } else {
                assert(forall|j: int|
                    first_match(row.result_metadata.col_specs@, q@, j) ==> j >= row.columns@.len());
                return None;
            }
        }
        i = i + 1;
    }
    assert forall|j: int| first_match(specs@, q@, j) implies j >= row.columns@.len() by {
        assert(!column_name_matches(specs@[j].name@, q@));
    }
    None
}

pub fn cass_result_column_name(result: &CassResult, index: usize) -> (r: Result<&[u8], CassError>)
    ensures
        index < result_columns(*result).len() ==> (r matches Ok(n) && n@ == result_columns(
            *result,
        )[index as int].name@),
        index >= result_columns(*result).len() ==> r == Err::<&[u8], CassError>(
            CassError::CASS_ERROR_LIB_INDEX_OUT_OF_BOUNDS,
        ),
{
    match &result.kind {
        CassResultKind::Rows(rr) => {
            if index < rr.shared_data.metadata.col_specs.len() {
                Ok(rr.shared_data.metadata.col_specs[index].name.as_slice())
            } else {
                Err(CassError::CASS_ERROR_LIB_INDEX_OUT_OF_BOUNDS)
            }
        },
        CassResultKind::NonRows => Err(CassError::CASS_ERROR_LIB_INDEX_OUT_OF_BOUNDS),
    }
}

pub fn cass_result_column_data_type(result: &CassResult, index: usize) -> (r: Option<&CassDataType>)
    ensures
        index < result_columns(*result).len() ==> (r matches Some(t) && *t == *result_columns(
            *result,
        )[index as int].data_type),
        index >= result_columns(*result).len() ==> r is None,
{
    match &result.kind {
        CassResultKind::Rows(rr) => {
            if index < rr.shared_data.metadata.col_specs.len() {
                Some(&*rr.shared_data.metadata.col_specs[index].data_type)
            } else {
                None
            }
        },
        CassResultKind::NonRows => None,
    }
}

pub fn cass_result_column_type(result: &CassResult, index: usize) -> (r: CassValueType)
    ensures
        index < result_columns(*result).len() ==> r == result_columns(
            *result,
        )[index as int].data_type.spec_value_type(),
        index >= result_columns(*result).len() ==> r == CassValueType::CASS_VALUE_TYPE_UNKNOWN,
{
    match cass_result_column_data_type(result, index) {
        Some(t) => t.get_value_type(),
        None => CassValueType::CASS_VALUE_TYPE_UNKNOWN,
    }
}

pub fn cass_value_type(value: &CassValue) -> (r: CassValueType)
    ensures
        r == value.value_type.spec_value_type(),
{
    value.value_type.get_value_type()
}

pub fn cass_value_data_type(value: &CassValue) -> (r: &CassDataType)
    ensures
        *r == *value.value_type,
{
    &*value.value_type
}

pub fn cass_value_is_null(value: &CassValue) -> (r: bool)
    ensures
        r == value.value.slice is None,
{
    value.value.slice.is_none()
}

pub fn cass_value_is_collection(value: &CassValue) -> (r: bool)
    ensures
        r == value.value_type.spec_is_collection(),
{
    match &*value.value_type {
        CassDataType::ListType { .. } | CassDataType::SetType { .. } | CassDataType::MapType {
            ..
        } => true,
        _ => false,
    }
}

pub fn cass_value_is_duration(value: &CassValue) -> (r: bool)
    ensures
        r == (value.value_type.spec_value_type() == CassValueType::CASS_VALUE_TYPE_DURATION),
{
    value.value_type.get_value_type() == CassValueType::CASS_VALUE_TYPE_DURATION
}

/// The precomputed item count, 0 where there is none.
pub fn cass_value_item_count(collection: &CassValue) -> (r: usize)
    ensures
        r == match collection.value.item_count {
            Some(n) => n,
            None => 0,
        },
{
    match collection.value.item_count {
        Some(n) => n,
        None => 0,
    }
}

/// The element type of a list or set, the key type of a map.
pub fn cass_value_primary_sub_type(collection: &CassValue) -> (r: CassValueType)
    ensures
        r == match *collection.value_type {
            CassDataType::ListType { typ, .. } => typ.spec_value_type(),
            CassDataType::SetType { typ, .. } => typ.spec_value_type(),
            CassDataType::MapType { key, .. } => key.spec_value_type(),
            _ => CassValueType::CASS_VALUE_TYPE_UNKNOWN,
        },
{
    match &*collection.value_type {
        CassDataType::ListType { typ, .. } => typ.get_value_type(),
        CassDataType::SetType { typ, .. } => typ.get_value_type(),
        CassDataType::MapType { key, .. } => key.get_value_type(),
        _ => CassValueType::CASS_VALUE_TYPE_UNKNOWN,
    }
}

/// The value type of a map.
pub fn cass_value_secondary_sub_type(collection: &CassValue) -> (r: CassValueType)
    ensures
        r == match *collection.value_type {
            CassDataType::MapType { val, .. } => val.spec_value_type(),
            _ => CassValueType::CASS_VALUE_TYPE_UNKNOWN,
        },
{
    match &*collection.value_type {
        CassDataType::MapType { val, .. } => val.get_value_type(),
        _ => CassValueType::CASS_VALUE_TYPE_UNKNOWN,
    }
}

pub fn cass_result_row_count(result: &CassResult) -> (r: usize)
    ensures
        r == match rows_of(*result) {
            Some(rr) => rr.shared_data.raw_rows.rows@.len(),
            None => 0,
        },
{
    match &result.kind {
        CassResultKind::Rows(rr) => rr.shared_data.raw_rows.rows.len(),
        CassResultKind::NonRows => 0,
    }
}

pub fn cass_result_column_count(result: &CassResult) -> (r: usize)
    ensures
        r == result_columns(*result).len(),
{
    match &result.kind {
        CassResultKind::Rows(rr) => rr.shared_data.metadata.col_specs.len(),
        CassResultKind::NonRows => 0,
    }
}

pub fn cass_result_first_row(result: &CassResult) -> (r: Option<&CassRow>)
    ensures
        r == match rows_of(*result) {
            Some(rr) => match rr.first_row {
                Some(f) => Some(&f.row),
                None => None,
            },
            None => None,
        },
{
    match &result.kind {
        CassResultKind::Rows(rr) => match &rr.first_row {
            Some(f) => Some(f.row()),
            None => None,
        },
        CassResultKind::NonRows => None,
    }
}

/// The paging state to resume from; `NO_PAGING_STATE` on the last page.
pub fn cass_result_paging_state_token(result: &CassResult) -> (r: Result<Option<&[u8]>, CassError>)
    ensures
        match result.paging_state_response {
            PagingStateResponse::NoMorePages => r == Err::<Option<&[u8]>, CassError>(
                CassError::CASS_ERROR_LIB_NO_PAGING_STATE,
            ),
            PagingStateResponse::HasMorePages { state: Some(s) } => (r matches Ok(Some(b)) && b@
                == s@),
            PagingStateResponse::HasMorePages { state: None } => r == Ok::<
                Option<&[u8]>,
                CassError,
            >(None),
        },
{
    match &result.paging_state_response {
        PagingStateResponse::HasMorePages { state } => match state {
            Some(s) => Ok(Some(s.as_slice())),
            None => Ok(None),
        },
        PagingStateResponse::NoMorePages => Err(CassError::CASS_ERROR_LIB_NO_PAGING_STATE),
    }
}

} // verus!
