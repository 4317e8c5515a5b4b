//! The elements of a collection, tuple or user-type value: cells read from
//! its bytes, each decoded under the element's type.
use std::sync::Arc;
use vstd::prelude::*;
use crate::names::copy_bytes;
use crate::query_result::{decodes, CassValue};
use crate::raw_value::{be_i32, deserialize, opt_bytes};
use crate::types::CassDataType;

verus! {

/// The cell at the start of `b`: its contents (`None` for null, which a
/// negative length encodes) and how many bytes it takes; `None` when the
/// bytes are too short.
pub open spec fn cell(b: Seq<u8>) -> Option<(Option<Seq<u8>>, int)> {
    if b.len() < 4 {
        None
    } else if be_i32(b) < 0 {
        Some((None, 4))
    } else if 4 + be_i32(b) <= b.len() {
        Some((Some(b.subrange(4, 4 + be_i32(b))), 4 + be_i32(b)))
    } else {
        None
    }
}

/// Up to `n` cells read one after another from `b`, up to the first one
/// that cannot be read.
pub open spec fn cells(b: Seq<u8>, n: nat) -> Seq<Option<Seq<u8>>>
    decreases n,
{
    if n == 0 {
        Seq::empty()
    } else {
        match cell(b) {
            None => Seq::empty(),
            Some((c, k)) => seq![c] + cells(b.skip(k), (n - 1) as nat),
        }
    }
}

pub open spec fn cell_views(v: Seq<Option<Vec<u8>>>) -> Seq<Option<Seq<u8>>> {
    v.map_values(|c: Option<Vec<u8>>| opt_bytes(c))
}

/// Reads the cell at `off`.
fn read_cell(b: &[u8], off: usize) -> (r: Option<(Option<Vec<u8>>, usize)>)
    requires
        off <= b@.len(),
    ensures
        match cell(b@.skip(off as int)) {
            None => r is None,
            Some((c, k)) => r matches Some((rc, next)) && opt_bytes(rc) == c && next == off + k,
        },
{
    let ghost s = b@.skip(off as int);
    if b.len() - off < 4 {
        return None;
    }
    assert(s[0] == b@[off as int] && s[1] == b@[off + 1] && s[2] == b@[off + 2] && s[3] == b@[off
        + 3]);
    let u: u64 = (b[off] as u64) * 16777216 + (b[off + 1] as u64) * 65536 + (b[off + 2] as u64) * 256
        + (b[off + 3] as u64);
    if b[off] >= 128 {
        return Some((None, off + 4));
    }
    let len = u as usize;
    if len > b.len() - off - 4 {
        return None;
    }
    let content = vstd::slice::slice_subrange(b, off + 4, off + 4 + len);
    assert(content@ =~= s.subrange(4, 4 + be_i32(s)));
    Some((Some(copy_bytes(content)), off + 4 + len))
}

/// Reads up to `n` cells from `b`.
pub fn read_cells(b: &[u8], n: usize) -> (r: Vec<Option<Vec<u8>>>)
    ensures
        cell_views(r@) == cells(b@, n as nat),
{
    let mut out: Vec<Option<Vec<u8>>> = Vec::new();
    let mut off: usize = 0;
    let mut k: usize = 0;
    assert(b@.skip(0) =~= b@);
    while k < n
        invariant
            k <= n,
            off <= b@.len(),
            out@.len() == k,
            cells(b@, n as nat) == cell_views(out@) + cells(b@.skip(off as int), (n - k) as nat),
        decreases n - k,
    {
        let ghost rest = b@.skip(off as int);
        match read_cell(b, off) {
            None => {
                assert(cells(rest, (n - k) as nat) =~= Seq::empty());
                assert(cell_views(out@) + Seq::<Option<Seq<u8>>>::empty() =~= cell_views(out@));
                return out;
            },
            Some((c, next)) => {
                let ghost cv = opt_bytes(c);
                assert(rest.skip(next - off) =~= b@.skip(next as int));
                assert(cells(rest, (n - k) as nat) == seq![cv] + cells(
                    b@.skip(next as int),
                    (n - k - 1) as nat,
                ));
                let ghost before = out@;
                out.push(c);
                assert(cell_views(out@) =~= cell_views(before).push(cv));
                off = next;
                k = k + 1;
            },
        }
    }
    assert(cells(b@.skip(off as int), 0) =~= Seq::empty());
    assert(cell_views(out@) + Seq::<Option<Seq<u8>>>::empty() =~= cell_views(out@));
    out
}
/// `items` are the leading cells of `cs` decoded, cell `i` under type
/// `ty(i)`, up to the first cell that does not decode.
pub open spec fn prefix_decoded(
    items: Seq<CassValue>,
    ty: spec_fn(int) -> CassDataType,
    cs: Seq<Option<Seq<u8>>>,
) -> bool {
    &&& items.len() <= cs.len()
    &&& forall|i: int| 0 <= i < items.len() ==> (#[trigger] items[i]).decoded_from(ty(i), cs[i])
    &&& items.len() < cs.len() ==> !decodes(ty(items.len() as int), cs[items.len() as int])
}

/// `es` are the leading pairs of cells of `cs` decoded as key and value, up
/// to the first pair that is incomplete or does not decode.
pub open spec fn entries_decoded(
    es: Seq<(CassValue, CassValue)>,
    kt: CassDataType,
    vt: CassDataType,
    cs: Seq<Option<Seq<u8>>>,
) -> bool {
    &&& 2 * es.len() <= cs.len()
    &&& forall|k: int|
        0 <= k < es.len() ==> (#[trigger] es[k]).0.decoded_from(kt, cs[2 * k]) && es[k].1.decoded_from(
            vt,
            cs[2 * k + 1],
        )
    &&& 2 * es.len() + 1 < cs.len() ==> !(decodes(kt, cs[2 * es.len() as int]) && decodes(
        vt,
        cs[2 * es.len() as int + 1],
    ))
}

/// Decodes each cell under the type that `types` gives for its position.
fn decode_cells(types: &Vec<Arc<CassDataType>>, cs: &Vec<Option<Vec<u8>>>, uniform: bool) -> (r: Vec<
    CassValue,
>)
    requires
        uniform ==> types@.len() == 1,
        !uniform ==> cs@.len() <= types@.len(),
    ensures
        prefix_decoded(
            r@,
            |i: int|
                if uniform {
                    *types@[0]
                } else {
                    *types@[i]
                },
            cell_views(cs@),
        ),
{
    let ghost ty = |i: int|
        if uniform {
            *types@[0]
        } else {
            *types@[i]
        };
    let mut out: Vec<CassValue> = Vec::new();
    let mut i: usize = 0;
    while i < cs.len()
        invariant
            i <= cs@.len(),
            out@.len() == i,
            uniform ==> types@.len() == 1,
            !uniform ==> cs@.len() <= types@.len(),
            ty == (|i: int|
                if uniform {
                    *types@[0]
                } else {
                    *types@[i]
                }),
            forall|j: int| 0 <= j < i ==> (#[trigger] out@[j]).decoded_from(ty(j), cell_views(cs@)[j]),
        decreases cs@.len() - i,
    {
        let t = if uniform {
            types[0].clone()
        } else {
            types[i].clone()
        };
        let c = match &cs[i] {
            Some(b) => Some(copy_bytes(b.as_slice())),
            None => None,
        };
        assert(opt_bytes(c) == cell_views(cs@)[i as int]);
        match deserialize(&*t, c) {
            Ok(value) => {
                out.push(CassValue { value, value_type: t });
            },
            Err(_) => {
                return out;
            },
        }
        i = i + 1;
    }
    out
}

/// Decodes the cells pairwise as map entries.
fn decode_entries(
    kt: &Arc<CassDataType>,
    vt: &Arc<CassDataType>,
    cs: &Vec<Option<Vec<u8>>>,
) -> (r: Vec<(CassValue, CassValue)>)
    ensures
        entries_decoded(r@, **kt, **vt, cell_views(cs@)),
{
    let mut out: Vec<(CassValue, CassValue)> = Vec::new();
    let mut k: usize = 0;
    while k < cs.len() / 2
        invariant
            k <= cs@.len() / 2,
            out@.len() == k,
            forall|j: int|
                0 <= j < k ==> (#[trigger] out@[j]).0.decoded_from(**kt, cell_views(cs@)[2 * j])
                    && out@[j].1.decoded_from(**vt, cell_views(cs@)[2 * j + 1]),
        decreases cs@.len() / 2 - k,
    {
        let kc = match &cs[2 * k] {
            Some(b) => Some(copy_bytes(b.as_slice())),
            None => None,
        };
        let vc = match &cs[2 * k + 1] {
            Some(b) => Some(copy_bytes(b.as_slice())),
            None => None,
        };
        assert(opt_bytes(kc) == cell_views(cs@)[2 * k]);
        assert(opt_bytes(vc) == cell_views(cs@)[2 * k + 1]);
        let key = match deserialize(&**kt, kc) {
            Ok(v) => v,
            Err(_) => {
                return out;
            },
        };
        let val = match deserialize(&**vt, vc) {
            Ok(v) => v,
            Err(_) => {
                return out;
            },
        };
        out.push(
            (CassValue { value: key, value_type: kt.clone() }, CassValue {
                value: val,
                value_type: vt.clone(),
            }),
        );
        k = k + 1;
    }
    out
}
/// The decoded elements of a value of a composite type.
pub enum Collection {
    ListItems(Vec<CassValue>),
    SetItems(Vec<CassValue>),
    MapEntries(Vec<(CassValue, CassValue)>),
    TupleItems(Vec<CassValue>),
    UdtFields(Vec<(Vec<u8>, CassValue)>),
}

/// The cells of a list, set or map body: after the four-byte element count,
/// `per_element` cells per element; none for null or a count that cannot be
/// read.
pub open spec fn counted_cells(b: Option<Seq<u8>>, per_element: nat) -> Seq<Option<Seq<u8>>> {
    match b {
        None => Seq::empty(),
        Some(b) => if b.len() < 4 || be_i32(b) < 0 {
            Seq::empty()
        } else {
            cells(b.skip(4), per_element * (be_i32(b) as nat))
        },
    }
}

/// The cells of a tuple or user-type value with `arity` slots; none for null.
pub open spec fn slot_cells(b: Option<Seq<u8>>, arity: nat) -> Seq<Option<Seq<u8>>> {
    match b {
        None => Seq::empty(),
        Some(b) => cells(b, arity),
    }
}

/// Reads the cells of a list, set or map body.
fn read_counted_cells(b: &Option<Vec<u8>>, per_element: usize) -> (r: Vec<Option<Vec<u8>>>)
    requires
        per_element == 1 || per_element == 2,
    ensures
        cell_views(r@) == counted_cells(opt_bytes(*b), per_element as nat),
{
    match b {
        None => Vec::new(),
        Some(b) => match crate::raw_value::read_collection_length(b.as_slice()) {
            Ok(n) => {
                let body = vstd::slice::slice_subrange(b.as_slice(), 4, b.len());
                assert(body@ =~= b@.skip(4));
                read_cells(body, per_element * n)
            },
            Err(_) => Vec::new(),
        },
    }
}

/// Reads the cells of a tuple or user-type value.
fn read_slot_cells(b: &Option<Vec<u8>>, arity: usize) -> (r: Vec<Option<Vec<u8>>>)
    ensures
        cell_views(r@) == slot_cells(opt_bytes(*b), arity as nat),
{
    match b {
        None => Vec::new(),
        Some(b) => read_cells(b.as_slice(), arity),
    }
}

/// The elements of a value of a composite type, each decoded under its own
/// type, up to the first one that cannot be read or decoded; `None` for a
/// value of any other type.
/// `r` is what decoding the elements of `value` gives.
pub open spec fn decoded_collection(value: CassValue, r: Option<Collection>) -> bool {
    match *value.value_type {
        CassDataType::ListType { typ, .. } => r matches Some(Collection::ListItems(items))
            && prefix_decoded(items@, |i: int| *typ, counted_cells(value.value.bytes(), 1)),
        CassDataType::SetType { typ, .. } => r matches Some(Collection::SetItems(items))
            && prefix_decoded(items@, |i: int| *typ, counted_cells(value.value.bytes(), 1)),
        CassDataType::MapType { key, val, .. } => r matches Some(Collection::MapEntries(es))
            && entries_decoded(es@, *key, *val, counted_cells(value.value.bytes(), 2)),
        CassDataType::TupleType(ts) => r matches Some(Collection::TupleItems(items))
            && prefix_decoded(
            items@,
            |i: int| *ts@[i],
            slot_cells(value.value.bytes(), ts@.len() as nat),
        ),
        CassDataType::UserType { fields, .. } => r matches Some(Collection::UdtFields(fs))
            && prefix_decoded(
            fs@.map_values(|f: (Vec<u8>, CassValue)| f.1),
            |i: int| *fields@[i].1,
            slot_cells(value.value.bytes(), fields@.len() as nat),
        ) && forall|i: int| 0 <= i < fs@.len() ==> (#[trigger] fs@[i]).0@ == fields@[i].0@,
        CassDataType::Value(_) => r is None,
    }
}

pub fn collection_of(value: &CassValue) -> (r: Option<Collection>)
    ensures
        decoded_collection(*value, r),
{
    match &*value.value_type {
        CassDataType::ListType { typ, .. } => {
            let cs = read_counted_cells(&value.value.slice, 1);
            let types = vec![typ.clone()];
            Some(Collection::ListItems(decode_cells(&types, &cs, true)))
        },
        CassDataType::SetType { typ, .. } => {
            let cs = read_counted_cells(&value.value.slice, 1);
            let types = vec![typ.clone()];
            Some(Collection::SetItems(decode_cells(&types, &cs, true)))
        },
        CassDataType::MapType { key, val, .. } => {
            let cs = read_counted_cells(&value.value.slice, 2);
            Some(Collection::MapEntries(decode_entries(key, val, &cs)))
        },
        CassDataType::TupleType(ts) => {
            let cs = read_slot_cells(&value.value.slice, ts.len());
            assert(cs@.len() <= ts@.len()) by {
                lemma_cells_len(opt_bytes(value.value.slice), ts@.len() as nat);
            }
            Some(Collection::TupleItems(decode_cells(ts, &cs, false)))
        },
        CassDataType::UserType { fields, .. } => {
            let cs = read_slot_cells(&value.value.slice, fields.len());
            assert(cs@.len() <= fields@.len()) by {
                lemma_cells_len(opt_bytes(value.value.slice), fields@.len() as nat);
            }
            let mut types: Vec<Arc<CassDataType>> = Vec::new();
            let mut i: usize = 0;
            while i < fields.len()
                invariant
                    i <= fields@.len(),
                    types@.len() == i,
                    forall|j: int| 0 <= j < i ==> *(#[trigger] types@[j]) == *fields@[j].1,
                decreases fields@.len() - i,
            {
                types.push(fields[i].1.clone());
                i = i + 1;
            }
            let values = decode_cells(&types, &cs, false);
            let mut fs: Vec<(Vec<u8>, CassValue)> = Vec::new();
            let mut values = values;
            let ghost vs = values@;
            let nf = fields.len();
            let mut k: usize = 0;
            while values.len() > 0
                invariant
                    nf == fields@.len(),
                    vs.len() <= nf,
                    fs@.len() == k,
                    k + values@.len() == vs.len(),
                    vs.len() <= fields@.len(),
                    values@ == vs.skip(k as int),
                    forall|j: int|
                        0 <= j < k ==> (#[trigger] fs@[j]).0@ == fields@[j].0@ && fs@[j].1 == vs[j],
                decreases values@.len(),
            {
                let v = values.remove(0);
                assert(v == vs.skip(k as int)[0]);
                fs.push((copy_bytes(fields[k].0.as_slice()), v));
                k = k + 1;
                assert(values@ =~= vs.skip(k as int));
            }
            assert(fs@.map_values(|f: (Vec<u8>, CassValue)| f.1) =~= vs);
            Some(Collection::UdtFields(fs))
        },
        CassDataType::Value(_) => None,
    }
}

/// At most `n` cells are read.
pub proof fn lemma_cells_len(b: Option<Seq<u8>>, n: nat)
    ensures
        slot_cells(b, n).len() <= n,
{
    if let Some(b) = b {
        lemma_cells_bound(b, n);
    }
}

proof fn lemma_cells_bound(b: Seq<u8>, n: nat)
    ensures
        cells(b, n).len() <= n,
    decreases n,
{
    if n > 0 {
        if let Some((c, k)) = cell(b) {
            lemma_cells_bound(b.skip(k), (n - 1) as nat);
        }
    }
}

} // verus!
