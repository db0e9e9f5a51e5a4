//! Date-partitioned bulk loading: partition (index) names, the idempotency
//! gate that skips a partition already holding documents, fixed-size
//! chunking of record sequences, composite document ids, and the shape of the
//! per-item bulk response.
use vstd::prelude::*;
use crate::num_text::{digit_char, pad2, pad4};

verus! {

/// A calendar day, year, month and day of month, as the partition key.
#[derive(Clone, Copy, PartialEq, Eq, Structural, Debug)]
pub struct DateYmd {
    pub year: u32,
    pub month: u32,
    pub day: u32,
}

impl DateYmd {
    pub open spec fn wf(self) -> bool {
        &&& self.year <= 9999
        &&& 1 <= self.month <= 12
        &&& 1 <= self.day <= 31
    }
}

/// The two record kinds that get partitions of their own.
#[derive(Clone, Copy, PartialEq, Eq, Structural, Debug)]
pub enum IndexKind {
    Library,
    Book,
}

pub open spec fn spec_kind_prefix(k: IndexKind) -> Seq<char> {
    match k {
        IndexKind::Library => "library-"@,
        IndexKind::Book => "book-"@,
    }
}

/// `<kind>-YYYY-MM-DD`: the partition name for one day and one record kind.
pub open spec fn spec_index_name(k: IndexKind, d: DateYmd) -> Seq<char> {
    spec_kind_prefix(k) + seq![
        digit_char(d.year as int / 1000),
        digit_char(d.year as int / 100 % 10),
        digit_char(d.year as int / 10 % 10),
        digit_char(d.year as int % 10),
    ] + "-"@ + seq![digit_char(d.month as int / 10), digit_char(d.month as int % 10)] + "-"@
        + seq![digit_char(d.day as int / 10), digit_char(d.day as int % 10)]
}

/// Renders the dated partition name for one record kind.
pub fn index_name(k: IndexKind, d: DateYmd) -> (r: String)
    requires
        d.wf(),
    ensures
        r@ == spec_index_name(k, d),
{
    let mut s = match k {
        IndexKind::Library => "library-".to_owned(),
        IndexKind::Book => "book-".to_owned(),
    };
    s.append(pad4(d.year as u64).as_str());
    s.append("-");
    s.append(pad2(d.month as u64).as_str());
    s.append("-");
    s.append(pad2(d.day as u64).as_str());
    proof {
        assert(s@ =~= spec_index_name(k, d));
    }
    s
}

/// `{scope}-{key}`: the deterministic document id for one record, composed of
/// its owning scope (the library code) and its natural key (the ISBN).
pub fn composite_doc_id(scope: &str, key: &str) -> (r: String)
    ensures
        r@ == scope@ + "-"@ + key@,
{
    let mut s = scope.to_owned();
    s.append("-");
    s.append(key);
    proof {
        assert(s@ =~= scope@ + "-"@ + key@);
    }
    s
}

/// How many chunks a sequence of `n` records makes at a given chunk size.
pub open spec fn spec_ceil_div(n: int, size: int) -> int {
    (n + size - 1) / size
}

/// The record sequence cut into chunks of `size`, in order; every chunk but
/// the last is full, and none is empty.
pub open spec fn spec_chunks<T>(s: Seq<T>, size: int) -> Seq<Seq<T>>
    decreases s.len(),
    when size > 0
{
    if s.len() == 0 {
        Seq::empty()
    } else if s.len() <= size {
        seq![s]
    } else {
        seq![s.subrange(0, size)] + spec_chunks(s.subrange(size, s.len() as int), size)
    }
}

/// Law: a sequence of `n` records is submitted in exactly
/// `ceil(n / size)` chunks; in particular one chunk suffices exactly when
/// `n` is no more than the chunk size (and nonzero).
pub proof fn lemma_chunk_count<T>(s: Seq<T>, size: int)
    requires
        size > 0,
    ensures
        spec_chunks(s, size).len() == spec_ceil_div(s.len() as int, size),
        0 < s.len() <= size ==> spec_chunks(s, size).len() == 1,
    decreases s.len(),
{
    let n = s.len() as int;
    if s.len() == 0 {
        assert((0 + size - 1) / size == 0) by (nonlinear_arith)
            requires
                size > 0,
        ;
    } else if s.len() <= size {
        assert((n + size - 1) / size == 1) by (nonlinear_arith)
            requires
                size > 0 && 0 < n <= size,
        ;
    } else {
        lemma_chunk_count(s.subrange(size, s.len() as int), size);
        assert(1 + (n - size + size - 1) / size == (n + size - 1) / size) by (nonlinear_arith)
            requires
                size > 0 && n > size,
        ;
    }
}

/// Cuts the records into chunks of at most `size`, preserving order.
pub fn chunk_records<T>(records: Vec<T>, size: usize) -> (r: Vec<Vec<T>>)
    requires
        size > 0,
    ensures
        r@.map_values(|c: Vec<T>| c@) == spec_chunks(records@, size as int),
{
    let ghost whole = records@;
    let mut rest = records;
    let mut out: Vec<Vec<T>> = Vec::new();
    while rest.len() > size
        invariant
            size > 0,
            spec_chunks(whole, size as int) =~= out@.map_values(|c: Vec<T>| c@) + spec_chunks(
                rest@,
                size as int,
            ),
        decreases rest@.len(),
    {
        let tail = rest.split_off(size);
        proof {
            assert(out@.push(rest).map_values(|c: Vec<T>| c@) =~= out@.map_values(
                |c: Vec<T>| c@,
            ).push(rest@));
        }
        out.push(rest);
        rest = tail;
    }
    if rest.len() > 0 {
        proof {
            assert(out@.push(rest).map_values(|c: Vec<T>| c@) =~= out@.map_values(
                |c: Vec<T>| c@,
            ).push(rest@));
        }
        out.push(rest);
    }
    proof {
        assert(out@.map_values(|c: Vec<T>| c@) =~= spec_chunks(whole, size as int));
    }
    out
}

/// What the loader decides before writing one partition scope: skip it
/// entirely, or load it in a number of chunked submissions.
#[derive(Clone, Copy, PartialEq, Eq, Structural, Debug)]
pub enum LoadPlan {
    Skip,
    Load { batches: usize },
}

/// The idempotency gate and the chunk plan in one decision: a rerun against a
/// scope that already holds documents skips the whole write; otherwise the
/// records go out in `ceil(n / chunk_size)` submissions.
pub fn plan_partition(skip_if_exists: bool, existing_count: u64, n_records: usize, chunk_size: usize) -> (r:
    LoadPlan)
    requires
        chunk_size > 0,
    ensures
        r is Skip <==> (skip_if_exists && existing_count > 0),
        r matches LoadPlan::Load { batches } ==> batches == spec_ceil_div(
            n_records as int,
            chunk_size as int,
        ),
{
    if skip_if_exists && existing_count > 0 {
        LoadPlan::Skip
    } else {
        let batches = if n_records == 0 {
            0
        } else {
            (n_records - 1) / chunk_size + 1
        };
        proof {
            let n = n_records as int;
            let c = chunk_size as int;
            if n == 0 {
                assert((0 + c - 1) / c == 0) by (nonlinear_arith)
                    requires
                        c > 0,
                ;
            } else {
                assert((n - 1) / c + 1 == (n + c - 1) / c) by (nonlinear_arith)
                    requires
                        c > 0 && n > 0,
                ;
                assert((n - 1) / c + 1 <= n) by (nonlinear_arith)
                    requires
                        c > 0 && n > 0,
                ;
            }
        }
        LoadPlan::Load { batches }
    }
}

/// The refresh mode a partition's writes request: library writes wait to be
/// searchable (the set is small and read shortly after); book writes do not,
/// trading immediate visibility for throughput.
pub fn refresh_mode(k: IndexKind) -> (r: String)
    ensures
        k is Library ==> r@ == "wait_for"@,
        k is Book ==> r@ == "false"@,
{
    match k {
        IndexKind::Library => "wait_for".to_owned(),
        IndexKind::Book => "false".to_owned(),
    }
}

/// The shared payload of one bulk response item: the index written to, the
/// id the document got, and the per-item status.
#[derive(Clone, Debug)]
pub struct BulkActionContent {
    pub index: String,
    pub id: String,
    pub status: i16,
}

/// One item of a bulk response: a tagged union over the operation kinds, each
/// carrying the same payload shape.
#[derive(Clone, Debug)]
pub enum BulkResponseItem {
    Create(BulkActionContent),
    Delete(BulkActionContent),
    Index(BulkActionContent),
    Update(BulkActionContent),
}

impl BulkResponseItem {
    /// The payload, whichever operation kind the item is tagged with.
    pub open spec fn spec_content(self) -> BulkActionContent {
        match self {
            BulkResponseItem::Create(c) => c,
            BulkResponseItem::Delete(c) => c,
            BulkResponseItem::Index(c) => c,
            BulkResponseItem::Update(c) => c,
        }
    }

    /// Extracts the shared payload regardless of the variant.
    pub fn content(&self) -> (r: &BulkActionContent)
        ensures
            *r == self.spec_content(),
    {
        match self {
            BulkResponseItem::Create(c) => c,
            BulkResponseItem::Delete(c) => c,
            BulkResponseItem::Index(c) => c,
            BulkResponseItem::Update(c) => c,
        }
    }
}

/// The ids assigned to the documents of one bulk response, in order.
pub fn collect_ids(items: &Vec<BulkResponseItem>) -> (r: Vec<String>)
    ensures
        r@.len() == items@.len(),
        forall|i: int| 0 <= i < items@.len() ==> r@[i] == #[trigger] items@[i].spec_content().id,
{
    let mut out: Vec<String> = Vec::new();
    let mut i: usize = 0;
    while i < items.len()
        invariant
            0 <= i <= items@.len(),
            out@.len() == i,
            forall|k: int| 0 <= k < i ==> out@[k] == #[trigger] items@[k].spec_content().id,
        decreases items@.len() - i,
    {
        out.push(items[i].content().id.clone());
        i += 1;
    }
    out
}

} // verus!
