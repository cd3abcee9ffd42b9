//! The candidate store: the fixed candidate set and incremental fuzzy
//! matching over it, done by the `nucleo` matcher behind a small trusted
//! boundary.
//!
//! The store is modelled by three state functions — [`store_entries`], the
//! `(data, search key)` pairs in push order; [`store_pattern`], the query
//! text last handed to it; and [`store_settled`], whether background
//! matching has caught up with both — and two functions of values alone:
//! [`score_of`], the score nucleo's matcher assigns a key under a pattern,
//! and [`folded_of`], the grapheme-reduced text it stores and compares.
//! Every claim below them is what `nucleo`'s source shows, nothing more:
//! the ranking itself stays uninterpreted.
use vstd::prelude::*;

verus! {

/// Declares nucleo's matcher handle so it can stand in fields and
/// signatures.  The type is opaque to the verifier.
#[verifier::external_type_specification]
#[verifier::external_body]
#[verifier::reject_recursive_types(T)]
pub struct ExNucleo<T: Sync + Send + 'static>(nucleo::Nucleo<T>);

/// The `(data, search key)` pairs pushed into the store, in push order.
pub uninterp spec fn store_entries(m: nucleo::Nucleo<u32>) -> Seq<(u32, Seq<char>)>;

/// The pattern text the store was last asked to match against.
pub uninterp spec fn store_pattern(m: nucleo::Nucleo<u32>) -> Seq<char>;

/// Whether background matching has caught up: the store's snapshot holds
/// the complete result of matching the current pattern over every pushed
/// item.
pub uninterp spec fn store_settled(m: nucleo::Nucleo<u32>) -> bool;

/// The score nucleo's matcher gives `key` under the pattern text `pattern`,
/// parsed with smart case and smart normalization under the default
/// configuration; `None` when the key does not match.  A function of the
/// two texts alone.
pub uninterp spec fn score_of(pattern: Seq<char>, key: Seq<char>) -> Option<u32>;

/// The reduced text nucleo stores for a key and matches against: one unit
/// per grapheme cluster (the cluster's first codepoint), built by
/// `Utf32String`'s conversion from the key text.  A function of the text
/// alone; it differs from the text only where several codepoints form one
/// cluster (combining marks, and the carriage-return/line-feed pair).
pub uninterp spec fn folded_of(key: Seq<char>) -> Seq<char>;

/// The search key of entry `p`.
pub open spec fn key_at(m: nucleo::Nucleo<u32>, p: int) -> Seq<char> {
    store_entries(m)[p].1
}

/// Whether the store's current pattern matches entry `p`.
pub open spec fn entry_matches(m: nucleo::Nucleo<u32>, p: int) -> bool {
    score_of(store_pattern(m), key_at(m, p)) is Some
}

/// The score of entry `p` under the store's current pattern; meaningful
/// only when the entry matches.
pub open spec fn entry_score(m: nucleo::Nucleo<u32>, p: int) -> u32 {
    score_of(store_pattern(m), key_at(m, p))->0
}

/// Relies on `nucleo::Nucleo::new`: a fresh matcher holds no items and an
/// empty pattern.  One worker thread, one match column.
#[verifier::external_body]
pub(crate) fn new_store() -> (m: nucleo::Nucleo<u32>)
    ensures
        store_entries(m) == Seq::<(u32, Seq<char>)>::empty(),
        store_pattern(m) == Seq::<char>::empty(),
{
    nucleo::Nucleo::new(nucleo::Config::DEFAULT, std::sync::Arc::new(|| ()), Some(1), 1)
}

/// Relies on `nucleo::Injector::push`: appends one item, filling its single
/// match column with the key text, and changes nothing else the store's
/// state functions speak of.  The item vector reserves the topmost 32
/// indexes and aborts when a push would reach them, so the store must have
/// room below that line.
#[verifier::external_body]
pub(crate) fn push_key(m: &mut nucleo::Nucleo<u32>, data: u32, key: &String)
    requires
        store_entries(*old(m)).len() <= u32::MAX - 32,
    ensures
        store_entries(*final(m)) == store_entries(*old(m)).push((data, key@)),
        store_pattern(*final(m)) == store_pattern(*old(m)),
{
    let text = key.clone();
    m.injector().push(data, move |_, cols| cols[0] = text.into());
}

/// Relies on `nucleo::pattern::MultiPattern::reparse`: replaces the single
/// column's pattern with `query`, parsed with smart case and smart
/// normalization, keeping the items.  The snapshot reflects the new pattern
/// only after later ticks, so nothing is claimed of settledness.
#[verifier::external_body]
pub(crate) fn set_pattern(m: &mut nucleo::Nucleo<u32>, query: &Vec<char>)
    ensures
        store_entries(*final(m)) == store_entries(*old(m)),
        store_pattern(*final(m)) == query@,
{
    let text: String = query.iter().collect();
    m.pattern.reparse(
        0,
        &text,
        nucleo::pattern::CaseMatching::Smart,
        nucleo::pattern::Normalization::Smart,
        false,
    );
}

/// Relies on `nucleo::Nucleo::tick`: waits up to `timeout` milliseconds for
/// the worker — longer when a pattern change first winds the superseded run
/// down — harvests its results, and reports `(changed, running)`.  When
/// `running` comes back false the worker had matched every pushed item
/// against the current pattern and the harvested snapshot is complete.
#[verifier::external_body]
pub(crate) fn tick_store(m: &mut nucleo::Nucleo<u32>, timeout: u64) -> (st: (bool, bool))
    ensures
        store_entries(*final(m)) == store_entries(*old(m)),
        store_pattern(*final(m)) == store_pattern(*old(m)),
        !st.1 ==> store_settled(*final(m)),
{
    let status = m.tick(timeout);
    (status.changed, status.running)
}

/// Relies on `nucleo::Nucleo::snapshot` and `nucleo::Snapshot::matched_items`:
/// the data of the best-ranked matched items, at most `k` of them, in
/// snapshot order.  The snapshot changes only inside `tick`, keeps at most
/// one match per pushed item, and refers only to pushed items; the caller
/// pushes each item's own index as its data, so what comes back indexes the
/// entries.  When the store is settled, the source shows the snapshot holds
/// exactly the items whose key the current pattern matches, fully sorted —
/// descending score; ties of equal score and equal *reduced* key length
/// (see [`folded_of`]: nucleo compares the stored columns' lengths) in push
/// order — so what `take` leaves out scores no higher than the last row
/// taken; and that an empty pattern matches every item, in push order.
#[verifier::external_body]
pub(crate) fn top_matches(m: &nucleo::Nucleo<u32>, k: usize) -> (r: Vec<u32>)
    requires
        store_entries(*m).len() <= u32::MAX,
        forall|p: int|
            0 <= p < store_entries(*m).len() ==> (#[trigger] store_entries(*m)[p]).0 == p as u32,
    ensures
        r@.len() <= k,
        r@.len() <= store_entries(*m).len(),
        forall|j: int|
            0 <= j < r@.len() ==> (#[trigger] r@[j]) < store_entries(*m).len() as u32,
        store_settled(*m) ==> forall|j: int|
            0 <= j < r@.len() ==> score_of(store_pattern(*m), key_at(*m, #[trigger] r@[j] as int))
                is Some,
        store_settled(*m) ==> forall|j1: int, j2: int|
            0 <= j1 < j2 < r@.len() ==> entry_score(*m, #[trigger] r@[j1] as int) >= entry_score(
                *m,
                #[trigger] r@[j2] as int,
            ),
        store_settled(*m) ==> forall|j1: int, j2: int|
            0 <= j1 < j2 < r@.len() && entry_score(*m, #[trigger] r@[j1] as int) == entry_score(
                *m,
                #[trigger] r@[j2] as int,
            ) && folded_of(key_at(*m, r@[j1] as int)).len() == folded_of(
                key_at(*m, r@[j2] as int),
            ).len() ==> r@[j1] < r@[j2],
        store_settled(*m) && r@.len() > 0 ==> forall|p: int|
            0 <= p < store_entries(*m).len() && #[trigger] entry_matches(*m, p) && !r@.contains(
                p as u32,
            ) ==> entry_score(*m, p) <= entry_score(*m, r@[r@.len() - 1] as int),
        store_settled(*m) && r@.len() < k ==> forall|p: int|
            0 <= p < store_entries(*m).len() && #[trigger] entry_matches(*m, p) ==> r@.contains(
                p as u32,
            ),
        store_settled(*m) && store_pattern(*m).len() == 0 ==> {
            &&& r@.len() == (if k <= store_entries(*m).len() {
                k as int
            } else {
                store_entries(*m).len() as int
            })
            &&& forall|j: int| 0 <= j < r@.len() ==> #[trigger] r@[j] == j as u32
        },
{
    let snap = m.snapshot();
    snap.matched_items(..).take(k).map(|item| *item.data).collect()
}

} // verus!
