//! The picker session: the candidate store and the prompt tied together
//! under one invariant, driven by bounded matching slices and key presses.
use vstd::prelude::*;

use crate::frame::copied;
use crate::frame::Frame;
use crate::prompt::action_of;
use crate::prompt::next_query;
use crate::prompt::next_selection;
use crate::prompt::wrap_selection;
use crate::prompt::wrap_spec;
use crate::prompt::Action;
use crate::prompt::KeyPress;
use crate::prompt::Prompt;
use crate::store::entry_matches;
use crate::store::entry_score;
use crate::store::folded_of;
use crate::store::key_at;
use crate::store::new_store;
use crate::store::push_key;
use crate::store::set_pattern;
use crate::store::store_entries;
use crate::store::store_pattern;
use crate::store::store_settled;
use crate::store::tick_store;
use crate::store::top_matches;

verus! {

/// What one key press made of the session.
#[derive(Clone, Copy, Debug, PartialEq, Eq)]
pub enum Outcome {
    /// The user gave up; no candidate is handed back.
    Aborted,
    /// The candidate with this original index was confirmed.
    Selected(u32),
    /// The session goes on.
    Pending,
}

/// One picker invocation: a fixed candidate set inside the store, the
/// prompt state, and the visible window read from the store's latest
/// snapshot.  `n` is the candidate count, `limit` the visible window size,
/// and `quiescent` records whether the last matching slice reported the
/// store settled — that is, whether `visible` is the complete, final
/// ranking for the current query.
pub struct Picker {
    matcher: nucleo::Nucleo<u32>,
    prompt: Prompt,
    visible: Vec<u32>,
    n: usize,
    limit: usize,
    quiescent: bool,
}

impl Picker {
    /// The candidate count this session was built over.
    pub closed spec fn spec_n(self) -> int {
        self.n as int
    }

    /// The visible window size this session was built with.
    pub closed spec fn spec_limit(self) -> int {
        self.limit as int
    }

    /// The query text.
    pub closed spec fn spec_query(self) -> Seq<char> {
        self.prompt.query@
    }

    /// The raw selection offset.
    pub closed spec fn spec_selection(self) -> i64 {
        self.prompt.selection
    }

    /// The visible window: candidate indexes in rank order.
    pub closed spec fn spec_visible(self) -> Seq<u32> {
        self.visible@
    }

    /// Whether the window is known complete for the current query.
    pub closed spec fn spec_quiescent(self) -> bool {
        self.quiescent
    }

    /// The visible window is ordered by descending match score under the
    /// current query.
    pub closed spec fn ordered_by_score(self) -> bool {
        forall|j1: int, j2: int|
            0 <= j1 < j2 < self.visible@.len() ==> entry_score(
                self.matcher,
                #[trigger] self.visible@[j1] as int,
            ) >= entry_score(self.matcher, #[trigger] self.visible@[j2] as int)
    }

    /// Every visible row matches the current query.
    pub closed spec fn rows_match(self) -> bool {
        forall|j: int|
            0 <= j < self.visible@.len() ==> entry_matches(
                self.matcher,
                #[trigger] self.visible@[j] as int,
            )
    }

    /// Rows of equal score whose reduced keys have equal length keep their
    /// original order: the ranking's tie-break is stable there.  (The
    /// ranking compares the lengths of the stored, grapheme-reduced keys —
    /// [`folded_of`] — before falling back to push order, so equal-score
    /// rows of unequal reduced length order shorter-first instead.)
    pub closed spec fn stable_ties(self) -> bool {
        forall|j1: int, j2: int|
            0 <= j1 < j2 < self.visible@.len() && entry_score(
                self.matcher,
                #[trigger] self.visible@[j1] as int,
            ) == entry_score(self.matcher, #[trigger] self.visible@[j2] as int) && folded_of(
                key_at(self.matcher, self.visible@[j1] as int),
            ).len() == folded_of(key_at(self.matcher, self.visible@[j2] as int)).len()
                ==> self.visible@[j1] < self.visible@[j2]
    }

    /// A full window is the top of the ranking: no matching candidate left
    /// outside it scores higher than its last (lowest-ranked) row.
    pub closed spec fn window_top(self) -> bool {
        self.visible@.len() > 0 ==> forall|p: int|
            0 <= p < self.n && #[trigger] entry_matches(self.matcher, p)
                && !self.visible@.contains(p as u32) ==> entry_score(self.matcher, p)
                <= entry_score(self.matcher, self.visible@[self.visible@.len() - 1] as int)
    }

    /// A window shorter than the limit holds every matching candidate.
    pub closed spec fn window_complete(self) -> bool {
        self.visible@.len() < self.limit ==> forall|p: int|
            0 <= p < self.n && #[trigger] entry_matches(self.matcher, p) ==> self.visible@.contains(
                p as u32,
            )
    }

    /// With an empty query the window is the original candidate order: the
    /// identity prefix of length `min(limit, n)`.
    pub closed spec fn identity_window(self) -> bool {
        &&& self.visible@.len() == (if self.limit <= self.n {
            self.limit as int
        } else {
            self.n as int
        })
        &&& forall|j: int| 0 <= j < self.visible@.len() ==> #[trigger] self.visible@[j] == j as u32
    }

    /// Well-formedness of a session.  The store holds exactly the `n`
    /// candidates, each entry carrying its own index as data; the store's
    /// pattern is the prompt's query; the visible window fits the limit and
    /// the candidate count and only names real candidates; and whenever the
    /// session is quiescent the window is the store's final answer for the
    /// query — ranked by descending score with a stable tie-break, holding
    /// every matching candidate when shorter than the limit, outranking
    /// everything it leaves out when full, and the identity prefix when the
    /// query is empty.
    pub closed spec fn wf(self) -> bool {
        &&& self.n == store_entries(self.matcher).len()
        &&& self.n <= u32::MAX
        &&& forall|p: int|
            0 <= p < self.n ==> (#[trigger] store_entries(self.matcher)[p]).0 == p as u32
        &&& store_pattern(self.matcher) == self.prompt.query@
        &&& self.visible@.len() <= self.limit
        &&& self.visible@.len() <= self.n
        &&& forall|j: int| 0 <= j < self.visible@.len() ==> (#[trigger] self.visible@[j]) < self.n as u32
        &&& self.quiescent ==> store_settled(self.matcher)
        &&& self.quiescent ==> self.ordered_by_score()
        &&& self.quiescent ==> self.stable_ties()
        &&& self.quiescent ==> self.rows_match()
        &&& self.quiescent ==> self.window_complete()
        &&& self.quiescent ==> self.window_top()
        &&& (self.quiescent && self.prompt.query@.len() == 0) ==> self.identity_window()
    }

    /// The outcome one key press yields in a given state: Escape and Ctrl-C
    /// abort whatever the state; Enter resolves the row `selection mod
    /// window size` of a non-empty window and is a no-op on an empty one;
    /// everything else leaves the session pending.
    pub closed spec fn outcome_of(self, key: KeyPress) -> Outcome {
        match action_of(key) {
            Action::Abort => Outcome::Aborted,
            Action::Confirm => if self.visible@.len() == 0 {
                Outcome::Pending
            } else {
                Outcome::Selected(
                    self.visible@[wrap_spec(
                        self.prompt.selection as int,
                        self.visible@.len() as int,
                    )],
                )
            },
            _ => Outcome::Pending,
        }
    }

    /// Ingests the fixed candidate set (each key at its original index) and
    /// an empty query.  The window starts empty; matching proceeds through
    /// `advance`.
    pub fn new(keys: Vec<String>, limit: usize) -> (p: Picker)
        requires
            keys@.len() <= u32::MAX - 31,
        ensures
            p.wf(),
            p.spec_n() == keys@.len(),
            p.spec_limit() == limit,
            p.spec_query() == Seq::<char>::empty(),
            p.spec_selection() == 0,
            p.spec_visible() == Seq::<u32>::empty(),
            !p.spec_quiescent(),
            forall|q: int| 0 <= q < keys@.len() ==> key_at(p.store_view(), q) == keys@[q]@,
    {
        let mut m = new_store();
        let n = keys.len();
        let mut i: usize = 0;
        while i < n
            invariant
                n == keys@.len(),
                n <= u32::MAX - 31,
                i <= n,
                store_entries(m).len() == i as int,
                forall|q: int| 0 <= q < i ==> (#[trigger] store_entries(m)[q]).0 == q as u32,
                forall|q: int| 0 <= q < i ==> (#[trigger] store_entries(m)[q]).1 == keys@[q]@,
                store_pattern(m) == Seq::<char>::empty(),
            decreases n - i,
        {
            push_key(&mut m, i as u32, &keys[i]);
            i = i + 1;
        }
        Picker {
            matcher: m,
            prompt: Prompt::new(),
            visible: Vec::new(),
            n,
            limit,
            quiescent: false,
        }
    }

    /// The store value, for stating properties of the session.
    pub closed spec fn store_view(self) -> nucleo::Nucleo<u32> {
        self.matcher
    }

    /// One bounded slice of background matching: advances the store by at
    /// most `timeout_ms` milliseconds of work, refreshes the visible window
    /// from the latest snapshot, and records whether the store settled.
    /// Returns whether the snapshot changed.  The candidate set, the query
    /// and the selection are untouched.
    pub fn advance(&mut self, timeout_ms: u64) -> (changed: bool)
        requires
            old(self).wf(),
        ensures
            final(self).wf(),
            final(self).spec_n() == old(self).spec_n(),
            final(self).spec_limit() == old(self).spec_limit(),
            final(self).spec_query() == old(self).spec_query(),
            final(self).spec_selection() == old(self).spec_selection(),
            store_entries(final(self).store_view()) == store_entries(old(self).store_view()),
            store_pattern(final(self).store_view()) == store_pattern(old(self).store_view()),
    {
        let st = tick_store(&mut self.matcher, timeout_ms);
        let vis = top_matches(&self.matcher, self.limit);
        self.visible = vis;
        self.quiescent = !st.1;
        st.0
    }

    /// Feeds one key press through the prompt and carries out its action:
    /// a changed query is re-issued to the store (superseding the old one),
    /// a moved selection only changes what is highlighted, Enter resolves
    /// the wrapped selection against the visible window — a no-op while the
    /// window is empty — and Escape or Ctrl-C abort.  The visible window
    /// itself never changes here; only `advance` refreshes it.
    pub fn handle_key(&mut self, key: KeyPress) -> (out: Outcome)
        requires
            old(self).wf(),
        ensures
            final(self).wf(),
            out == old(self).outcome_of(key),
            final(self).spec_n() == old(self).spec_n(),
            final(self).spec_limit() == old(self).spec_limit(),
            final(self).spec_query() == next_query(old(self).spec_query(), key),
            final(self).spec_selection() == next_selection(old(self).spec_selection(), key),
            final(self).spec_visible() == old(self).spec_visible(),
            store_entries(final(self).store_view()) == store_entries(old(self).store_view()),
            action_of(key) == Action::QueryChanged ==> !final(self).spec_quiescent(),
            action_of(key) != Action::QueryChanged ==> final(self).store_view() == old(
                self,
            ).store_view() && final(self).spec_quiescent() == old(self).spec_quiescent(),
            out matches Outcome::Selected(i) ==> i < old(self).spec_n(),
    {
        let a = self.prompt.handle_event(key);
        match a {
            Action::Abort => Outcome::Aborted,
            Action::Confirm => {
                let c = self.visible.len();
                if c == 0 {
                    Outcome::Pending
                } else {
                    let w = wrap_selection(self.prompt.selection, c);
                    Outcome::Selected(self.visible[w])
                }
            }
            Action::QueryChanged => {
                set_pattern(&mut self.matcher, &self.prompt.query);
                self.quiescent = false;
                Outcome::Pending
            }
            Action::SelectionChanged => Outcome::Pending,
            Action::Continue => Outcome::Pending,
        }
    }

    /// Replaces the active query outright, re-issuing it to the store; the
    /// work is scheduled, not completed inline — the window refreshes on
    /// later `advance` calls, and until then the session is not quiescent,
    /// so nothing stale is ever mistaken for the new query's result.
    pub fn set_query(&mut self, text: Vec<char>)
        requires
            old(self).wf(),
        ensures
            final(self).wf(),
            final(self).spec_query() == text@,
            final(self).spec_n() == old(self).spec_n(),
            final(self).spec_limit() == old(self).spec_limit(),
            final(self).spec_selection() == old(self).spec_selection(),
            final(self).spec_visible() == old(self).spec_visible(),
            store_entries(final(self).store_view()) == store_entries(old(self).store_view()),
            !final(self).spec_quiescent(),
    {
        self.prompt.query = text;
        set_pattern(&mut self.matcher, &self.prompt.query);
        self.quiescent = false;
    }

    /// The renderer's input for this cycle: the visible rows in rank order,
    /// the highlighted row — the wrapped selection, or row 0 of an empty
    /// window — and the query text.
    pub fn frame(&self) -> (f: Frame)
        requires
            self.wf(),
        ensures
            f.rows@ == self.spec_visible(),
            f.query@ == self.spec_query(),
            f.highlight as int == (if self.spec_visible().len() == 0 {
                0int
            } else {
                wrap_spec(self.spec_selection() as int, self.spec_visible().len() as int)
            }),
            self.spec_visible().len() > 0 ==> f.highlight < self.spec_visible().len(),
    {
        let highlight: usize = if self.visible.len() == 0 {
            0
        } else {
            wrap_selection(self.prompt.selection, self.visible.len())
        };
        Frame { rows: copied(&self.visible), highlight, query: copied(&self.prompt.query) }
    }

    /// Whether the last matching slice reported the store settled: the
    /// visible window is the complete, final ranking for the current query.
    pub fn is_quiescent(&self) -> (b: bool)
        ensures
            b == self.spec_quiescent(),
    {
        self.quiescent
    }

    /// The candidate count.
    pub fn candidate_count(&self) -> (c: usize)
        ensures
            c as int == self.spec_n(),
    {
        self.n
    }

    /// The raw selection offset.
    pub fn selection(&self) -> (s: i64)
        ensures
            s == self.spec_selection(),
    {
        self.prompt.selection
    }
}

/// Confirming with an empty visible window returns no selection and changes
/// nothing: the session keeps running.
pub proof fn lemma_confirm_on_empty_window(p: Picker, key: KeyPress)
    requires
        p.spec_visible().len() == 0,
        action_of(key) == Action::Confirm,
    ensures
        p.outcome_of(key) == Outcome::Pending,
{
}

/// An aborting key — Escape, or Ctrl-C — ends the session with no
/// selection, whatever the query, the selection offset, or the window.
pub proof fn lemma_abort_outcome(p: Picker, key: KeyPress)
    requires
        action_of(key) == Action::Abort,
    ensures
        p.outcome_of(key) == Outcome::Aborted,
{
}

/// Confirming against a non-empty window resolves the wrapped selection:
/// the candidate on row `selection mod window size`, and no other.
pub proof fn lemma_confirm_outcome(p: Picker, key: KeyPress)
    requires
        action_of(key) == Action::Confirm,
        p.spec_visible().len() > 0,
    ensures
        p.outcome_of(key) == Outcome::Selected(
            p.spec_visible()[wrap_spec(
                p.spec_selection() as int,
                p.spec_visible().len() as int,
            )],
        ),
{
}

/// Every key that neither aborts nor confirms leaves the session pending.
pub proof fn lemma_pending_outcome(p: Picker, key: KeyPress)
    requires
        action_of(key) != Action::Abort,
        action_of(key) != Action::Confirm,
    ensures
        p.outcome_of(key) == Outcome::Pending,
{
}

/// With a non-empty candidate set and an empty query, a quiescent window is
/// the original candidate order: row `j` shows candidate `j`, and the
/// window is as long as the limit allows.
pub proof fn lemma_empty_query_window(p: Picker)
    requires
        p.wf(),
        p.spec_quiescent(),
        p.spec_query().len() == 0,
    ensures
        p.spec_visible().len() == (if p.spec_limit() <= p.spec_n() {
            p.spec_limit()
        } else {
            p.spec_n()
        }),
        forall|j: int| 0 <= j < p.spec_visible().len() ==> #[trigger] p.spec_visible()[j] == j as u32,
{
}

/// A quiescent window never exceeds the candidate count, names only real
/// candidates, every row of it matches the query, its order is by
/// descending match score — with the original order kept between rows the
/// ranking cannot tell apart (equal score, equal reduced key length) — a
/// window shorter than the limit already holds every matching candidate,
/// and no matching candidate outside the window outranks its last row.
pub proof fn lemma_window_ranked(p: Picker)
    requires
        p.wf(),
        p.spec_quiescent(),
    ensures
        p.spec_visible().len() <= p.spec_n(),
        forall|j: int|
            0 <= j < p.spec_visible().len() ==> (#[trigger] p.spec_visible()[j]) < p.spec_n(),
        forall|j: int|
            0 <= j < p.spec_visible().len() ==> entry_matches(
                p.store_view(),
                #[trigger] p.spec_visible()[j] as int,
            ),
        forall|j1: int, j2: int|
            0 <= j1 < j2 < p.spec_visible().len() ==> entry_score(
                p.store_view(),
                #[trigger] p.spec_visible()[j1] as int,
            ) >= entry_score(p.store_view(), #[trigger] p.spec_visible()[j2] as int),
        p.stable_ties(),
        p.window_top(),
        p.spec_visible().len() < p.spec_limit() ==> forall|q: int|
            0 <= q < p.spec_n() && #[trigger] entry_matches(p.store_view(), q)
                ==> p.spec_visible().contains(q as u32),
{
}

} // verus!
