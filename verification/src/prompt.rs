//! The prompt state machine: the typed query, the selection offset, and the
//! total mapping from key presses to actions.
use vstd::prelude::*;

verus! {

/// A key the picker understands.  Every other key a terminal can deliver is
/// `Other`; together with the named reserved keys it forms the explicit
/// no-op arm of the input mapping, so the mapping is total.
#[derive(Clone, Copy, Debug, PartialEq, Eq)]
pub enum KeyCode {
    Char(char),
    Enter,
    Esc,
    Backspace,
    Up,
    Down,
    Left,
    Right,
    Home,
    End,
    Tab,
    PageUp,
    PageDown,
    Delete,
    Other,
}

/// One key press: the key itself and whether Control was held.
#[derive(Clone, Copy, Debug, PartialEq, Eq)]
pub struct KeyPress {
    pub code: KeyCode,
    pub ctrl: bool,
}

/// What a key press asks of the picker loop.
#[derive(Clone, Copy, Debug, PartialEq, Eq)]
pub enum Action {
    /// Leave with no selection.
    Abort,
    /// Resolve the highlighted row of the visible window.
    Confirm,
    /// The query text changed (or was re-issued): rematch.
    QueryChanged,
    /// Only the highlighted row moved: redraw, no rematch.
    SelectionChanged,
    /// Nothing to do.
    Continue,
}

/// The prompt's whole state: the query text and the selection offset.
/// The offset is deliberately unbounded; it is wrapped modulo the visible
/// window size only at use time.
pub struct Prompt {
    pub query: Vec<char>,
    pub selection: i64,
}

/// The action a key press maps to.  Control combinations are checked first:
/// Ctrl-C aborts, every other Control combination is a no-op.
pub open spec fn action_of(key: KeyPress) -> Action {
    if key.ctrl {
        if key.code == KeyCode::Char('c') {
            Action::Abort
        } else {
            Action::Continue
        }
    } else {
        match key.code {
            KeyCode::Char(_) => Action::QueryChanged,
            KeyCode::Backspace => Action::QueryChanged,
            KeyCode::Enter => Action::Confirm,
            KeyCode::Esc => Action::Abort,
            KeyCode::Up => Action::SelectionChanged,
            KeyCode::Down => Action::SelectionChanged,
            _ => Action::Continue,
        }
    }
}

/// The query text after a key press: printable characters append, Backspace
/// removes the last character and is a no-op on an empty query.
pub open spec fn next_query(q: Seq<char>, key: KeyPress) -> Seq<char> {
    if key.ctrl {
        q
    } else {
        match key.code {
            KeyCode::Char(c) => q.push(c),
            KeyCode::Backspace => if q.len() == 0 {
                q
            } else {
                q.drop_last()
            },
            _ => q,
        }
    }
}

/// The selection offset after a key press: Up decrements, Down increments,
/// saturating at the ends of `i64` so the picker never panics.
pub open spec fn next_selection(s: i64, key: KeyPress) -> i64 {
    if key.ctrl {
        s
    } else {
        match key.code {
            KeyCode::Up => if s == i64::MIN {
                s
            } else {
                (s - 1) as i64
            },
            KeyCode::Down => if s == i64::MAX {
                s
            } else {
                (s + 1) as i64
            },
            _ => s,
        }
    }
}

impl Prompt {
    /// A fresh prompt: empty query, selection on the first row.
    pub fn new() -> (p: Prompt)
        ensures
            p.query@ == Seq::<char>::empty(),
            p.selection == 0,
    {
        Prompt { query: Vec::new(), selection: 0 }
    }

    /// Consumes one key press and reports the resulting action.  This is the
    /// whole behavioural contract of the prompt: the action, the new query
    /// and the new selection are each pinned down for every possible key.
    ///
    /// In particular: Backspace on an empty query changes nothing except
    /// re-issuing the same empty query, and Escape and Ctrl-C always map to
    /// `Abort` whatever the current state.
    pub fn handle_event(&mut self, key: KeyPress) -> (a: Action)
        ensures
            a == action_of(key),
            final(self).query@ == next_query(old(self).query@, key),
            final(self).selection == next_selection(old(self).selection, key),
    {
        if key.ctrl {
            match key.code {
                KeyCode::Char(c) => if c == 'c' {
                    Action::Abort
                } else {
                    Action::Continue
                },
                _ => Action::Continue,
            }
        } else {
            match key.code {
                KeyCode::Char(c) => {
                    self.query.push(c);
                    Action::QueryChanged
                }
                KeyCode::Backspace => {
                    if self.query.len() > 0 {
                        self.query.pop();
                    }
                    Action::QueryChanged
                }
                KeyCode::Enter => Action::Confirm,
                KeyCode::Esc => Action::Abort,
                KeyCode::Up => {
                    if self.selection > i64::MIN {
                        self.selection = self.selection - 1;
                    }
                    Action::SelectionChanged
                }
                KeyCode::Down => {
                    if self.selection < i64::MAX {
                        self.selection = self.selection + 1;
                    }
                    Action::SelectionChanged
                }
                _ => Action::Continue,
            }
        }
    }
}

/// Backspace on an empty query is a no-op: the query stays empty, and the
/// only effect is that the same empty query is re-issued.
pub proof fn lemma_backspace_on_empty_is_noop(key: KeyPress)
    requires
        !key.ctrl,
        key.code == KeyCode::Backspace,
    ensures
        next_query(Seq::<char>::empty(), key) == Seq::<char>::empty(),
        action_of(key) == Action::QueryChanged,
{
}

/// Escape and Ctrl-C both abort, whatever the current query or selection:
/// the action depends on the key alone, and neither key touches the state.
pub proof fn lemma_abort_keys(key: KeyPress, q: Seq<char>, s: i64)
    requires
        (key.code == KeyCode::Esc && !key.ctrl) || (key.ctrl && key.code == KeyCode::Char('c')),
    ensures
        action_of(key) == Action::Abort,
        next_query(q, key) == q,
        next_selection(s, key) == s,
{
}

/// The row a raw selection offset denotes within a window of `count` rows:
/// the offset modulo the window size.  `%` on `int` is Euclidean for a
/// positive divisor, so the result recovers into range even while the match
/// set shrinks under the selection.
pub open spec fn wrap_spec(sel: int, count: int) -> int {
    sel % count
}

/// For a negative offset, the Euclidean remainder can be computed from the
/// non-negative remainder of `-sel - 1`.
proof fn lemma_neg_wrap(s: int, c: int)
    requires
        c > 0,
        s < 0,
    ensures
        s % c == c - 1 - ((-s - 1) % c),
{
    let t = -s - 1;
    vstd::arithmetic::div_mod::lemma_fundamental_div_mod(t, c);
    let q = t / c;
    let m = t % c;
    assert(s == (-q - 1) * c + (c - 1 - m)) by (nonlinear_arith)
        requires
            t == c * q + m,
            s == -t - 1,
    ;
    vstd::arithmetic::div_mod::lemma_fundamental_div_mod_converse(s, c, -q - 1, c - 1 - m);
}

/// Wraps the unbounded selection offset into a non-empty visible window.
pub fn wrap_selection(sel: i64, count: usize) -> (r: usize)
    requires
        count > 0,
    ensures
        r as int == wrap_spec(sel as int, count as int),
        r < count,
{
    if sel >= 0 {
        let m: u64 = (sel as u64) % (count as u64);
        m as usize
    } else {
        let t: u64 = (-(sel + 1)) as u64;
        let m: u64 = t % (count as u64);
        proof {
            lemma_neg_wrap(sel as int, count as int);
        }
        count - 1 - (m as usize)
    }
}

/// The selection law: whenever the visible window is non-empty, the wrapped
/// selection lands inside it — in `[0, count)` — for every raw offset a
/// sequence of Up and Down presses can produce, however large or negative.
pub proof fn lemma_selection_in_window(sel: int, count: int)
    requires
        count > 0,
    ensures
        0 <= wrap_spec(sel, count) < count,
{
}

} // verus!
