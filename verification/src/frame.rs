//! The renderer's input: one frame of picker state, and the relative-redraw
//! plan computed from it.
//!
//! The picker never clears the scrollback or redraws the whole screen; it
//! redraws its own region with relative cursor motion only.  That region is
//! described here as data — a sequence of terminal commands — so the drawing
//! itself reduces to executing one command after another.  The plan is a
//! pure function of the frame: rendering the same state twice yields the
//! same plan, which is what makes the redraw idempotent.
use vstd::prelude::*;

verus! {

/// Everything the renderer needs for one cycle: the candidate indexes of
/// the visible window in rank order, the highlighted row, and the query
/// text.
pub struct Frame {
    pub rows: Vec<u32>,
    pub highlight: usize,
    pub query: Vec<char>,
}

/// One relative terminal operation.  `Line` draws one visible match — the
/// candidate with that original index — on its own line, highlighted or
/// not; `QueryLine` redraws the query line, with its fixed `"> "` marker,
/// at the cursor.
#[derive(Clone, Copy, Debug, PartialEq, Eq)]
pub enum Cmd {
    /// Move the cursor to column 0 of the current line.
    Col0,
    /// Clear everything from the cursor to the end of the screen.
    ClearDown,
    /// Draw one visible match on its own line below the previous one.
    Line { index: u32, highlighted: bool },
    /// Move the cursor up this many lines.
    MoveUp(usize),
    /// Redraw the query line at the cursor.
    QueryLine,
}

/// Copies a vector of plain values.
pub(crate) fn copied<T: Copy>(v: &Vec<T>) -> (r: Vec<T>)
    ensures
        r@ == v@,
{
    let mut r: Vec<T> = Vec::new();
    let n = v.len();
    let mut i: usize = 0;
    while i < n
        invariant
            n == v@.len(),
            i <= n,
            r@ == v@.subrange(0, i as int),
        decreases n - i,
    {
        r.push(v[i]);
        proof {
            assert(r@ =~= v@.subrange(0, i + 1));
        }
        i = i + 1;
    }
    proof {
        assert(r@ =~= v@);
    }
    r
}

/// The redraw plan for one frame: move to column 0 of the query line, clear
/// everything below the cursor, draw one line per visible match —
/// highlighting exactly the row the wrapped selection picked — move the
/// cursor back up by the number of rows written, return to column 0, and
/// redraw the query line there.  An empty window yields only the clearing
/// moves and the query line.
pub fn render_plan(f: &Frame) -> (plan: Vec<Cmd>)
    ensures
        plan@.len() == 4 + f.rows@.len() + (if f.rows@.len() == 0 {
            0int
        } else {
            1int
        }),
        plan@[0] == Cmd::Col0,
        plan@[1] == Cmd::ClearDown,
        forall|r: int|
            0 <= r < f.rows@.len() ==> plan@[2 + r] == (Cmd::Line {
                index: f.rows@[r],
                highlighted: r == f.highlight as int,
            }),
        f.rows@.len() > 0 ==> plan@[2 + f.rows@.len() as int] == Cmd::MoveUp(f.rows@.len() as usize),
        plan@[plan@.len() - 2] == Cmd::Col0,
        plan@[plan@.len() - 1] == Cmd::QueryLine,
{
    let mut plan: Vec<Cmd> = Vec::new();
    plan.push(Cmd::Col0);
    plan.push(Cmd::ClearDown);
    let n = f.rows.len();
    let mut r: usize = 0;
    while r < n
        invariant
            n == f.rows@.len(),
            r <= n,
            plan@.len() == 2 + r,
            plan@[0] == Cmd::Col0,
            plan@[1] == Cmd::ClearDown,
            forall|i: int|
                0 <= i < r ==> plan@[2 + i] == (Cmd::Line {
                    index: f.rows@[i],
                    highlighted: i == f.highlight as int,
                }),
        decreases n - r,
    {
        plan.push(Cmd::Line { index: f.rows[r], highlighted: r == f.highlight });
        r = r + 1;
    }
    if n > 0 {
        plan.push(Cmd::MoveUp(n));
    }
    plan.push(Cmd::Col0);
    plan.push(Cmd::QueryLine);
    plan
}

/// The plan for the final exit: clear the picker region entirely and leave
/// the cursor at column 0, so the invoking shell's own prompt is
/// undisturbed.
pub fn exit_plan() -> (plan: Vec<Cmd>)
    ensures
        plan@.len() == 2,
        plan@[0] == Cmd::Col0,
        plan@[1] == Cmd::ClearDown,
{
    let mut plan: Vec<Cmd> = Vec::new();
    plan.push(Cmd::Col0);
    plan.push(Cmd::ClearDown);
    plan
}

} // verus!
