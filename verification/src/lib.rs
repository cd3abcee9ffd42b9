//! An interactive, incremental fuzzy-selection prompt for a terminal.
//!
//! Given a fixed, ordered list of candidate search keys, the picker lets a
//! user type a query, watch a live-ranked window of matches, move a
//! highlighted selection among them, and confirm or abort.  Candidate
//! identity is positional: the picker hands back the original index of the
//! confirmed candidate, or nothing on abort.
//!
//! The crate is split along the picker's seams:
//! - [`prompt`] owns the typed query and the unbounded selection offset and
//!   maps key presses to actions;
//! - [`store`] holds the candidate set and runs incremental fuzzy matching
//!   over it through the `nucleo` matcher;
//! - [`picker`] ties the two together into one session state with a
//!   well-formedness invariant;
//! - [`frame`] turns a session state into the relative-redraw plan a
//!   terminal front end executes.
//!
//! Reading input events and writing to the terminal are the caller's part;
//! everything the picker decides — what the query becomes, which row is
//! highlighted, which candidate a confirmation resolves to, what is redrawn —
//! is specified and verified here.
use vstd::prelude::*;

pub mod frame;
pub mod picker;
pub mod prompt;
pub mod store;

verus! {

/// Default number of match rows shown below the query line (the Visible
/// Window size).
pub const DEFAULT_VISIBLE_ROWS: usize = 8;

/// Default number of milliseconds granted to one slice of background
/// matching per cycle.
pub const DEFAULT_TICK_BUDGET_MS: u64 = 10;

} // verus!
