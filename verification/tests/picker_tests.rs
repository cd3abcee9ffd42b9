use fuzzy_picker::picker::Outcome;
use fuzzy_picker::picker::Picker;
use fuzzy_picker::prompt::KeyCode;
use fuzzy_picker::prompt::KeyPress;
use fuzzy_picker::DEFAULT_VISIBLE_ROWS;

fn key(code: KeyCode) -> KeyPress {
    KeyPress { code, ctrl: false }
}

fn ctrl(code: KeyCode) -> KeyPress {
    KeyPress { code, ctrl: true }
}

fn picker_of(keys: &[&str], limit: usize) -> Picker {
    Picker::new(keys.iter().map(|k| k.to_string()).collect(), limit)
}

/// Advances the picker in bounded slices until its matching is quiescent.
fn drain(p: &mut Picker) {
    for _ in 0..500 {
        p.advance(10);
        if p.is_quiescent() {
            return;
        }
    }
    panic!("matching did not settle");
}

fn type_query(p: &mut Picker, text: &str) {
    for c in text.chars() {
        assert_eq!(p.handle_key(key(KeyCode::Char(c))), Outcome::Pending);
    }
    drain(p);
}

#[test]
fn empty_query_shows_candidates_in_original_order() {
    let mut p = picker_of(&["alpha", "beta", "gamma"], DEFAULT_VISIBLE_ROWS);
    drain(&mut p);
    assert_eq!(p.frame().rows, vec![0, 1, 2]);
}

#[test]
fn window_is_capped_at_the_limit() {
    let mut p = picker_of(&["a1", "a2", "a3", "a4"], 2);
    drain(&mut p);
    assert_eq!(p.frame().rows, vec![0, 1]);
}

#[test]
fn query_narrows_and_ranks_the_window() {
    let mut p = picker_of(&["alpha", "beta", "alp"], DEFAULT_VISIBLE_ROWS);
    drain(&mut p);
    type_query(&mut p, "al");
    let rows = p.frame().rows;
    assert_eq!(rows.len(), 2);
    assert!(rows.contains(&0));
    assert!(rows.contains(&2));
    assert!(!rows.contains(&1));
}

#[test]
fn down_then_enter_selects_the_second_ranked_match() {
    let mut p = picker_of(&["alpha", "beta", "alp"], DEFAULT_VISIBLE_ROWS);
    drain(&mut p);
    type_query(&mut p, "al");
    let rows = p.frame().rows;
    assert_eq!(p.handle_key(key(KeyCode::Down)), Outcome::Pending);
    assert_eq!(p.frame().highlight, 1);
    assert_eq!(p.handle_key(key(KeyCode::Enter)), Outcome::Selected(rows[1]));
}

#[test]
fn escape_returns_no_selection_whatever_came_before() {
    let mut p = picker_of(&["alpha", "beta", "alp"], DEFAULT_VISIBLE_ROWS);
    drain(&mut p);
    type_query(&mut p, "al");
    p.handle_key(key(KeyCode::Down));
    assert_eq!(p.handle_key(key(KeyCode::Esc)), Outcome::Aborted);
}

#[test]
fn ctrl_c_returns_no_selection() {
    let mut p = picker_of(&["alpha", "beta"], DEFAULT_VISIBLE_ROWS);
    drain(&mut p);
    type_query(&mut p, "be");
    assert_eq!(p.handle_key(ctrl(KeyCode::Char('c'))), Outcome::Aborted);
}

#[test]
fn zero_candidates_render_only_the_query_line_and_enter_is_a_noop() {
    let mut p = picker_of(&[], DEFAULT_VISIBLE_ROWS);
    drain(&mut p);
    let f = p.frame();
    assert!(f.rows.is_empty());
    let plan = fuzzy_picker::frame::render_plan(&f);
    assert_eq!(
        plan,
        vec![
            fuzzy_picker::frame::Cmd::Col0,
            fuzzy_picker::frame::Cmd::ClearDown,
            fuzzy_picker::frame::Cmd::Col0,
            fuzzy_picker::frame::Cmd::QueryLine,
        ]
    );
    assert_eq!(p.handle_key(key(KeyCode::Enter)), Outcome::Pending);
    assert_eq!(p.handle_key(key(KeyCode::Esc)), Outcome::Aborted);
}

#[test]
fn confirming_with_no_matches_leaves_the_loop_running() {
    let mut p = picker_of(&["alpha"], DEFAULT_VISIBLE_ROWS);
    drain(&mut p);
    type_query(&mut p, "zz");
    assert!(p.frame().rows.is_empty());
    assert_eq!(p.handle_key(key(KeyCode::Enter)), Outcome::Pending);
    // still alive: widening the query again brings the candidate back
    assert_eq!(p.handle_key(key(KeyCode::Backspace)), Outcome::Pending);
    assert_eq!(p.handle_key(key(KeyCode::Backspace)), Outcome::Pending);
    drain(&mut p);
    assert_eq!(p.frame().rows, vec![0]);
}

#[test]
fn selection_wraps_around_the_window() {
    let mut p = picker_of(&["one", "two", "three"], DEFAULT_VISIBLE_ROWS);
    drain(&mut p);
    assert_eq!(p.frame().highlight, 0);
    p.handle_key(key(KeyCode::Up));
    assert_eq!(p.frame().highlight, 2);
    p.handle_key(key(KeyCode::Down));
    p.handle_key(key(KeyCode::Down));
    p.handle_key(key(KeyCode::Down));
    p.handle_key(key(KeyCode::Down));
    p.handle_key(key(KeyCode::Down));
    assert_eq!(p.frame().highlight, 1);
}

#[test]
fn moving_the_selection_does_not_rematch() {
    let mut p = picker_of(&["one", "two"], DEFAULT_VISIBLE_ROWS);
    drain(&mut p);
    assert!(p.is_quiescent());
    p.handle_key(key(KeyCode::Up));
    assert!(p.is_quiescent());
    p.handle_key(key(KeyCode::Char('o')));
    assert!(!p.is_quiescent());
}

#[test]
fn lowercase_queries_match_case_insensitively() {
    let mut p = picker_of(&["Alpha"], DEFAULT_VISIBLE_ROWS);
    drain(&mut p);
    type_query(&mut p, "alp");
    assert_eq!(p.frame().rows, vec![0]);
}

#[test]
fn uppercase_queries_match_case_sensitively() {
    let mut p = picker_of(&["alpha"], DEFAULT_VISIBLE_ROWS);
    drain(&mut p);
    type_query(&mut p, "A");
    assert!(p.frame().rows.is_empty());
}

#[test]
fn a_new_query_supersedes_the_old_one() {
    let mut p = picker_of(&["alpha", "beta", "gamma"], DEFAULT_VISIBLE_ROWS);
    drain(&mut p);
    type_query(&mut p, "be");
    assert_eq!(p.frame().rows, vec![1]);
    type_query(&mut p, "x");
    assert!(p.frame().rows.is_empty());
}

#[test]
fn set_query_then_advance_until_quiescent_bounds_the_window() {
    let mut p = picker_of(&["alpha", "beta", "alp", "gamma"], DEFAULT_VISIBLE_ROWS);
    p.set_query("al".chars().collect());
    assert!(!p.is_quiescent());
    drain(&mut p);
    let rows = p.frame().rows;
    assert!(rows.len() <= 4);
    assert_eq!(rows.len(), 2);
    assert_eq!(p.frame().query, vec!['a', 'l']);
}

#[test]
fn better_matches_rank_first() {
    let mut p = picker_of(&["xxalp", "alp"], DEFAULT_VISIBLE_ROWS);
    drain(&mut p);
    type_query(&mut p, "alp");
    assert_eq!(p.frame().rows, vec![1, 0]);
}

#[test]
fn a_zero_row_window_keeps_enter_a_noop() {
    let mut p = picker_of(&["alpha"], 0);
    drain(&mut p);
    assert!(p.frame().rows.is_empty());
    assert_eq!(p.handle_key(key(KeyCode::Enter)), Outcome::Pending);
    assert_eq!(p.handle_key(key(KeyCode::Esc)), Outcome::Aborted);
}

#[test]
fn the_frame_carries_the_typed_query() {
    let mut p = picker_of(&["alpha"], DEFAULT_VISIBLE_ROWS);
    drain(&mut p);
    type_query(&mut p, "al");
    assert_eq!(p.frame().query, vec!['a', 'l']);
    p.handle_key(key(KeyCode::Backspace));
    assert_eq!(p.frame().query, vec!['a']);
}

#[test]
fn enter_on_the_top_row_selects_the_best_match() {
    let mut p = picker_of(&["alpha", "beta", "gamma"], DEFAULT_VISIBLE_ROWS);
    drain(&mut p);
    type_query(&mut p, "gam");
    assert_eq!(p.handle_key(key(KeyCode::Enter)), Outcome::Selected(2));
}
