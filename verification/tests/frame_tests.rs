//! Tests of the per-frame interaction controller: button priority, the B
//! cooldown, and the idle timeout on an all-dead board.

use microlife::control::{frame, Action, ControlState};
use microlife::grid::{done, Grid};

fn rng() -> nanorand::Pcg64 {
    nanorand::Pcg64::new_seed(42)
}

#[test]
fn idle_timeout_rerandomizes_after_five_frames() {
    let mut g = Grid::new();
    let mut r = rng();
    let mut st = ControlState::new();
    // Five frames of an all-dead board with no input: the idle counter only
    // climbs and the board stays untouched.
    for expected in 1..=5u8 {
        let act = frame(&mut g, &mut r, &mut st, false, false);
        assert_eq!(act, Action::Wait);
        assert_eq!(st.end_timer, expected);
        assert!(done(&g));
    }
    // The next frame gives up waiting: fresh random board, counter reset.
    let act = frame(&mut g, &mut r, &mut st, false, false);
    assert_eq!(act, Action::Randomize);
    assert_eq!(st.end_timer, 0);
}

#[test]
fn b_cooldown_allows_one_invert_per_window() {
    let mut g = Grid::new();
    let mut r = rng();
    let mut st = ControlState::new();
    // B held for ten straight frames, starting from an all-dead board.
    let mut acts = Vec::new();
    let mut ignores = Vec::new();
    for _ in 0..10 {
        acts.push(frame(&mut g, &mut r, &mut st, false, true));
        ignores.push(st.b_ignore_timer);
    }
    // One invert on the triggering frame, suppression while the cooldown
    // runs out, and the second invert on frame 6.
    let expected_acts = [
        Action::Invert,
        Action::Step,
        Action::Step,
        Action::Wait,
        Action::Wait,
        Action::Invert,
        Action::Step,
        Action::Step,
        Action::Wait,
        Action::Wait,
    ];
    let expected_ignores = [4, 3, 2, 1, 0, 4, 3, 2, 1, 0];
    assert_eq!(acts, expected_acts);
    assert_eq!(ignores, expected_ignores);
    let inverts = acts.iter().filter(|a| **a == Action::Invert).count();
    assert_eq!(inverts, 2);
}

#[test]
fn invert_on_dead_board_lights_every_cell() {
    let mut g = Grid::new();
    let mut r = rng();
    let mut st = ControlState::new();
    let act = frame(&mut g, &mut r, &mut st, false, true);
    assert_eq!(act, Action::Invert);
    for row in 0..5 {
        for col in 0..5 {
            assert_eq!(g.get_cell(row, col), 1);
        }
    }
}

#[test]
fn a_beats_b_when_both_are_pressed() {
    let mut g = Grid::new();
    let mut r = rng();
    let mut st = ControlState::new();
    let act = frame(&mut g, &mut r, &mut st, true, true);
    assert_eq!(act, Action::Randomize);
    assert_eq!(st.end_timer, 0);
    // B never fired, so no cooldown is running.
    assert_eq!(st.b_ignore_timer, 0);
}

#[test]
fn a_randomizes_every_frame_while_held() {
    let mut g = Grid::new();
    let mut r = rng();
    let mut st = ControlState::new();
    for _ in 0..5 {
        let act = frame(&mut g, &mut r, &mut st, true, false);
        assert_eq!(act, Action::Randomize);
        assert_eq!(st.end_timer, 0);
    }
}

#[test]
fn button_action_resets_idle_counter() {
    // Idle counter at 3 on an all-dead board; a B press inverts and resets
    // it in the same frame.
    let mut g = Grid::new();
    let mut r = rng();
    let mut st = ControlState::new();
    st.end_timer = 3;
    let act = frame(&mut g, &mut r, &mut st, false, true);
    assert_eq!(act, Action::Invert);
    assert_eq!(st.end_timer, 0);

    // Same with A, on a board that is not empty.
    let mut st2 = ControlState::new();
    st2.end_timer = 3;
    let act2 = frame(&mut g, &mut r, &mut st2, true, false);
    assert_eq!(act2, Action::Randomize);
    assert_eq!(st2.end_timer, 0);
}

#[test]
fn live_board_steps_and_keeps_idle_counter_at_zero() {
    let mut g = Grid::new();
    // A stable 2x2 block.
    g.set_cell(1, 1, 1);
    g.set_cell(1, 2, 1);
    g.set_cell(2, 1, 1);
    g.set_cell(2, 2, 1);
    let mut r = rng();
    let mut st = ControlState::new();
    for _ in 0..3 {
        let act = frame(&mut g, &mut r, &mut st, false, false);
        assert_eq!(act, Action::Step);
        assert_eq!(st.end_timer, 0);
    }
    // The block is a still life: all four cells survive every step.
    assert_eq!(g.get_cell(1, 1), 1);
    assert_eq!(g.get_cell(1, 2), 1);
    assert_eq!(g.get_cell(2, 1), 1);
    assert_eq!(g.get_cell(2, 2), 1);
    assert_eq!(g.get_cell(0, 0), 0);
}
