//! The per-frame interaction controller: decides, once per frame, whether
//! the board is randomized, inverted, stepped, or left alone, from the two
//! button readings and two countdown timers.
//!
//! Priority, per frame: A (randomize, no cooldown) beats B (invert, then a
//! 5-frame cooldown on further B presses); with no qualifying button press,
//! an all-dead board waits up to 5 frames before being re-randomized, and a
//! live board is stepped one generation.

use vstd::prelude::*;
use crate::grid::{Grid, complements, steps_to, complement_board, done, life, randomize_board};

verus! {

/// The one action the controller issues to the board each frame.
#[derive(Clone, Copy, Debug, PartialEq, Eq, Structural)]
pub enum Action {
    /// Rewrite the board with fresh random cells.
    Randomize,
    /// Flip every cell.
    Invert,
    /// Advance the board one Game-of-Life generation.
    Step,
    /// Leave the board untouched (an all-dead board, waiting out the idle
    /// window).
    Wait,
}

/// The controller's countdown timers.
#[derive(Clone, Copy, Debug, PartialEq, Eq, Structural)]
pub struct ControlState {
    /// Frames remaining during which a B press is suppressed after an
    /// invert.
    pub b_ignore_timer: u8,
    /// Consecutive frames the board has been observed all-dead.
    pub end_timer: u8,
}

impl ControlState {
    /// The startup state: no cooldown running, no idle frames observed.
    pub fn new() -> (st: ControlState)
        ensures
            st.b_ignore_timer == 0,
            st.end_timer == 0,
    {
        ControlState { b_ignore_timer: 0, end_timer: 0 }
    }
}

/// Which action a frame takes, given the button readings, the timers at the
/// start of the frame, and whether the board is currently all-dead.
pub open spec fn spec_action(
    a_pressed: bool,
    b_pressed: bool,
    b_ignore: u8,
    end_timer: u8,
    empty: bool,
) -> Action {
    if a_pressed {
        Action::Randomize
    } else if b_pressed && b_ignore == 0 {
        Action::Invert
    } else if empty {
        if end_timer < 5 {
            Action::Wait
        } else {
            Action::Randomize
        }
    } else {
        Action::Step
    }
}

/// The idle counter after a frame: it grows only while the frame waits on an
/// all-dead board; every action (button-driven or not) resets it.
pub open spec fn end_timer_after(act: Action, end_timer: u8) -> int {
    if act == Action::Wait {
        end_timer + 1
    } else {
        0
    }
}

/// The B cooldown after a frame: an invert arms it at 5, and every frame,
/// the arming one included, then counts it down by one.
pub open spec fn ignore_timer_after(act: Action, b_ignore: u8) -> int {
    if act == Action::Invert {
        4
    } else if b_ignore > 0 {
        b_ignore - 1
    } else {
        0
    }
}

/// Run one frame: pick the action for the current inputs, apply it to the
/// board, and update both timers.
pub fn frame(
    fb: &mut Grid,
    rng: &mut nanorand::Pcg64,
    st: &mut ControlState,
    a_pressed: bool,
    b_pressed: bool,
) -> (act: Action)
    requires
        old(fb).wf(),
    ensures
        final(fb).wf(),
        act == spec_action(
            a_pressed,
            b_pressed,
            old(st).b_ignore_timer,
            old(st).end_timer,
            old(fb).empty(),
        ),
        final(st).end_timer == end_timer_after(act, old(st).end_timer),
        final(st).b_ignore_timer == ignore_timer_after(act, old(st).b_ignore_timer),
        act == Action::Invert ==> complements(*final(fb), *old(fb)),
        act == Action::Step ==> steps_to(*final(fb), *old(fb)),
        act == Action::Wait ==> *final(fb) == *old(fb),
{
    let act: Action;
    if a_pressed {
        randomize_board(fb, rng);
        st.end_timer = 0;
        act = Action::Randomize;
    } else if b_pressed && st.b_ignore_timer == 0 {
        complement_board(fb);
        st.b_ignore_timer = 5;
        st.end_timer = 0;
        act = Action::Invert;
    } else {
        if done(fb) {
            if st.end_timer < 5 {
                st.end_timer = st.end_timer + 1;
                act = Action::Wait;
            } else {
                randomize_board(fb, rng);
                st.end_timer = 0;
                act = Action::Randomize;
            }
        } else {
            life(fb);
            st.end_timer = 0;
            act = Action::Step;
        }
    }
    if st.b_ignore_timer > 0 {
        st.b_ignore_timer = st.b_ignore_timer - 1;
    }
    act
}

/// A takes strict priority over B: whenever A is pressed the frame
/// randomizes, and an invert can never fire in the same frame.
pub proof fn lemma_a_button_priority(b_pressed: bool, b_ignore: u8, end_timer: u8, empty: bool)
    ensures
        spec_action(true, b_pressed, b_ignore, end_timer, empty) == Action::Randomize,
        spec_action(true, b_pressed, b_ignore, end_timer, empty) != Action::Invert,
{
}

/// While the B cooldown is running, no frame inverts the board, however the
/// buttons are held.
pub proof fn lemma_b_cooldown_suppresses(
    a_pressed: bool,
    b_pressed: bool,
    b_ignore: u8,
    end_timer: u8,
    empty: bool,
)
    requires
        b_ignore > 0,
    ensures
        spec_action(a_pressed, b_pressed, b_ignore, end_timer, empty) != Action::Invert,
{
}

/// Any button action resets the idle counter to zero that same frame,
/// whatever its value was and whatever the board looks like.
pub proof fn lemma_button_action_resets_idle(
    a_pressed: bool,
    b_pressed: bool,
    b_ignore: u8,
    end_timer: u8,
    empty: bool,
)
    requires
        a_pressed || (b_pressed && b_ignore == 0),
    ensures
        end_timer_after(spec_action(a_pressed, b_pressed, b_ignore, end_timer, empty), end_timer)
            == 0,
{
}

/// The idle timeout: with no qualifying button press and an all-dead board,
/// each frame only counts the idle timer up, until it reaches 5; the next
/// such frame re-randomizes the board and resets the timer.
pub proof fn lemma_idle_timeout(b_ignore: u8, end_timer: u8)
    ensures
        end_timer < 5 ==> spec_action(false, false, b_ignore, end_timer, true) == Action::Wait
            && end_timer_after(spec_action(false, false, b_ignore, end_timer, true), end_timer)
            == end_timer + 1,
        end_timer >= 5 ==> spec_action(false, false, b_ignore, end_timer, true)
            == Action::Randomize && end_timer_after(
            spec_action(false, false, b_ignore, end_timer, true),
            end_timer,
        ) == 0,
{
}

} // verus!
