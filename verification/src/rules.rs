//! The rules that turn one tick's samples into timer actions.
//!
//! All of them look at the latest sample of each field only. At most one
//! action fires per tick; where several rules hold, starting wins over
//! splitting and splitting over resetting.

use vstd::prelude::*;
use crate::memory::{Vars, VarsView};
use crate::text::has_substring;
use crate::timer::{GameTime, TimerAction, TimerState};

verus! {

/// The menu state in which a run starts.
pub const MENU_STATE_START: i32 = 10;

/// The menu state in which a split is due.
pub const MENU_STATE_SPLIT: i32 = 12;

/// The menu state in which a run is reset.
pub const MENU_STATE_RESET: i32 = 7;

/// A menu state in which the in-game time stands still.
pub const MENU_STATE_PAUSED: i32 = 6;

/// The one menu state in which loading does not stop the in-game time.
pub const MENU_STATE_TIMED_LOADING: i32 = 9;

/// The text of [`SPLIT_MARKER`].
pub open spec fn split_marker() -> Seq<char> {
    "success"@
}

/// What the name of the cutscene holds when a mission was completed.
pub const SPLIT_MARKER: &'static str = "success";

/// `mission` is what `order` holds at `index`. An index outside the order
/// expects nothing.
pub open spec fn expects(order: Seq<i32>, index: int, mission: i32) -> bool {
    0 <= index < order.len() && order[index] == mission
}

/// The in-game time is to stand still: the game is loading, in any menu state
/// but the one in which loading is timed, or is in one of the two menu states
/// in which time never runs.
pub open spec fn spec_should_pause(vars: VarsView) -> bool {
    ||| (vars.is_loading.current != 0 && vars.menu_state.current != MENU_STATE_TIMED_LOADING)
    ||| vars.menu_state.current == MENU_STATE_PAUSED
    ||| vars.menu_state.current == MENU_STATE_SPLIT
}

/// Whether the in-game time is to stand still.
pub fn should_pause(vars: &Vars) -> (pause: bool)
    ensures
        pause == spec_should_pause(vars@),
{
    (vars.is_loading.current != 0 && vars.menu_state.current != MENU_STATE_TIMED_LOADING)
        || vars.menu_state.current == MENU_STATE_PAUSED || vars.menu_state.current
        == MENU_STATE_SPLIT
}

/// What to do to the in-game time: decided in every tick of a running timer,
/// whatever else the tick does, and in no other.
pub open spec fn game_time(timer_state: Option<TimerState>, vars: VarsView) -> Option<GameTime> {
    if timer_state == Some(TimerState::Running) {
        Some(
            if spec_should_pause(vars) {
                GameTime::Pause
            } else {
                GameTime::Resume
            },
        )
    } else {
        None
    }
}

/// While no run is in progress, a difficulty other than the easiest moves the
/// cursor to the second entry of the order: such a run skips the first.
pub open spec fn primes(timer_state: Option<TimerState>, vars: VarsView) -> bool {
    timer_state == Some(TimerState::NotRunning) && vars.difficulty.current != 0
}

/// The cursor with which the rules of this tick are evaluated.
pub open spec fn primed(cursor: nat, timer_state: Option<TimerState>, vars: VarsView) -> nat {
    if primes(timer_state, vars) {
        1
    } else {
        cursor
    }
}

/// The entry of the order at which a run of this difficulty begins.
pub open spec fn start_index(vars: VarsView) -> int {
    if vars.difficulty.current == 0 {
        0
    } else {
        1
    }
}

/// A run starts: none is in progress, and the mission at the cursor is being
/// loaded in the menu state of a start.
pub open spec fn start_condition(
    timer_state: TimerState,
    order: Seq<i32>,
    cursor: nat,
    vars: VarsView,
) -> bool {
    &&& timer_state == TimerState::NotRunning
    &&& expects(order, cursor as int, vars.miss_idx.current)
    &&& vars.menu_state.current == MENU_STATE_START
    &&& vars.is_loading.current != 0
}

/// A split is due: the run is in progress, the game is in the menu state of a
/// split with the mission at the cursor, and the name of the cutscene holds
/// the split marker.
pub open spec fn split_condition(
    timer_state: TimerState,
    order: Seq<i32>,
    cursor: nat,
    vars: VarsView,
) -> bool {
    &&& timer_state == TimerState::Running
    &&& vars.menu_state.current == MENU_STATE_SPLIT
    &&& expects(order, cursor as int, vars.miss_idx.current)
    &&& has_substring(vars.cutscene_name.current, split_marker())
}

/// A reset is due: the run is in progress or has ended, and the game is in the
/// menu state of a reset with the mission that runs of this difficulty begin
/// with. The cursor plays no part in this rule.
pub open spec fn reset_condition(timer_state: TimerState, order: Seq<i32>, vars: VarsView) -> bool {
    &&& timer_state == TimerState::Running || timer_state == TimerState::Ended
    &&& expects(order, start_index(vars), vars.miss_idx.current)
    &&& vars.menu_state.current == MENU_STATE_RESET
}

/// The action of this tick, if any: the first of start, split and reset whose
/// condition holds.
pub open spec fn action(
    timer_state: Option<TimerState>,
    order: Seq<i32>,
    cursor: nat,
    vars: VarsView,
) -> Option<TimerAction> {
    match timer_state {
        Some(timer_state) => {
            if start_condition(timer_state, order, cursor, vars) {
                Some(TimerAction::Start)
            } else if split_condition(timer_state, order, cursor, vars) {
                Some(TimerAction::Split)
            } else if reset_condition(timer_state, order, vars) {
                Some(TimerAction::Reset)
            } else {
                None
            }
        },
        None => None,
    }
}

/// The cursor after `action`: a split moves it on by one, a reset takes it
/// back to the first entry, and nothing else moves it.
pub open spec fn advanced(cursor: nat, action: Option<TimerAction>) -> nat {
    match action {
        Some(TimerAction::Split) => cursor + 1,
        Some(TimerAction::Reset) => 0,
        _ => cursor,
    }
}

/// No two of the three conditions hold of the same samples: each asks for a
/// menu state of its own.
pub proof fn lemma_conditions_exclusive(
    timer_state: TimerState,
    order: Seq<i32>,
    cursor: nat,
    vars: VarsView,
)
    ensures
        !(start_condition(timer_state, order, cursor, vars) && split_condition(
            timer_state,
            order,
            cursor,
            vars,
        )),
        !(start_condition(timer_state, order, cursor, vars) && reset_condition(
            timer_state,
            order,
            vars,
        )),
        !(split_condition(timer_state, order, cursor, vars) && reset_condition(
            timer_state,
            order,
            vars,
        )),
{
}

} // verus!
