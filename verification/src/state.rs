//! The state kept from tick to tick, and the step that one tick takes.
//!
//! The driver owns the process and the timer. Every tick it tells the state
//! what it observed, as an [`Event`], and carries out the [`Effects`] it gets
//! back. While [`State::session`] is `None` it tries to attach to the game and
//! reports the outcome; otherwise it reports that the process is gone, or what
//! it read from it together with the phase of the timer.

use vstd::prelude::*;
use crate::error::{AttachCause, Error};
use crate::memory::{MemoryWatchers, MemoryWatchersView, Readings, Vars, VarsView};
use crate::rules::{
    action, advanced, game_time, primed, primes, reset_condition, should_pause, split_condition,
    start_condition, MENU_STATE_RESET, MENU_STATE_SPLIT, MENU_STATE_START, SPLIT_MARKER,
};
use crate::sequence::{gold_order, maybe_upgrade, standard_order, standard_sequence, upgraded};
use crate::text::str_contains;
use crate::timer::{GameTime, TickRate, TimerAction, TimerState};

verus! {

/// The module of the game whose base address all paths start from; also the
/// name by which its process is found.
pub const MAIN_MODULE: &'static str = "THIEF.EXE";

/// A game being followed: the handle of its process, which the state only
/// keeps for the driver, and the address at which its main module lies.
#[derive(Debug)]
pub struct Session<P> {
    pub process: P,
    pub base_address: u64,
}

/// What the driver observed in one tick.
#[derive(Debug)]
pub enum Event<P> {
    /// The outcome of looking for the game: its process if there is one, and
    /// the base address of its main module if that was found too.
    Attach { process: Option<P>, base_address: Option<u64> },
    /// The process of the session is no longer open.
    Closed,
    /// The process is open. `readings` is what was read from it, and
    /// `timer_state` the phase of the timer, or `None` where the timer is in
    /// a phase that no rule speaks of.
    Live { readings: Readings, timer_state: Option<TimerState> },
}

/// What the driver is to do at the end of a tick. It logs the error, asks for
/// the tick rate, pauses or resumes the in-game time, and performs the
/// action, in this order, each where there is one.
#[derive(Clone, Copy, Debug, PartialEq, Eq, Structural)]
pub struct Effects {
    pub error: Option<Error>,
    pub tick_rate: Option<TickRate>,
    pub game_time: Option<GameTime>,
    pub action: Option<TimerAction>,
}

impl Effects {
    /// The effects of a tick that ends without a session, for `error` if
    /// there was one: the driver slows down to the idle rate.
    pub open spec fn detaching(error: Option<Error>) -> Effects {
        Effects { error, tick_rate: Some(TickRate::Idle), game_time: None, action: None }
    }

    /// The effects of a tick that began a session: the driver speeds up.
    pub open spec fn attaching() -> Effects {
        Effects { error: None, tick_rate: Some(TickRate::Running), game_time: None, action: None }
    }
}

/// Mathematical model of a [`State`].
pub struct StateView<P> {
    /// The game being followed, if any.
    pub session: Option<Session<P>>,
    /// The watchers of its fields.
    pub values: MemoryWatchersView,
    /// The missions in the order in which the run is expected to visit them.
    pub miss_idx_order: Seq<i32>,
    /// The cursor: the position in the order of the mission expected next.
    pub split_idx: nat,
    /// Whether the run is known to be one of Thief Gold.
    pub is_gold: bool,
}

impl<P> StateView<P> {
    /// The state before anything was observed.
    pub open spec fn initial() -> Self {
        StateView {
            session: None,
            values: MemoryWatchersView::cleared(),
            miss_idx_order: standard_order(),
            split_idx: 0,
            is_gold: false,
        }
    }

    /// The state at the start of a session. Nothing of an earlier state
    /// enters into it.
    pub open spec fn attached(process: P, base_address: u64) -> Self {
        StateView {
            session: Some(Session { process, base_address }),
            values: MemoryWatchersView::configured(),
            miss_idx_order: standard_order(),
            split_idx: 0,
            is_gold: false,
        }
    }

    /// This state without its session and with all watchers cleared.
    pub open spec fn detached(self) -> Self {
        StateView { session: None, values: MemoryWatchersView::cleared(), ..self }
    }

    /// Why an attempt to attach with this outcome begins no session, if it
    /// does not.
    pub open spec fn attach_failure(process: Option<P>, base_address: Option<u64>) -> Option<
        Error,
    > {
        if process is None {
            Some(Error::AttachFailure { cause: AttachCause::ProcessNotFound })
        } else if base_address is None {
            Some(Error::AttachFailure { cause: AttachCause::ModuleNotFound })
        } else {
            None
        }
    }

    /// The state after an attempt to attach: a new session if both the
    /// process and the address were found, and no session otherwise.
    pub open spec fn init(self, process: Option<P>, base_address: Option<u64>) -> Self {
        if Self::attach_failure(process, base_address) is Some {
            self.detached()
        } else {
            Self::attached(process->0, base_address->0)
        }
    }

    /// Why the watchers cannot take in `readings`, if they cannot.
    pub open spec fn refresh_failure(self, readings: Readings) -> Option<Error> {
        if self.session is None {
            Some(Error::AttachFailure { cause: AttachCause::NotAttached })
        } else {
            self.values.refresh_failure(readings)
        }
    }

    /// The timer action that the rules ask for, given the samples `vars` and
    /// the phase of the timer. The order is upgraded and the cursor primed
    /// before the rules are evaluated.
    pub open spec fn tick_action(self, vars: VarsView, timer_state: Option<TimerState>) -> Option<
        TimerAction,
    > {
        action(
            timer_state,
            upgraded(self.miss_idx_order, self.is_gold, vars.miss_idx.current).0,
            primed(self.split_idx, timer_state, vars),
            vars,
        )
    }

    /// The state after the rules were applied to the samples `vars`.
    pub open spec fn ticked(self, vars: VarsView, timer_state: Option<TimerState>) -> Self {
        StateView {
            miss_idx_order: upgraded(self.miss_idx_order, self.is_gold, vars.miss_idx.current).0,
            is_gold: upgraded(self.miss_idx_order, self.is_gold, vars.miss_idx.current).1,
            split_idx: advanced(
                primed(self.split_idx, timer_state, vars),
                self.tick_action(vars, timer_state),
            ),
            ..self
        }
    }

    /// The state after a tick that observed `event`.
    pub open spec fn update(self, event: Event<P>) -> Self {
        match event {
            Event::Attach { process, base_address } => self.init(process, base_address),
            Event::Closed => self.detached(),
            Event::Live { readings, timer_state } => {
                if self.refresh_failure(readings) is Some {
                    self.detached()
                } else {
                    (StateView { values: self.values.refreshed(readings), ..self }).ticked(
                        self.values.snapshot(readings),
                        timer_state,
                    )
                }
            },
        }
    }

    /// What the driver is asked to do after a tick that observed `event`.
    pub open spec fn effects(self, event: Event<P>) -> Effects {
        match event {
            Event::Attach { process, base_address } => {
                if Self::attach_failure(process, base_address) is Some {
                    Effects::detaching(Self::attach_failure(process, base_address))
                } else {
                    Effects::attaching()
                }
            },
            Event::Closed => Effects::detaching(None),
            Event::Live { readings, timer_state } => {
                if self.refresh_failure(readings) is Some {
                    Effects::detaching(self.refresh_failure(readings))
                } else {
                    Effects {
                        error: None,
                        tick_rate: None,
                        game_time: game_time(timer_state, self.values.snapshot(readings)),
                        action: self.tick_action(self.values.snapshot(readings), timer_state),
                    }
                }
            },
        }
    }

    /// What holds of every state that a driver can reach: without a session
    /// no watcher holds anything; within one, every watcher has its path; the
    /// order is the one of the edition; and the cursor lies within the order
    /// or just behind its end.
    pub open spec fn inv(self) -> bool {
        &&& self.session is None ==> self.values == MemoryWatchersView::cleared()
        &&& self.session is Some ==> self.values.configured_paths()
        &&& self.miss_idx_order == if self.is_gold {
            gold_order()
        } else {
            standard_order()
        }
        &&& self.split_idx <= self.miss_idx_order.len()
    }
}

/// The state of the splitter: the session, the watchers, the expected order
/// of missions and the cursor into it.
#[derive(Debug)]
pub struct State<P> {
    session: Option<Session<P>>,
    values: MemoryWatchers,
    miss_idx_order: Vec<i32>,
    split_idx: usize,
    is_gold: bool,
}

impl<P> View for State<P> {
    type V = StateView<P>;

    closed spec fn view(&self) -> StateView<P> {
        StateView {
            session: self.session,
            values: self.values@,
            miss_idx_order: self.miss_idx_order@,
            split_idx: self.split_idx as nat,
            is_gold: self.is_gold,
        }
    }
}

impl<P> State<P> {
    /// The state before anything was observed: no session, no samples.
    pub fn new() -> (state: Self)
        ensures
            state@ == StateView::<P>::initial(),
    {
        State {
            session: None,
            values: MemoryWatchers::default(),
            miss_idx_order: standard_sequence(),
            split_idx: 0,
            is_gold: false,
        }
    }

    /// The game being followed, if any.
    pub fn session(&self) -> (session: Option<&Session<P>>)
        ensures
            match session {
                Some(session) => self@.session == Some(*session),
                None => self@.session is None,
            },
    {
        self.session.as_ref()
    }

    /// The watchers, for their paths and samples.
    pub fn values(&self) -> (values: &MemoryWatchers)
        ensures
            values@ == self@.values,
    {
        &self.values
    }

    /// The expected order of missions.
    pub fn miss_idx_order(&self) -> (order: &[i32])
        ensures
            order@ == self@.miss_idx_order,
    {
        self.miss_idx_order.as_slice()
    }

    /// The cursor into the order.
    pub fn split_idx(&self) -> (cursor: usize)
        ensures
            cursor == self@.split_idx,
    {
        self.split_idx
    }

    /// Whether the run is known to be one of Thief Gold.
    pub fn is_gold(&self) -> (is_gold: bool)
        ensures
            is_gold == self@.is_gold,
    {
        self.is_gold
    }

    /// Takes in the outcome of looking for the game. With a process and the
    /// base address of its main module a session begins, with fresh watchers,
    /// the standard order and the cursor at its start, and the rate to tick
    /// at from now on is returned. With either missing, the state is left
    /// without a session and the cause is returned.
    pub fn init(&mut self, process: Option<P>, base_address: Option<u64>) -> (result: Result<
        TickRate,
        Error,
    >)
        ensures
            final(self)@ == old(self)@.init(process, base_address),
            result == match StateView::<P>::attach_failure(process, base_address) {
                Some(error) => Err::<TickRate, Error>(error),
                None => Ok::<TickRate, Error>(TickRate::Running),
            },
    {
        let process = match process {
            Some(process) => process,
            None => {
                self.detach_process();
                return Err(Error::AttachFailure { cause: AttachCause::ProcessNotFound });
            },
        };
        let base_address = match base_address {
            Some(address) => address,
            None => {
                self.detach_process();
                return Err(Error::AttachFailure { cause: AttachCause::ModuleNotFound });
            },
        };
        self.session = Some(Session { process, base_address });
        self.values = MemoryWatchers::configured();
        self.miss_idx_order = standard_sequence();
        self.split_idx = 0;
        self.is_gold = false;
        Ok(TickRate::Running)
    }

    /// Ends the session, if there is one, and clears every watcher. Returns
    /// the rate to tick at from now on.
    pub fn detach_process(&mut self) -> (rate: TickRate)
        ensures
            final(self)@ == old(self)@.detached(),
            rate == TickRate::Idle,
    {
        self.session = None;
        self.values = MemoryWatchers::default();
        TickRate::Idle
    }

    /// Refreshes the watchers with what one tick read. Without a session, or
    /// with a field that was not read or a cutscene name that does not
    /// decode, nothing changes and the first such failure is returned.
    /// Otherwise every watcher takes its value in and the new samples are
    /// returned.
    pub fn update_mem_values(&mut self, readings: &Readings) -> (result: Result<Vars, Error>)
        ensures
            match old(self)@.refresh_failure(*readings) {
                Some(error) => {
                    &&& result == Err::<Vars, Error>(error)
                    &&& final(self)@ == old(self)@
                },
                None => {
                    &&& result matches Ok(vars) && vars@ == old(self)@.values.snapshot(*readings)
                    &&& final(self)@ == (StateView {
                        values: old(self)@.values.refreshed(*readings),
                        ..old(self)@
                    })
                },
            },
    {
        if self.session.is_none() {
            return Err(Error::AttachFailure { cause: AttachCause::NotAttached });
        }
        self.values.update(readings)
    }

    /// Whether the mission at `index` of the order is `mission`.
    fn expects(&self, index: usize, mission: i32) -> (hit: bool)
        ensures
            hit == crate::rules::expects(self@.miss_idx_order, index as int, mission),
    {
        index < self.miss_idx_order.len() && self.miss_idx_order[index] == mission
    }

    /// Whether a run starts with these samples.
    pub fn should_start(&self, timer_state: TimerState, vars: &Vars) -> (fire: bool)
        ensures
            fire == start_condition(timer_state, self@.miss_idx_order, self@.split_idx, vars@),
    {
        let valid_timer = timer_state == TimerState::NotRunning;
        valid_timer && self.expects(self.split_idx, vars.miss_idx.current)
            && vars.menu_state.current == MENU_STATE_START && vars.is_loading.current != 0
    }

    /// Whether a split is due with these samples.
    pub fn should_split(&self, timer_state: TimerState, vars: &Vars) -> (fire: bool)
        ensures
            fire == split_condition(timer_state, self@.miss_idx_order, self@.split_idx, vars@),
    {
        let valid_timer = timer_state == TimerState::Running;
        valid_timer && vars.menu_state.current == MENU_STATE_SPLIT && self.expects(
            self.split_idx,
            vars.miss_idx.current,
        ) && str_contains(vars.cutscene_name.current.as_str(), SPLIT_MARKER)
    }

    /// Whether a reset is due with these samples.
    pub fn should_reset(&self, timer_state: TimerState, vars: &Vars) -> (fire: bool)
        ensures
            fire == reset_condition(timer_state, self@.miss_idx_order, vars@),
    {
        let valid_timer = timer_state == TimerState::Running || timer_state == TimerState::Ended;
        let start_split: usize = if vars.difficulty.current == 0 {
            0
        } else {
            1
        };
        valid_timer && self.expects(start_split, vars.miss_idx.current) && vars.menu_state.current
            == MENU_STATE_RESET
    }

    /// Takes one tick: moves the state on by what the driver observed and
    /// tells it what to do.
    pub fn update(&mut self, event: Event<P>) -> (effects: Effects)
        ensures
            final(self)@ == old(self)@.update(event),
            effects == old(self)@.effects(event),
    {
        match event {
            Event::Attach { process, base_address } => {
                match self.init(process, base_address) {
                    Ok(rate) => Effects {
                        error: None,
                        tick_rate: Some(rate),
                        game_time: None,
                        action: None,
                    },
                    Err(error) => Effects {
                        error: Some(error),
                        tick_rate: Some(TickRate::Idle),
                        game_time: None,
                        action: None,
                    },
                }
            },
            Event::Closed => {
                let rate = self.detach_process();
                Effects { error: None, tick_rate: Some(rate), game_time: None, action: None }
            },
            Event::Live { readings, timer_state } => {
                let vars = match self.update_mem_values(&readings) {
                    Ok(vals) => vals,
                    Err(error) => {
                        let rate = self.detach_process();
                        return Effects {
                            error: Some(error),
                            tick_rate: Some(rate),
                            game_time: None,
                            action: None,
                        };
                    },
                };
                if let Some(order) = maybe_upgrade(&vars, self.is_gold) {
                    self.miss_idx_order = order;
                    self.is_gold = true;
                }
                let mut effects = Effects {
                    error: None,
                    tick_rate: None,
                    game_time: None,
                    action: None,
                };
                if let Some(timer_state) = timer_state {
                    if timer_state == TimerState::NotRunning && vars.difficulty.current != 0 {
                        self.split_idx = 1;
                    }
                    if timer_state == TimerState::Running {
                        if should_pause(&vars) {
                            effects.game_time = Some(GameTime::Pause);
                        } else {
                            effects.game_time = Some(GameTime::Resume);
                        }
                    }
                    if self.should_start(timer_state, &vars) {
                        effects.action = Some(TimerAction::Start);
                    } else if self.should_split(timer_state, &vars) {
                        effects.action = Some(TimerAction::Split);
                        assert(self.split_idx < self.miss_idx_order.len());
                        self.split_idx += 1;
                    } else if self.should_reset(timer_state, &vars) {
                        effects.action = Some(TimerAction::Reset);
                        self.split_idx = 0;
                    }
                }
                effects
            },
        }
    }
}

/// The state before anything was observed is one that [`StateView::inv`]
/// holds of.
pub proof fn lemma_initial_inv<P>()
    ensures
        StateView::<P>::initial().inv(),
{
}

/// Whatever a tick observes, it keeps [`StateView::inv`]: in particular the
/// cursor never runs further than one step behind the end of the order.
pub proof fn lemma_update_preserves_inv<P>(state: StateView<P>, event: Event<P>)
    requires
        state.inv(),
    ensures
        state.update(event).inv(),
{
    assert(standard_order().len() == 13);
    assert(gold_order().len() == 16);
}

/// The cursor moves in four ways only. A split moves it on by one. A reset
/// takes it to 0. Priming, which needs a timer that is not running and a
/// difficulty other than the easiest, takes it to 1. The start of a session
/// puts it at 0. In every other tick it stays where it is; so it never
/// decreases but by a reset, by priming or with a new session, and never
/// increases but by a split or by priming.
pub proof fn lemma_cursor_moves<P>(state: StateView<P>, event: Event<P>)
    ensures
        ({
            let next = state.update(event);
            let effects = state.effects(event);
            ||| next.split_idx == state.split_idx
            ||| effects.action == Some(TimerAction::Split) && next.split_idx == state.split_idx + 1
            ||| effects.action == Some(TimerAction::Reset) && next.split_idx == 0
            ||| event matches Event::Live { readings, timer_state } && state.refresh_failure(
                readings,
            ) is None && primes(timer_state, state.values.snapshot(readings)) && effects.action
                != Some(TimerAction::Split) && next.split_idx == 1
            ||| event is Attach && next.session is Some && next.split_idx == 0
        }),
{
}

/// A run that is on the Gold order stays on it for as long as its session
/// lasts: only the start of a session goes back to the standard order.
pub proof fn lemma_gold_is_kept<P>(state: StateView<P>, event: Event<P>)
    requires
        state.is_gold,
        !(event is Attach && state.update(event).session is Some),
    ensures
        state.update(event).is_gold,
        state.update(event).miss_idx_order == state.miss_idx_order,
{
}

/// A tick that leaves the state without a session leaves it without any
/// sample too, and the session that begins next, whenever that is, starts
/// from nothing: the cursor at 0, the standard order, no sight of Thief Gold,
/// and watchers that have their paths and no sample.
pub proof fn lemma_detach_clears<P>(
    state: StateView<P>,
    event: Event<P>,
    process: P,
    base_address: u64,
)
    requires
        state.update(event).session is None,
    ensures
        state.update(event).values == MemoryWatchersView::cleared(),
        state.update(event).values.no_history(),
        ({
            let next = state.update(event).update(
                Event::Attach { process: Some(process), base_address: Some(base_address) },
            );
            &&& next == StateView::attached(process, base_address)
            &&& next.session == Some(Session { process, base_address })
            &&& next.split_idx == 0
            &&& !next.is_gold
            &&& next.miss_idx_order == standard_order()
            &&& next.values.no_history()
        }),
{
}

/// An attempt to attach that fails, and a tick without a session that is
/// told of anything else, leave a state without a session as it is.
pub proof fn lemma_unattached_stays<P>(state: StateView<P>, event: Event<P>)
    requires
        state.inv(),
        state.session is None,
        state.update(event).session is None,
    ensures
        state.update(event) == state,
{
}

} // verus!
