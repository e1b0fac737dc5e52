//! The mode state machine of the ghosts.
//!
//! A level-wide schedule alternates scatter and chase. Each ghost follows it
//! while it is out in the maze, and leaves it to wait in the pen, to walk out
//! of the pen, to flee after a power pellet, and to return to the pen as a
//! pair of eyes after it was eaten.
//!
//! The timers themselves are run by the caller. The functions here are told
//! which of them ran out on the current tick, and answer with the new modes
//! and with the durations the timers are to be restarted with.

use vstd::prelude::*;
use crate::direction::Direction;
use crate::events::{any_power, spec_any_power, spec_was_eaten, was_eaten, GhostEaten, PelletEaten};
use crate::ghost::{
    home_center, home_entrance, spec_home_center, spec_home_entrance, GhostDirections, GhostId,
    GhostMode, GhostState, GlobalMode,
};
use crate::levels::{Levels, GLOBAL_MODE_STAGES};

verus! {

/// Height, in eighths, of the row in front of the pen's door. A ghost
/// walking out of the pen has left it when it reaches this row.
pub const HOME_ROW_Y: i32 = 152;

/// The pellets eaten since a ghost last left the pen, and whether a life was
/// lost on this level.
#[derive(Clone, Copy, Debug, PartialEq, Eq, Structural)]
pub struct GhostPelletEatenCounter {
    pub counter: usize,
    pub life_lost: bool,
}

/// The level-wide scatter/chase mode and the stage of its schedule.
#[derive(Clone, Copy, Debug, PartialEq, Eq, Structural)]
pub struct GlobalGhostMode {
    pub mode: GlobalMode,
    pub duration_index: usize,
}

/// What the timers say on one tick.
#[derive(Clone, Copy, Debug, PartialEq, Eq, Structural)]
pub struct ModeSignals {
    /// The fright timer ran out on this tick.
    pub frite_timer_finished: bool,
    /// The timer that lets a ghost out of the pen ran out on this tick.
    pub exit_home_timer_finished: bool,
    /// No pause after a ghost was eaten is in progress.
    pub pause_finished: bool,
}

/// Which of the ghosts' timers stand still on a tick.
#[derive(Clone, Copy, Debug, PartialEq, Eq, Structural)]
pub struct TimerGates {
    pub frite_paused: bool,
    pub exit_home_paused: bool,
    pub global_mode_paused: bool,
}

/// What a level starts with: the global mode and pellet counter, and the
/// durations to start the global mode timer (sixtieths of a second) and the
/// exit timer of the pen (seconds) with.
#[derive(Clone, Copy, Debug, PartialEq, Eq, Structural)]
pub struct LevelResources {
    pub global: GlobalGhostMode,
    pub pellet_counter: GhostPelletEatenCounter,
    pub global_mode_duration: u64,
    pub exit_home_duration: u64,
}

/// The resources of the ghosts at the start of a level: scatter mode at the
/// first stage of the schedule, no pellet counted, no life lost.
pub fn init_level_resources(levels: &Levels) -> (r: LevelResources)
    requires
        levels.current >= 1,
    ensures
        r.global == (GlobalGhostMode { mode: GlobalMode::Scatter, duration_index: 0 }),
        r.pellet_counter == (GhostPelletEatenCounter { counter: 0, life_lost: false }),
        Some(r.global_mode_duration) == levels.spec_ghost_switch_global_mode(0),
        r.exit_home_duration == levels.spec_ghost_exit_home_duration(),
{
    let first = match levels.ghost_switch_global_mode(0) {
        Some(d) => d,
        None => 0,
    };
    LevelResources {
        global: GlobalGhostMode { mode: GlobalMode::Scatter, duration_index: 0 },
        pellet_counter: GhostPelletEatenCounter { counter: 0, life_lost: false },
        global_mode_duration: first,
        exit_home_duration: levels.ghost_exit_home_duration(),
    }
}

/// After a life was lost the pellet count starts again, and the loss is
/// remembered for the rest of the level. The caller restarts the exit timer
/// of the pen.
pub fn reset_resources_on_death(pellet_eaten_counter: &mut GhostPelletEatenCounter)
    ensures
        *final(pellet_eaten_counter) == (GhostPelletEatenCounter { counter: 0, life_lost: true }),
{
    pellet_eaten_counter.life_lost = true;
    pellet_eaten_counter.counter = 0;
}

/// Which timers stand still: the fright timer and the exit timer of the pen
/// during the pause after a ghost was eaten, the global mode timer during
/// that pause and as long as the ghosts are frightened.
pub fn timer_pause(pause_finished: bool, frite_finished: bool) -> (r: TimerGates)
    ensures
        r.frite_paused == !pause_finished,
        r.exit_home_paused == !pause_finished,
        r.global_mode_paused == !(pause_finished && frite_finished),
{
    TimerGates {
        frite_paused: !pause_finished,
        exit_home_paused: !pause_finished,
        global_mode_paused: !(pause_finished && frite_finished),
    }
}

impl GlobalGhostMode {
    /// The global mode after a tick on which its timer ran out or not. When
    /// it ran out the mode flips and the schedule moves on one stage.
    pub open spec fn spec_update(&self, timer_finished: bool) -> GlobalGhostMode {
        if timer_finished {
            GlobalGhostMode {
                mode: self.mode.spec_flipped(),
                duration_index: (self.duration_index + 1) as usize,
            }
        } else {
            *self
        }
    }
}

/// Advances the global mode by one tick. `timer_finished` says whether the
/// global mode timer ran out on this tick. If it did, the mode flips and the
/// schedule moves to its next stage; the result is the duration, in sixtieths
/// of a second, to restart the timer with. The result is `None` when the
/// timer did not run out, and when the schedule is used up: the mode then
/// stays as it is for the rest of the level.
pub fn update_global_ghost_mode(
    global: &mut GlobalGhostMode,
    timer_finished: bool,
    levels: &Levels,
) -> (restart: Option<u64>)
    requires
        levels.current >= 1,
        old(global).duration_index < usize::MAX,
    ensures
        *final(global) == old(global).spec_update(timer_finished),
        restart == if timer_finished {
            levels.spec_ghost_switch_global_mode(final(global).duration_index)
        } else {
            None
        },
        restart is Some <==> timer_finished && final(global).duration_index < GLOBAL_MODE_STAGES,
{
    if !timer_finished {
        return None;
    }
    global.mode = global.mode.flipped();
    global.duration_index = global.duration_index + 1;
    levels.ghost_switch_global_mode(global.duration_index)
}

/// Whether the exit timer of the pen starts again: it does whenever a pellet
/// was eaten.
pub fn exit_home_timer_restarts(pellets_eaten: usize) -> (r: bool)
    ensures
        r == (pellets_eaten != 0),
{
    pellets_eaten != 0
}

/// Whether `who` may leave the pen as far as the others are concerned: Pinky
/// always, Inky once Pinky has left, Clyde once Pinky and Inky have left.
pub open spec fn can_leave_home(who: GhostId, pinky_in_home: bool, inky_in_home: bool) -> bool {
    match who {
        GhostId::Blinky => false,
        GhostId::Pinky => true,
        GhostId::Inky => !pinky_in_home,
        GhostId::Clyde => !pinky_in_home && !inky_in_home,
    }
}

/// Whether the last ghost `who` of `ghosts` is in the pen (false if there is
/// none).
pub open spec fn spec_in_home(ghosts: Seq<GhostState>, who: GhostId) -> bool
    decreases ghosts.len(),
{
    if ghosts.len() == 0 {
        false
    } else if ghosts.last().id == who {
        ghosts.last().mode is Home
    } else {
        spec_in_home(ghosts.drop_last(), who)
    }
}

impl GhostState {
    /// The mode step is defined for the ghost: Blinky is not in the pen, and
    /// Pinky is in the pen only after a life was lost.
    pub open spec fn spec_can_update_mode(&self, life_lost: bool) -> bool {
        self.mode is Home ==> Levels::counts_home_exit_dots(self.id, life_lost)
    }

    /// Whether the mode step is defined for the ghost.
    #[verifier::when_used_as_spec(spec_can_update_mode)]
    pub fn can_update_mode(&self, life_lost: bool) -> (r: bool)
        ensures
            r == self.spec_can_update_mode(life_lost),
    {
        !self.mode.is_home() || (self.id != GhostId::Blinky && (self.id != GhostId::Pinky
            || life_lost))
    }

    /// The ghost and the pellet counter after the ghost's mode step.
    ///
    /// * Frightened: eaten by the player, it pauses dead; else, when the
    ///   fright timer runs out, it takes up the global mode.
    /// * Pausing dead: when the pause is over it is dead.
    /// * Dead: at the entrance of the pen it starts to enter it.
    /// * Entering the pen: at the middle of the pen it starts to leave again.
    /// * In the pen: the fright flag is dropped when the fright timer runs
    ///   out. It starts to leave when the others allow it and enough pellets
    ///   were eaten or the exit timer ran out; the pellet count then starts
    ///   again.
    /// * Leaving the pen: the flag is dropped likewise. On the row in front
    ///   of the door it turns left and becomes frightened, if flagged, or
    ///   takes up the global mode.
    /// * Chasing or scattering: if the global mode is the other one, it
    ///   takes it up and plans to reverse.
    pub open spec fn spec_update_mode(
        &self,
        global: GlobalMode,
        signals: ModeSignals,
        eaten: bool,
        pinky_in_home: bool,
        inky_in_home: bool,
        levels: Levels,
        counter: GhostPelletEatenCounter,
    ) -> (GhostState, GhostPelletEatenCounter) {
        match self.mode {
            GhostMode::Frightened => if eaten {
                (GhostState { mode: GhostMode::DeadPause, ..*self }, counter)
            } else if signals.frite_timer_finished {
                (GhostState { mode: global.spec_as_ghost_mode(), ..*self }, counter)
            } else {
                (*self, counter)
            },
            GhostMode::DeadPause => if signals.pause_finished {
                (GhostState { mode: GhostMode::Dead, ..*self }, counter)
            } else {
                (*self, counter)
            },
            GhostMode::Dead => if self.location == spec_home_entrance() {
                (GhostState { mode: GhostMode::DeadEnterHome, ..*self }, counter)
            } else {
                (*self, counter)
            },
            GhostMode::DeadEnterHome => if self.location == spec_home_center() {
                (GhostState { mode: GhostMode::HomeExit(false), ..*self }, counter)
            } else {
                (*self, counter)
            },
            GhostMode::Home(flag) => {
                let frightened = flag && !signals.frite_timer_finished;
                if can_leave_home(self.id, pinky_in_home, inky_in_home) && (counter.counter
                    >= levels.spec_home_exit_dots(self.id, counter.life_lost)
                    || signals.exit_home_timer_finished) {
                    (
                        GhostState { mode: GhostMode::HomeExit(frightened), ..*self },
                        GhostPelletEatenCounter { counter: 0, ..counter },
                    )
                } else {
                    (GhostState { mode: GhostMode::Home(frightened), ..*self }, counter)
                }
            },
            GhostMode::HomeExit(flag) => {
                let frightened = flag && !signals.frite_timer_finished;
                if self.location.y == HOME_ROW_Y {
                    (
                        GhostState {
                            mode: if frightened {
                                GhostMode::Frightened
                            } else {
                                global.spec_as_ghost_mode()
                            },
                            directions: GhostDirections::spec_new(Direction::Left),
                            ..*self
                        },
                        counter,
                    )
                } else {
                    (GhostState { mode: GhostMode::HomeExit(frightened), ..*self }, counter)
                }
            },
            _ => if self.mode != global.spec_as_ghost_mode() {
                (
                    GhostState {
                        mode: global.spec_as_ghost_mode(),
                        directions: self.directions.spec_reverse(),
                        ..*self
                    },
                    counter,
                )
            } else {
                (*self, counter)
            },
        }
    }

    /// The mode step of one ghost. `eaten` says whether the player ate this
    /// ghost on the last tick; `pinky_in_home` and `inky_in_home` say whether
    /// those two were in the pen when the tick began.
    pub fn update_mode(
        &mut self,
        global: GlobalMode,
        signals: &ModeSignals,
        eaten: bool,
        pinky_in_home: bool,
        inky_in_home: bool,
        levels: &Levels,
        counter: &mut GhostPelletEatenCounter,
    )
        requires
            old(self).can_update_mode(old(counter).life_lost),
        ensures
            (*final(self), *final(counter)) == old(self).spec_update_mode(
                global,
                *signals,
                eaten,
                pinky_in_home,
                inky_in_home,
                *levels,
                *old(counter),
            ),
    {
        match self.mode {
            GhostMode::Frightened => {
                if eaten {
                    self.mode = GhostMode::DeadPause;
                } else if signals.frite_timer_finished {
                    self.mode = global.as_ghost_mode();
                }
            },
            GhostMode::DeadPause => {
                if signals.pause_finished {
                    self.mode = GhostMode::Dead;
                }
            },
            GhostMode::Dead => {
                if self.location == home_entrance() {
                    self.mode = GhostMode::DeadEnterHome;
                }
            },
            GhostMode::DeadEnterHome => {
                if self.location == home_center() {
                    self.mode = GhostMode::HomeExit(false);
                }
            },
            GhostMode::Home(flag) => {
                let mut frightened = flag;
                if signals.frite_timer_finished {
                    self.mode = GhostMode::Home(false);
                    frightened = false;
                }
                let can_leave = match self.id {
                    GhostId::Blinky => false,
                    GhostId::Pinky => true,
                    GhostId::Inky => !pinky_in_home,
                    GhostId::Clyde => !pinky_in_home && !inky_in_home,
                };
                if can_leave && (counter.counter >= levels.home_exit_dots(
                    self.id,
                    counter.life_lost,
                ) || signals.exit_home_timer_finished) {
                    self.mode = GhostMode::HomeExit(frightened);
                    counter.counter = 0;
                }
            },
            GhostMode::HomeExit(flag) => {
                let mut frightened = flag;
                if signals.frite_timer_finished {
                    frightened = false;
                    self.mode = GhostMode::HomeExit(false);
                }
                if self.location.y == HOME_ROW_Y {
                    self.directions.current = Direction::Left;
                    self.directions.planned = Some(Direction::Left);
                    self.mode = if frightened {
                        GhostMode::Frightened
                    } else {
                        global.as_ghost_mode()
                    };
                }
            },
            _ => {
                if self.mode != global.as_ghost_mode() {
                    self.mode = global.as_ghost_mode();
                    self.directions.reverse();
                }
            },
        }
    }

    /// The ghost after a power pellet was eaten: flagged as frightened in the
    /// pen and on the way out, unchanged if it was eaten before, frightened
    /// otherwise; and planning to reverse wherever the mode changed.
    pub open spec fn spec_frighten(&self) -> GhostState {
        let mode = match self.mode {
            GhostMode::Home(_) => GhostMode::Home(true),
            GhostMode::HomeExit(_) => GhostMode::HomeExit(true),
            GhostMode::DeadPause => GhostMode::DeadPause,
            GhostMode::Dead => GhostMode::Dead,
            GhostMode::DeadEnterHome => GhostMode::DeadEnterHome,
            _ => GhostMode::Frightened,
        };
        GhostState {
            mode,
            directions: if mode != self.mode {
                self.directions.spec_reverse()
            } else {
                self.directions
            },
            ..*self
        }
    }

    /// What a power pellet does to the ghost.
    pub fn frighten(&mut self)
        ensures
            *final(self) == old(self).spec_frighten(),
    {
        let prev_mode = self.mode;
        self.mode = match self.mode {
            GhostMode::Home(_) => GhostMode::Home(true),
            GhostMode::HomeExit(_) => GhostMode::HomeExit(true),
            GhostMode::DeadPause => GhostMode::DeadPause,
            GhostMode::Dead => GhostMode::Dead,
            GhostMode::DeadEnterHome => GhostMode::DeadEnterHome,
            _ => GhostMode::Frightened,
        };
        if prev_mode != self.mode {
            self.directions.reverse();
        }
    }
}

/// Whether the last ghost `who` of `ghosts` is in the pen.
pub fn in_home(ghosts: &Vec<GhostState>, who: GhostId) -> (r: bool)
    ensures
        r == spec_in_home(ghosts@, who),
{
    let mut i: usize = ghosts.len();
    proof {
        assert(ghosts@.take(ghosts@.len() as int) =~= ghosts@);
    }
    while i > 0
        invariant
            i <= ghosts.len(),
            spec_in_home(ghosts@, who) == spec_in_home(ghosts@.take(i as int), who),
        decreases i,
    {
        proof {
            let s = ghosts@.take(i as int);
            assert(s.last() == ghosts@[i - 1]);
            assert(s.drop_last() =~= ghosts@.take(i - 1));
        }
        if ghosts[i - 1].id == who {
            return ghosts[i - 1].mode.is_home();
        }
        i = i - 1;
    }
    false
}

/// The pellet counter when the ghosts' mode steps begin: the pellets eaten on
/// the tick are added, and the count starts again if the exit timer ran out.
pub open spec fn counter_before_steps(
    counter: GhostPelletEatenCounter,
    pellets_eaten: usize,
    signals: ModeSignals,
) -> GhostPelletEatenCounter {
    GhostPelletEatenCounter {
        counter: if signals.exit_home_timer_finished {
            0
        } else {
            (counter.counter + pellets_eaten) as usize
        },
        ..counter
    }
}

/// The ghosts and the pellet counter after the first `n` ghosts took their
/// mode step, one after the other. `ghosts` and `counter` are those at the
/// beginning of the steps; whether Pinky and Inky are in the pen is judged
/// once, before the first step.
pub open spec fn modes_after(
    ghosts: Seq<GhostState>,
    counter: GhostPelletEatenCounter,
    global: GlobalMode,
    signals: ModeSignals,
    eaten: Seq<GhostEaten>,
    levels: Levels,
    n: nat,
) -> (Seq<GhostState>, GhostPelletEatenCounter)
    decreases n,
{
    if n == 0 {
        (ghosts, counter)
    } else {
        let before = modes_after(ghosts, counter, global, signals, eaten, levels, (n - 1) as nat);
        let g = ghosts[n - 1];
        let step = g.spec_update_mode(
            global,
            signals,
            spec_was_eaten(eaten, g.id),
            spec_in_home(ghosts, GhostId::Pinky),
            spec_in_home(ghosts, GhostId::Inky),
            levels,
            before.1,
        );
        (before.0.update(n - 1, step.0), step.1)
    }
}

/// The mode steps of all ghosts for one tick.
///
/// `pellets_eaten` is the number of pellets eaten since the last tick and
/// `eaten_ghosts` are the ghosts eaten since then. The pellets are counted
/// first; the count starts again if the exit timer of the pen ran out. Then
/// each ghost takes its step ([`GhostState::spec_update_mode`]) in the order
/// of `ghosts`, a ghost that leaves the pen starting the count again for
/// those after it.
pub fn update_ghost_mode(
    ghosts: &mut Vec<GhostState>,
    global: GlobalMode,
    signals: &ModeSignals,
    pellets_eaten: usize,
    eaten_ghosts: &Vec<GhostEaten>,
    levels: &Levels,
    counter: &mut GhostPelletEatenCounter,
)
    requires
        old(counter).counter + pellets_eaten <= usize::MAX,
        forall|i: int|
            0 <= i < old(ghosts)@.len() ==> (#[trigger] old(ghosts)@[i]).can_update_mode(
                old(counter).life_lost,
            ),
    ensures
        (final(ghosts)@, *final(counter)) == modes_after(
            old(ghosts)@,
            counter_before_steps(*old(counter), pellets_eaten, *signals),
            global,
            *signals,
            eaten_ghosts@,
            *levels,
            old(ghosts)@.len(),
        ),
        final(ghosts)@.len() == old(ghosts)@.len(),
{
    counter.counter = counter.counter + pellets_eaten;
    if signals.exit_home_timer_finished {
        counter.counter = 0;
    }
    let pinky_in_home = in_home(ghosts, GhostId::Pinky);
    let inky_in_home = in_home(ghosts, GhostId::Inky);
    let ghost start = ghosts@;
    let ghost start_counter = *counter;
    let n: usize = ghosts.len();
    let mut i: usize = 0;
    while i < n
        invariant
            i <= n,
            n == start.len(),
            ghosts@.len() == n,
            counter.life_lost == start_counter.life_lost,
            pinky_in_home == spec_in_home(start, GhostId::Pinky),
            inky_in_home == spec_in_home(start, GhostId::Inky),
            forall|k: int| 0 <= k < n ==> (#[trigger] start[k]).can_update_mode(
                start_counter.life_lost,
            ),
            forall|k: int| i <= k < n ==> ghosts@[k] == start[k],
            (ghosts@, *counter) == modes_after(
                start,
                start_counter,
                global,
                *signals,
                eaten_ghosts@,
                *levels,
                i as nat,
            ),
        decreases n - i,
    {
        let mut g = ghosts[i];
        assert(start[i as int].can_update_mode(start_counter.life_lost));
        let eaten = was_eaten(eaten_ghosts, g.id);
        g.update_mode(global, signals, eaten, pinky_in_home, inky_in_home, levels, counter);
        ghosts[i] = g;
        i = i + 1;
    }
}

/// What a power pellet among `pellets` does to the ghosts: every ghost is
/// frightened ([`GhostState::spec_frighten`]), and the result is the
/// duration, in seconds, to restart the fright timer with. Without a power
/// pellet nothing changes and the result is `None`.
pub fn detect_power_pellet(
    ghosts: &mut Vec<GhostState>,
    pellets: &Vec<PelletEaten>,
    levels: &Levels,
) -> (restart: Option<u64>)
    ensures
        final(ghosts)@.len() == old(ghosts)@.len(),
        spec_any_power(pellets@) ==> restart == Some(levels.spec_frite_duration()) && forall|
            i: int,
        |
            0 <= i < old(ghosts)@.len() ==> final(ghosts)@[i] == (#[trigger] old(
                ghosts,
            )@[i]).spec_frighten(),
        !spec_any_power(pellets@) ==> restart is None && final(ghosts)@ == old(ghosts)@,
{
    if !any_power(pellets) {
        return None;
    }
    let n: usize = ghosts.len();
    let mut i: usize = 0;
    while i < n
        invariant
            i <= n,
            ghosts@.len() == n,
            n == old(ghosts)@.len(),
            forall|k: int| 0 <= k < i ==> ghosts@[k] == (#[trigger] old(ghosts)@[k]).spec_frighten(),
            forall|k: int| i <= k < n ==> ghosts@[k] == old(ghosts)@[k],
        decreases n - i,
    {
        let mut g = ghosts[i];
        g.frighten();
        ghosts[i] = g;
        i = i + 1;
    }
    Some(levels.frite_duration())
}

/// When the global mode has flipped, a ghost that is chasing or scattering
/// takes up the new mode on its next mode step and plans to reverse: its
/// planned direction becomes the opposite of its current one.
pub proof fn lemma_mode_flip_reverses(
    g: GhostState,
    global: GlobalMode,
    signals: ModeSignals,
    eaten: bool,
    pinky_in_home: bool,
    inky_in_home: bool,
    levels: Levels,
    counter: GhostPelletEatenCounter,
)
    requires
        g.mode.spec_tracks_global(),
        g.mode != global.spec_as_ghost_mode(),
    ensures
        ({
            let after = g.spec_update_mode(
                global,
                signals,
                eaten,
                pinky_in_home,
                inky_in_home,
                levels,
                counter,
            ).0;
            &&& after.mode == global.spec_as_ghost_mode()
            &&& after.directions.planned == Some(g.directions.current.spec_opposite())
            &&& after.directions.current == g.directions.current
            &&& after.location == g.location
        }),
{
}

/// After its mode step a ghost that chases or scatters does what the global
/// mode says: no ghost is left chasing while the others scatter.
pub proof fn lemma_step_follows_global(
    g: GhostState,
    global: GlobalMode,
    signals: ModeSignals,
    eaten: bool,
    pinky_in_home: bool,
    inky_in_home: bool,
    levels: Levels,
    counter: GhostPelletEatenCounter,
)
    ensures
        g.spec_update_mode(
            global,
            signals,
            eaten,
            pinky_in_home,
            inky_in_home,
            levels,
            counter,
        ).0.mode.spec_tracks_global() ==> g.spec_update_mode(
            global,
            signals,
            eaten,
            pinky_in_home,
            inky_in_home,
            levels,
            counter,
        ).0.mode == global.spec_as_ghost_mode(),
        g.wf() ==> g.spec_update_mode(
            global,
            signals,
            eaten,
            pinky_in_home,
            inky_in_home,
            levels,
            counter,
        ).0.wf(),
{
}

/// A ghost that is in the pen, leaving it, or dead keeps its plan when the
/// global mode flips: its mode step never reverses it.
pub proof fn lemma_exempt_modes_do_not_reverse(
    g: GhostState,
    global: GlobalMode,
    signals: ModeSignals,
    eaten: bool,
    pinky_in_home: bool,
    inky_in_home: bool,
    levels: Levels,
    counter: GhostPelletEatenCounter,
)
    requires
        g.mode is Home || g.mode is DeadPause || g.mode is Dead || g.mode is DeadEnterHome,
    ensures
        g.spec_update_mode(
            global,
            signals,
            eaten,
            pinky_in_home,
            inky_in_home,
            levels,
            counter,
        ).0.directions == g.directions,
{
}

/// A power pellet frightens a ghost that is chasing or scattering and makes
/// it plan to reverse; it leaves the mode and the plan of a ghost that was
/// eaten before untouched.
pub proof fn lemma_power_pellet(g: GhostState)
    ensures
        g.mode.spec_tracks_global() ==> g.spec_frighten().mode == GhostMode::Frightened
            && g.spec_frighten().directions.planned == Some(
            g.directions.current.spec_opposite(),
        ),
        g.mode is DeadPause || g.mode is Dead || g.mode is DeadEnterHome ==> g.spec_frighten()
            == g,
        g.spec_frighten().mode.spec_is_frightened() || g.spec_frighten().mode == g.mode,
{
}

} // verus!
