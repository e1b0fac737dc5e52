//! How fast the ghosts are and how they move.
//!
//! Each tick a ghost's speed is set from its mode and place and its cadence
//! is ticked; at a tile centre it takes the direction it has planned; and
//! unless the cadence misses the tick it moves one eighth of a tile. In the
//! pen, and on the way in and out of it, the direction is laid down by the
//! place rather than planned.

use vstd::prelude::*;
use crate::direction::Direction;
use crate::ghost::{GhostId, GhostMode, GhostState};
use crate::ghost_mode::GhostPelletEatenCounter;
use crate::levels::Levels;
use crate::location::Location;
use crate::speed::FULL_SPEED;

verus! {

/// Speed of a ghost in the pen and on its way out, in hundredths.
pub const HOME_SPEED: u32 = 40;

/// Column of the pen's door, in eighths.
pub const DOOR_X: i32 = 108;

/// Whether `location` is in the tunnel: on the tunnel's row, at most five
/// tiles from the left or right end of the grid.
pub open spec fn spec_in_tunnel(location: Location) -> bool {
    location.y == 128 && (location.x <= 40 || location.x >= 176)
}

/// Whether `location` is in the tunnel.
pub fn in_tunnel(location: Location) -> (r: bool)
    ensures
        r == spec_in_tunnel(location),
{
    location.y == 128 && (location.x <= 40 || location.x >= 176)
}

impl GhostState {
    /// The speed the ghost's mode and place ask for.
    ///
    /// A dead ghost returns at full speed. During the pause after a ghost
    /// was eaten the others stand still. In the tunnel a ghost is slow.
    /// Elsewhere a frightened ghost, and a ghost in or leaving the pen, has
    /// the speed of that state; Blinky speeds up, in two stages, when few
    /// pellets remain; every other ghost has the normal speed.
    pub open spec fn spec_mode_speed(
        &self,
        remaining_pellets: int,
        pause_finished: bool,
        levels: Levels,
    ) -> u32 {
        if self.mode == GhostMode::Dead || self.mode == GhostMode::DeadEnterHome {
            FULL_SPEED
        } else if !pause_finished {
            0
        } else if spec_in_tunnel(self.location) {
            levels.spec_ghost_tunnel_speed()
        } else if self.mode == GhostMode::Frightened {
            levels.spec_ghost_frite_speed()
        } else if self.mode is Home || self.mode is HomeExit {
            HOME_SPEED
        } else if self.id == GhostId::Blinky && remaining_pellets <= levels.spec_elroy_2_dots() {
            levels.spec_elroy_2_speed()
        } else if self.id == GhostId::Blinky && remaining_pellets <= levels.spec_elroy_1_dots() {
            levels.spec_elroy_1_speed()
        } else {
            levels.spec_ghost_normal_speed()
        }
    }

    /// The ghost after its speed was set for the tick and its cadence
    /// ticked.
    pub open spec fn spec_update_speed(
        &self,
        remaining_pellets: int,
        pause_finished: bool,
        levels: Levels,
    ) -> GhostState {
        GhostState {
            speed: self.speed.spec_set_speed(
                self.spec_mode_speed(remaining_pellets, pause_finished, levels),
            ).spec_tick(),
            ..*self
        }
    }

    /// At a tile centre, on a tick that is not missed, the ghost takes the
    /// direction it has planned.
    pub open spec fn spec_tile_change(&self) -> GhostState {
        if !self.speed.should_miss && self.location.spec_is_tile_center() {
            GhostState { directions: self.directions.spec_advance(), ..*self }
        } else {
            *self
        }
    }

    /// The direction the ghost moves in. In the pen it goes up and down
    /// between the two ends of its column; leaving the pen it first goes
    /// sideways to the door's column and then up; entering it goes down;
    /// everywhere else it keeps its current direction.
    pub open spec fn spec_move_direction(&self) -> Direction {
        match self.mode {
            GhostMode::Home(_) => if self.location.y >= 132 {
                Direction::Down
            } else if self.location.y <= 124 {
                Direction::Up
            } else {
                self.directions.current
            },
            GhostMode::HomeExit(_) => match self.id {
                GhostId::Inky => if self.location.x != DOOR_X {
                    Direction::Right
                } else {
                    Direction::Up
                },
                GhostId::Clyde => if self.location.x != DOOR_X {
                    Direction::Left
                } else {
                    Direction::Up
                },
                _ => Direction::Up,
            },
            GhostMode::DeadEnterHome => Direction::Down,
            _ => self.directions.current,
        }
    }

    /// The ghost after the movement step. It stays as it is on a tick that
    /// its cadence misses, and when `halted` says that the game is about to
    /// leave play. Else it is put on its column if it is in the pen, takes
    /// its direction of movement as current direction, and moves one eighth
    /// of a tile along it.
    pub open spec fn spec_move(&self, halted: bool) -> GhostState {
        if self.speed.should_miss || halted {
            *self
        } else {
            let start = Location {
                x: if self.mode is Home {
                    self.id.spec_home_x() as i32
                } else {
                    self.location.x
                },
                y: self.location.y,
            };
            let direction = self.spec_move_direction();
            GhostState {
                location: start.moved(direction, 1),
                directions: crate::ghost::GhostDirections {
                    current: direction,
                    planned: self.directions.planned,
                },
                ..*self
            }
        }
    }

    /// Sets the ghost's speed for the tick and ticks its cadence.
    pub fn update_speed(&mut self, remaining_pellets: usize, pause_finished: bool, levels: &Levels)
        requires
            old(self).speed.wf(),
            old(self).speed.can_tick(),
        ensures
            *final(self) == old(self).spec_update_speed(
                remaining_pellets as int,
                pause_finished,
                *levels,
            ),
            final(self).speed.wf(),
    {
        let mode_speed: u32 = if self.mode == GhostMode::Dead || self.mode
            == GhostMode::DeadEnterHome {
            FULL_SPEED
        } else if !pause_finished {
            0
        } else if in_tunnel(self.location) {
            levels.ghost_tunnel_speed()
        } else {
            match self.mode {
                GhostMode::Frightened => levels.ghost_frite_speed(),
                GhostMode::Home(_) => HOME_SPEED,
                GhostMode::HomeExit(_) => HOME_SPEED,
                _ => {
                    if self.id == GhostId::Blinky && remaining_pellets <= levels.elroy_2_dots() {
                        levels.elroy_2_speed()
                    } else if self.id == GhostId::Blinky && remaining_pellets
                        <= levels.elroy_1_dots() {
                        levels.elroy_1_speed()
                    } else {
                        levels.ghost_normal_speed()
                    }
                },
            }
        };
        self.speed.set_speed(mode_speed);
        self.speed.tick();
    }

    /// Takes the planned direction if the ghost is at a tile centre on a
    /// tick that is not missed.
    pub fn tile_change(&mut self)
        ensures
            *final(self) == old(self).spec_tile_change(),
    {
        if self.speed.should_miss {
            return ;
        }
        if self.location.is_tile_center() {
            self.directions.advance();
        }
    }

    /// Moves the ghost for one tick (see [`GhostState::spec_move`]).
    pub fn advance(&mut self, halted: bool)
        requires
            old(self).wf(),
        ensures
            *final(self) == old(self).spec_move(halted),
            final(self).mode == old(self).mode,
            final(self).speed == old(self).speed,
            final(self).id == old(self).id,
    {
        if self.speed.should_miss || halted {
            return ;
        }
        match self.mode {
            GhostMode::Home(_) => {
                match self.id {
                    GhostId::Pinky => {
                        self.location.x = 108;
                    },
                    GhostId::Inky => {
                        self.location.x = 92;
                    },
                    GhostId::Clyde => {
                        self.location.x = 124;
                    },
                    GhostId::Blinky => {},
                }
                if self.location.y >= 132 {
                    self.directions.current = Direction::Down;
                } else if self.location.y <= 124 {
                    self.directions.current = Direction::Up;
                }
            },
            GhostMode::HomeExit(_) => {
                match self.id {
                    GhostId::Inky => {
                        if self.location.x != DOOR_X {
                            self.directions.current = Direction::Right;
                        } else {
                            self.directions.current = Direction::Up;
                        }
                    },
                    GhostId::Clyde => {
                        if self.location.x != DOOR_X {
                            self.directions.current = Direction::Left;
                        } else {
                            self.directions.current = Direction::Up;
                        }
                    },
                    _ => {
                        self.directions.current = Direction::Up;
                    },
                }
            },
            GhostMode::DeadEnterHome => {
                self.directions.current = Direction::Down;
            },
            _ => {},
        }
        let direction = self.directions.current;
        self.location.advance(direction);
    }
}

/// The plan of a ghost is used up exactly where it is taken: at a tile
/// centre, on a tick that is not missed, the planned direction becomes the
/// current one and a new plan is needed; everywhere else the ghost keeps
/// both.
pub proof fn lemma_tile_change(g: GhostState)
    ensures
        !g.speed.should_miss && g.location.spec_is_tile_center() ==> g.spec_tile_change().directions.spec_plan_needed()
            && (g.directions.planned matches Some(d) ==> g.spec_tile_change().directions.current
            == d),
        g.speed.should_miss || !g.location.spec_is_tile_center() ==> g.spec_tile_change() == g,
{
}

/// The speed step of all ghosts for one tick. `total_pellets` is the number
/// of pellets of the level; the pellets counted by `pellets_eaten_counter`
/// are taken off it to find how many remain.
pub fn update_ghost_speed(
    ghosts: &mut Vec<GhostState>,
    pellets_eaten_counter: &GhostPelletEatenCounter,
    total_pellets: usize,
    pause_finished: bool,
    levels: &Levels,
)
    requires
        pellets_eaten_counter.counter <= total_pellets,
        forall|i: int|
            0 <= i < old(ghosts)@.len() ==> (#[trigger] old(ghosts)@[i]).speed.wf() && old(
                ghosts,
            )@[i].speed.can_tick(),
    ensures
        final(ghosts)@.len() == old(ghosts)@.len(),
        forall|i: int|
            0 <= i < old(ghosts)@.len() ==> final(ghosts)@[i] == (#[trigger] old(
                ghosts,
            )@[i]).spec_update_speed(
                total_pellets - pellets_eaten_counter.counter,
                pause_finished,
                *levels,
            ),
        forall|i: int| 0 <= i < old(ghosts)@.len() ==> (#[trigger] final(ghosts)@[i]).speed.wf(),
{
    let remaining_pellets: usize = total_pellets - pellets_eaten_counter.counter;
    let n: usize = ghosts.len();
    let mut i: usize = 0;
    while i < n
        invariant
            i <= n,
            n == old(ghosts)@.len(),
            ghosts@.len() == n,
            forall|k: int|
                0 <= k < n ==> (#[trigger] old(ghosts)@[k]).speed.wf() && old(
                    ghosts,
                )@[k].speed.can_tick(),
            forall|k: int| i <= k < n ==> ghosts@[k] == old(ghosts)@[k],
            forall|k: int|
                0 <= k < i ==> ghosts@[k] == (#[trigger] old(ghosts)@[k]).spec_update_speed(
                    remaining_pellets as int,
                    pause_finished,
                    *levels,
                ),
            forall|k: int| 0 <= k < i ==> (#[trigger] ghosts@[k]).speed.wf(),
        decreases n - i,
    {
        let mut g = ghosts[i];
        assert(old(ghosts)@[i as int].speed.wf());
        g.update_speed(remaining_pellets, pause_finished, levels);
        ghosts[i] = g;
        i = i + 1;
    }
}

/// Every ghost at a tile centre takes the direction it has planned, unless
/// its cadence misses the tick.
pub fn ghost_tile_change_detection(ghosts: &mut Vec<GhostState>)
    ensures
        final(ghosts)@.len() == old(ghosts)@.len(),
        forall|i: int|
            0 <= i < old(ghosts)@.len() ==> final(ghosts)@[i] == (#[trigger] old(
                ghosts,
            )@[i]).spec_tile_change(),
{
    let n: usize = ghosts.len();
    let mut i: usize = 0;
    while i < n
        invariant
            i <= n,
            n == old(ghosts)@.len(),
            ghosts@.len() == n,
            forall|k: int| i <= k < n ==> ghosts@[k] == old(ghosts)@[k],
            forall|k: int|
                0 <= k < i ==> ghosts@[k] == (#[trigger] old(ghosts)@[k]).spec_tile_change(),
        decreases n - i,
    {
        let mut g = ghosts[i];
        g.tile_change();
        ghosts[i] = g;
        i = i + 1;
    }
}

/// The movement step of all ghosts for one tick (see
/// [`GhostState::spec_move`]). `halted` says that the game is about to leave
/// play, so nothing moves any more.
pub fn move_ghosts(ghosts: &mut Vec<GhostState>, halted: bool)
    requires
        forall|i: int| 0 <= i < old(ghosts)@.len() ==> (#[trigger] old(ghosts)@[i]).wf(),
    ensures
        final(ghosts)@.len() == old(ghosts)@.len(),
        forall|i: int|
            0 <= i < old(ghosts)@.len() ==> final(ghosts)@[i] == (#[trigger] old(
                ghosts,
            )@[i]).spec_move(halted),
{
    let n: usize = ghosts.len();
    let mut i: usize = 0;
    while i < n
        invariant
            i <= n,
            n == old(ghosts)@.len(),
            ghosts@.len() == n,
            forall|k: int| 0 <= k < n ==> (#[trigger] old(ghosts)@[k]).wf(),
            forall|k: int| i <= k < n ==> ghosts@[k] == old(ghosts)@[k],
            forall|k: int|
                0 <= k < i ==> ghosts@[k] == (#[trigger] old(ghosts)@[k]).spec_move(halted),
        decreases n - i,
    {
        let mut g = ghosts[i];
        assert(old(ghosts)@[i as int].wf());
        g.advance(halted);
        ghosts[i] = g;
        i = i + 1;
    }
}

} // verus!
