//! The player: how the keys turn it, how it moves, and its lives.

use vstd::prelude::*;
use crate::direction::Direction;
use crate::events::{PelletEaten, PlayerAt};
use crate::levels::Levels;
use crate::location::{nearest_tile, round_to_tile, Location};
use crate::map::GridMap;
use crate::speed::CharacterSpeed;

verus! {

/// Which of the four direction keys are held down.
#[derive(Clone, Copy, Debug, PartialEq, Eq, Structural)]
pub struct Keys {
    pub left: bool,
    pub up: bool,
    pub right: bool,
    pub down: bool,
}

/// Whether the player stands against a wall.
#[derive(Clone, Copy, Debug, PartialEq, Eq, Structural)]
pub struct Player {
    pub is_blocked: bool,
}

/// Everything the simulation keeps about the player.
#[derive(Clone, Copy, Debug, PartialEq, Eq, Structural)]
pub struct PlayerState {
    pub location: Location,
    pub direction: Direction,
    pub player: Player,
    pub speed: CharacterSpeed,
}

/// The lives the player has left, the one in play included.
#[derive(Clone, Copy, Debug, PartialEq, Eq, Structural)]
pub struct PlayerLives {
    pub lives: usize,
}

/// Lives at the start of a game.
pub const STARTING_LIVES: usize = 3;

/// Sixtieths of a second the player stands still after eating a pellet.
pub const PELLET_STOP: u64 = 1;

/// Sixtieths of a second the player stands still after eating a power
/// pellet.
pub const POWER_PELLET_STOP: u64 = 3;

impl Keys {
    pub open spec fn spec_pressed(&self, d: Direction) -> bool {
        match d {
            Direction::Left => self.left,
            Direction::Up => self.up,
            Direction::Right => self.right,
            Direction::Down => self.down,
        }
    }

    /// Whether the key of `d` is held down.
    #[verifier::when_used_as_spec(spec_pressed)]
    pub fn pressed(&self, d: Direction) -> (r: bool)
        ensures
            r == self.spec_pressed(d),
    {
        match d {
            Direction::Left => self.left,
            Direction::Up => self.up,
            Direction::Right => self.right,
            Direction::Down => self.down,
        }
    }
}

/// Index of the first of `directions` whose key is held down, or the length
/// of `directions` if there is none.
pub open spec fn first_pressed_index(directions: Seq<Direction>, keys: Keys) -> int
    decreases directions.len(),
{
    if directions.len() == 0 {
        0
    } else if keys.spec_pressed(directions.first()) {
        0
    } else {
        1 + first_pressed_index(directions.drop_first(), keys)
    }
}

/// The first of `directions` whose key is held down.
pub open spec fn spec_first_pressed(directions: Seq<Direction>, keys: Keys) -> Option<Direction> {
    let i = first_pressed_index(directions, keys);
    if i < directions.len() {
        Some(directions[i])
    } else {
        None
    }
}

/// `first_pressed_index` is the least index of a direction whose key is
/// held down.
pub proof fn lemma_first_pressed(directions: Seq<Direction>, keys: Keys)
    ensures
        0 <= first_pressed_index(directions, keys) <= directions.len(),
        first_pressed_index(directions, keys) < directions.len() ==> keys.spec_pressed(
            directions[first_pressed_index(directions, keys)],
        ),
        forall|j: int|
            0 <= j < first_pressed_index(directions, keys) ==> !keys.spec_pressed(
                #[trigger] directions[j],
            ),
    decreases directions.len(),
{
    if directions.len() > 0 && !keys.spec_pressed(directions.first()) {
        let rest = directions.drop_first();
        lemma_first_pressed(rest, keys);
        assert forall|j: int| 0 <= j < first_pressed_index(directions, keys) implies !keys.spec_pressed(
            #[trigger] directions[j],
        ) by {
            if j > 0 {
                assert(directions[j] == rest[j - 1]);
            }
        }
    }
}

/// The first of `directions` whose key is held down.
pub fn first_pressed(directions: &Vec<Direction>, keys: &Keys) -> (r: Option<Direction>)
    ensures
        r == spec_first_pressed(directions@, *keys),
{
    let mut i: usize = 0;
    proof {
        assert(directions@.skip(0) =~= directions@);
    }
    while i < directions.len()
        invariant
            i <= directions.len(),
            first_pressed_index(directions@, *keys) == i + first_pressed_index(
                directions@.skip(i as int),
                *keys,
            ),
        decreases directions.len() - i,
    {
        proof {
            let rest = directions@.skip(i as int);
            assert(rest.first() == directions@[i as int]);
            assert(rest.drop_first() =~= directions@.skip(i + 1));
        }
        if keys.pressed(directions[i]) {
            return Some(directions[i]);
        }
        i = i + 1;
    }
    None
}

/// The coordinate `c` one eighth nearer to the centre of its tile; a
/// coordinate at the centre stays. Half way between two tiles it moves away
/// from zero.
pub open spec fn spec_bring_towards_center(c: int) -> int {
    if c % 8 == 0 {
        c
    } else if 8 * nearest_tile(c, 0) > c {
        c + 1
    } else {
        c - 1
    }
}

/// The coordinate `location` one eighth nearer to the centre of its tile.
pub fn bring_towards_center(location: i32) -> (r: i32)
    requires
        i32::MIN < location < i32::MAX,
    ensures
        r == spec_bring_towards_center(location as int),
{
    let center: i64 = 8 * (round_to_tile(location, 0) as i64);
    if center == location as i64 {
        location
    } else if center > location as i64 {
        location + 1
    } else {
        location - 1
    }
}

/// How long the player stands still after the pellets eaten on a tick, in
/// sixtieths of a second: the last pellet decides, and a power pellet stops
/// the player for longer. `None` if no pellet was eaten.
pub open spec fn spec_pellet_stop(pellets: Seq<PelletEaten>) -> Option<u64> {
    if pellets.len() == 0 {
        None
    } else if pellets.last().power {
        Some(POWER_PELLET_STOP)
    } else {
        Some(PELLET_STOP)
    }
}

/// How long the player stands still after the pellets eaten on a tick.
pub fn pellet_stop(pellets: &Vec<PelletEaten>) -> (r: Option<u64>)
    ensures
        r == spec_pellet_stop(pellets@),
{
    let n: usize = pellets.len();
    if n == 0 {
        None
    } else if pellets[n - 1].power {
        Some(POWER_PELLET_STOP)
    } else {
        Some(PELLET_STOP)
    }
}

impl PlayerState {
    /// The cadence is well formed and the location is in range.
    pub open spec fn spec_wf(&self) -> bool {
        self.speed.wf() && self.location.fits()
    }

    /// Whether the cadence is well formed and the location is in range.
    #[verifier::when_used_as_spec(spec_wf)]
    pub fn wf(&self) -> (r: bool)
        ensures
            r == self.spec_wf(),
    {
        self.speed.wf() && self.location.fits()
    }

    pub open spec fn spec_spawn(levels: Levels) -> PlayerState {
        PlayerState {
            location: Location { x: 108, y: 56 },
            direction: Direction::Left,
            player: Player { is_blocked: false },
            speed: CharacterSpeed::spec_new(levels.spec_player_speed()),
        }
    }

    /// The directions the keys can turn the player to: every direction
    /// while it stands against a wall, else those open on the map.
    pub open spec fn turnable(&self, map: GridMap) -> Seq<Direction> {
        if self.player.is_blocked {
            Direction::spec_all()
        } else {
            map.spec_possible_directions(self.location)
        }
    }

    /// The player after the keys were read: it faces the first direction it
    /// can turn to whose key is held down, and keeps its direction if there
    /// is none.
    pub open spec fn spec_update(&self, map: GridMap, keys: Keys) -> PlayerState {
        match spec_first_pressed(self.turnable(map), keys) {
            Some(d) => PlayerState { direction: d, ..*self },
            None => *self,
        }
    }

    /// The player stands at a tile centre and the next tile in its
    /// direction is blocked.
    pub open spec fn spec_blocked(&self, map: GridMap) -> bool {
        self.location == self.location.spec_get_tile(self.direction) && map.spec_is_blocked(
            self.location.spec_next_tile(self.direction),
        )
    }

    /// The location one eighth further in the player's direction, the other
    /// coordinate brought one eighth nearer to the centre of its tile.
    pub open spec fn spec_step(&self) -> Location {
        match self.direction {
            Direction::Up | Direction::Down => Location {
                x: spec_bring_towards_center(self.location.x as int) as i32,
                y: (self.location.y + self.direction.dy()) as i32,
            },
            Direction::Left | Direction::Right => Location {
                x: (self.location.x + self.direction.dx()) as i32,
                y: spec_bring_towards_center(self.location.y as int) as i32,
            },
        }
    }

    /// The speed the player has on a tick.
    pub open spec fn tick_speed(frite_finished: bool, levels: Levels) -> u32 {
        if frite_finished {
            levels.spec_player_speed()
        } else {
            levels.spec_player_frite_speed()
        }
    }

    /// The player after the movement step, and the tile it reports.
    ///
    /// While it stands still after a pellet, and during the pause after a
    /// ghost was eaten, nothing happens. Else its speed is set and its
    /// cadence ticked. On a tick that the cadence misses, and when the game
    /// is about to leave play, nothing more happens. Else it is found
    /// blocked or not; if it is not blocked it takes its step and reports
    /// the tile it is now about to be on.
    pub open spec fn spec_move(
        &self,
        pellet_stop_finished: bool,
        pause_finished: bool,
        frite_finished: bool,
        halted: bool,
        map: GridMap,
        levels: Levels,
    ) -> (PlayerState, Option<PlayerAt>) {
        if !pellet_stop_finished || !pause_finished {
            (*self, None)
        } else {
            let ticked = PlayerState {
                speed: self.speed.spec_set_speed(Self::tick_speed(frite_finished, levels)).spec_tick(),
                ..*self
            };
            if ticked.speed.should_miss || halted {
                (ticked, None)
            } else if ticked.spec_blocked(map) {
                (PlayerState { player: Player { is_blocked: true }, ..ticked }, None)
            } else {
                let moved = PlayerState {
                    player: Player { is_blocked: false },
                    location: ticked.spec_step(),
                    ..ticked
                };
                (
                    moved,
                    Some(PlayerAt { location: moved.location.spec_get_tile(moved.direction) }),
                )
            }
        }
    }

    /// The player as it is put on the field: below the pen, facing left.
    pub fn spawn(levels: &Levels) -> (r: PlayerState)
        ensures
            r == Self::spec_spawn(*levels),
            r.wf(),
    {
        PlayerState {
            location: Location { x: 108, y: 56 },
            direction: Direction::Left,
            player: Player { is_blocked: false },
            speed: CharacterSpeed::new(levels.player_speed()),
        }
    }
}

/// Reads the keys: the player turns to the first direction, in the order
/// left, up, right, down, that it can turn to and whose key is held down.
/// Against a wall it can turn to any direction, else to those open on the
/// map where it is.
pub fn update_player(player: &mut PlayerState, map: &GridMap, keys: &Keys)
    requires
        map.wf(),
        old(player).location.tiles_fit(),
    ensures
        *final(player) == old(player).spec_update(*map, *keys),
{
    let possible_directions = if player.player.is_blocked {
        Direction::all()
    } else {
        map.possible_directions(player.location)
    };
    match first_pressed(&possible_directions, keys) {
        Some(d) => {
            player.direction = d;
        },
        None => {},
    }
}

/// The movement step of the player for one tick (see
/// [`PlayerState::spec_move`]). The result is the tile the player reports
/// when it has moved.
pub fn move_player(
    player: &mut PlayerState,
    pellet_stop_finished: bool,
    pause_finished: bool,
    frite_finished: bool,
    halted: bool,
    map: &GridMap,
    levels: &Levels,
) -> (at: Option<PlayerAt>)
    requires
        map.wf(),
        old(player).wf(),
        old(player).speed.can_tick(),
    ensures
        (*final(player), at) == old(player).spec_move(
            pellet_stop_finished,
            pause_finished,
            frite_finished,
            halted,
            *map,
            *levels,
        ),
        final(player).speed.wf(),
{
    if !pellet_stop_finished || !pause_finished {
        return None;
    }
    if frite_finished {
        player.speed.set_speed(levels.player_speed());
    } else {
        player.speed.set_speed(levels.player_frite_speed());
    }
    player.speed.tick();
    if player.speed.should_miss || halted {
        return None;
    }
    let direction = player.direction;
    let at_center = player.location == player.location.get_tile(direction);
    player.player.is_blocked = at_center && map.is_blocked(player.location.next_tile(direction));
    if player.player.is_blocked {
        return None;
    }
    player.location.advance(direction);
    match direction {
        Direction::Up => {
            player.location.x = bring_towards_center(player.location.x);
        },
        Direction::Down => {
            player.location.x = bring_towards_center(player.location.x);
        },
        Direction::Left => {
            player.location.y = bring_towards_center(player.location.y);
        },
        Direction::Right => {
            player.location.y = bring_towards_center(player.location.y);
        },
    }
    Some(PlayerAt { location: player.location.get_tile(direction) })
}

/// A player that stands at a tile centre in front of a blocked tile stays
/// where it is and is found blocked, on every tick on which it would move;
/// and a player that moves goes one eighth along its direction and reports
/// the tile of its new location.
pub proof fn lemma_blocked_player_stays(
    p: PlayerState,
    frite_finished: bool,
    map: GridMap,
    levels: Levels,
)
    requires
        !p.speed.spec_set_speed(PlayerState::tick_speed(frite_finished, levels)).spec_tick().should_miss,
    ensures
        ({
            let after = p.spec_move(true, true, frite_finished, false, map, levels);
            &&& p.spec_blocked(map) ==> after.0.location == p.location && after.0.player.is_blocked
                && after.1 is None
            &&& !p.spec_blocked(map) ==> !after.0.player.is_blocked && after.1 == Some(
                PlayerAt { location: after.0.location.spec_get_tile(p.direction) },
            ) && match p.direction {
                Direction::Left | Direction::Right => after.0.location.x == (p.location.x
                    + p.direction.dx()) as i32,
                Direction::Up | Direction::Down => after.0.location.y == (p.location.y
                    + p.direction.dy()) as i32,
            }
            &&& after.0.direction == p.direction
        }),
{
}

/// The keys turn the player only to a direction whose key is held down and
/// which it can turn to: against a wall any direction, else one that is open
/// on the map.
pub proof fn lemma_update_player(p: PlayerState, map: GridMap, keys: Keys)
    ensures
        p.spec_update(map, keys).location == p.location,
        p.spec_update(map, keys).player == p.player,
        p.spec_update(map, keys).speed == p.speed,
        p.spec_update(map, keys).direction != p.direction ==> keys.spec_pressed(
            p.spec_update(map, keys).direction,
        ) && p.turnable(map).contains(p.spec_update(map, keys).direction),
        (forall|d: Direction| !keys.spec_pressed(d)) ==> p.spec_update(map, keys) == p,
{
    lemma_first_pressed(p.turnable(map), keys);
    let i = first_pressed_index(p.turnable(map), keys);
    if i < p.turnable(map).len() {
        assert(p.turnable(map).contains(p.turnable(map)[i]));
    }
}

/// Which of its three pictures the player shows: the half-open mouth when
/// it stands against a wall; else the mouth opens and closes once over each
/// tile it crosses.
pub open spec fn spec_sprite_index(player: PlayerState) -> usize {
    if player.player.is_blocked {
        1
    } else {
        let along = player.location.x * player.direction.dx() + player.location.y
            * player.direction.dy();
        let quarter = (along % 8) / 2;
        if quarter == 0 {
            1
        } else if quarter == 1 {
            2
        } else if quarter == 2 {
            1
        } else {
            0
        }
    }
}

/// Which of its three pictures the player shows.
pub fn sprite_index(player: &PlayerState) -> (r: usize)
    ensures
        r == spec_sprite_index(*player),
{
    if player.player.is_blocked {
        return 1;
    }
    let along: i64 = match player.direction {
        Direction::Left => -(player.location.x as i64),
        Direction::Right => player.location.x as i64,
        Direction::Up => player.location.y as i64,
        Direction::Down => -(player.location.y as i64),
    };
    let part: i64 = match along.checked_rem_euclid(8) {
        Some(m) => m,
        None => 0,
    };
    let quarter: i64 = part / 2;
    if quarter == 0 {
        1
    } else if quarter == 1 {
        2
    } else if quarter == 2 {
        1
    } else {
        0
    }
}

impl PlayerLives {
    /// A new game starts with three lives.
    pub fn reset(&mut self)
        ensures
            final(self).lives == STARTING_LIVES,
    {
        self.lives = STARTING_LIVES;
    }

    /// One more life.
    pub fn add_life(&mut self)
        requires
            old(self).lives < usize::MAX,
        ensures
            final(self).lives == old(self).lives + 1,
    {
        self.lives = self.lives + 1;
    }

    /// The player died. With its last life the game is over and the result
    /// is true; else a life is taken off and the result is false.
    pub fn lose_life(&mut self) -> (game_over: bool)
        requires
            old(self).lives >= 1,
        ensures
            game_over == (old(self).lives == 1),
            final(self).lives == if game_over {
                old(self).lives
            } else {
                (old(self).lives - 1) as usize
            },
    {
        if self.lives == 1 {
            true
        } else {
            self.lives = self.lives - 1;
            false
        }
    }
}

} // verus!
