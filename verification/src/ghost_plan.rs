//! Where a ghost wants to go and which way it turns to get there.
//!
//! A ghost plans at a tile centre for the tile after the next one: it looks
//! at the directions open at the next tile, leaves out the one that would
//! turn it around (and, just outside the pen, the way up), and takes the one
//! whose tile is nearest to its target. A frightened ghost has no target and
//! takes any of them.

use vstd::prelude::*;
use crate::direction::Direction;
use crate::ghost::{home_entrance, spec_home_entrance, GhostId, GhostMode, GhostState};
use crate::location::{lemma_tiles_of, Location};
use crate::map::GridMap;

verus! {

/// Squared distance, in squared eighths, beyond which Clyde chases the
/// player: eight tiles.
pub const CLYDE_RANGE_SQUARED: u128 = 4096;

impl GhostId {
    pub open spec fn spec_scatter(&self) -> Location {
        match *self {
            GhostId::Blinky => Location { x: 200, y: 264 },
            GhostId::Pinky => Location { x: 16, y: 264 },
            GhostId::Inky => Location { x: 216, y: -8i32 },
            GhostId::Clyde => Location { x: 0, y: -8i32 },
        }
    }

    /// The target of the ghost in chase mode.
    ///
    /// * Blinky: the player's tile.
    /// * Pinky: four tiles ahead of the player.
    /// * Inky: the point two tiles ahead of the player, mirrored away from
    ///   Blinky's tile: as far beyond that point as Blinky is before it.
    /// * Clyde: the player's tile while it is more than eight tiles away
    ///   from Clyde's own tile, else Clyde's scatter corner.
    pub open spec fn spec_chase_target(
        &self,
        current_tile: Location,
        blinky_tile: Location,
        player_tile: Location,
        player_direction: Direction,
    ) -> Location {
        match *self {
            GhostId::Blinky => player_tile,
            GhostId::Pinky => Location {
                x: (player_tile.x + 32 * player_direction.dx()) as i32,
                y: (player_tile.y + 32 * player_direction.dy()) as i32,
            },
            GhostId::Inky => Location {
                x: (2 * (player_tile.x + 16 * player_direction.dx()) - blinky_tile.x) as i32,
                y: (2 * (player_tile.y + 16 * player_direction.dy()) - blinky_tile.y) as i32,
            },
            GhostId::Clyde => if player_tile.spec_distance_squared(&current_tile)
                > CLYDE_RANGE_SQUARED {
                player_tile
            } else {
                GhostId::Clyde.spec_scatter()
            },
        }
    }
}

/// The corner that `who` heads for in scatter mode.
pub fn scatter(who: GhostId) -> (r: Location)
    ensures
        r == who.spec_scatter(),
        r.fits(),
{
    match who {
        GhostId::Blinky => Location { x: 200, y: 264 },
        GhostId::Pinky => Location { x: 16, y: 264 },
        GhostId::Inky => Location { x: 216, y: -8 },
        GhostId::Clyde => Location { x: 0, y: -8 },
    }
}

/// The target of `who` in chase mode (see [`GhostId::spec_chase_target`]).
pub fn chase_target(
    who: GhostId,
    current_tile: Location,
    blinky_tile: Location,
    player_tile: Location,
    player_direction: Direction,
) -> (r: Location)
    requires
        blinky_tile.fits(),
        player_tile.fits(),
    ensures
        r == who.spec_chase_target(current_tile, blinky_tile, player_tile, player_direction),
        who == GhostId::Pinky ==> r.x == player_tile.x + 32 * player_direction.dx() && r.y
            == player_tile.y + 32 * player_direction.dy(),
        who == GhostId::Inky ==> r.x == 2 * (player_tile.x + 16 * player_direction.dx())
            - blinky_tile.x && r.y == 2 * (player_tile.y + 16 * player_direction.dy())
            - blinky_tile.y,
{
    let step = player_direction.get_vec();
    match who {
        GhostId::Blinky => player_tile,
        GhostId::Pinky => Location { x: player_tile.x + 4 * step.x, y: player_tile.y + 4 * step.y },
        GhostId::Inky => {
            let offset_x: i32 = player_tile.x + 2 * step.x;
            let offset_y: i32 = player_tile.y + 2 * step.y;
            Location {
                x: blinky_tile.x + 2 * (offset_x - blinky_tile.x),
                y: blinky_tile.y + 2 * (offset_y - blinky_tile.y),
            }
        },
        GhostId::Clyde => {
            if player_tile.distance_squared(&current_tile) > CLYDE_RANGE_SQUARED {
                player_tile
            } else {
                scatter(who)
            }
        },
    }
}

/// Whether a ghost at `location` is in one of the two stretches, above and
/// below the pen, where ghosts do not turn upwards.
pub open spec fn spec_in_special_zone(location: Location) -> bool {
    80 <= location.x <= 136 && (location.y == 56 || location.y == 152)
}

/// Whether a ghost at `location` is where ghosts do not turn upwards.
pub fn in_special_zone(location: Location) -> (r: bool)
    ensures
        r == spec_in_special_zone(location),
{
    80 <= location.x && location.x <= 136 && (location.y == 56 || location.y == 152)
}

/// Whether a ghost travelling along `current` may turn to `d`: not if that
/// turns it around, and not upwards in a special zone.
pub open spec fn may_turn(current: Direction, is_in_special_zone: bool, d: Direction) -> bool {
    !(is_in_special_zone && d == Direction::Up) && d != current.spec_opposite()
}

/// The directions a ghost chooses from at `next_tile`: those open there that
/// it may turn to, in the order in which the map lists them.
pub open spec fn spec_candidates(
    map: GridMap,
    next_tile: Location,
    current: Direction,
    is_in_special_zone: bool,
) -> Seq<Direction> {
    map.spec_possible_directions(next_tile).filter(
        |d: Direction| may_turn(current, is_in_special_zone, d),
    )
}

/// Squared distance to `target` of the tile that `d` leads to from `from`.
pub open spec fn step_distance(from: Location, d: Direction, target: Location) -> int {
    from.spec_next_tile(d).spec_distance_squared(&target)
}

/// Index of the candidate to take among the first `n`: the first of those
/// whose tile is nearest to the target.
pub open spec fn best_index(c: Seq<Direction>, from: Location, target: Location, n: nat) -> int
    decreases n,
{
    if n <= 1 {
        0
    } else {
        let b = best_index(c, from, target, (n - 1) as nat);
        if step_distance(from, c[n - 1], target) < step_distance(from, c[b], target) {
            n - 1
        } else {
            b
        }
    }
}

/// The choice among the candidates `c`. With a target it is the candidate
/// whose tile is nearest to the target, the first of them if several are
/// equally near. Without a target it is the candidate at index `draw`.
/// Without a candidate the ghost turns around.
pub open spec fn spec_pick(
    c: Seq<Direction>,
    from: Location,
    target: Option<Location>,
    current: Direction,
    draw: int,
) -> Direction {
    if c.len() == 0 {
        current.spec_opposite()
    } else {
        match target {
            Some(t) => c[best_index(c, from, t, c.len())],
            None => c[draw],
        }
    }
}

/// `best_index` is the index of a nearest candidate, and of the first one
/// among the nearest.
pub proof fn lemma_best_index(c: Seq<Direction>, from: Location, target: Location, n: nat)
    requires
        1 <= n <= c.len(),
    ensures
        0 <= best_index(c, from, target, n) < n,
        forall|j: int|
            0 <= j < n ==> step_distance(from, c[best_index(c, from, target, n)], target)
                <= step_distance(from, #[trigger] c[j], target),
        forall|j: int|
            0 <= j < best_index(c, from, target, n) ==> step_distance(
                from,
                c[best_index(c, from, target, n)],
                target,
            ) < step_distance(from, #[trigger] c[j], target),
    decreases n,
{
    if n > 1 {
        lemma_best_index(c, from, target, (n - 1) as nat);
    }
}

/// No candidate turns the ghost around, none leads upwards in a special
/// zone, and every candidate is open on the map.
pub proof fn lemma_candidates(
    map: GridMap,
    next_tile: Location,
    current: Direction,
    is_in_special_zone: bool,
)
    ensures
        forall|d: Direction|
            spec_candidates(map, next_tile, current, is_in_special_zone).contains(d) <==> (
            map.spec_possible_directions(next_tile).contains(d) && may_turn(
                current,
                is_in_special_zone,
                d,
            )),
        !spec_candidates(map, next_tile, current, is_in_special_zone).contains(
            current.spec_opposite(),
        ),
        is_in_special_zone ==> !spec_candidates(
            map,
            next_tile,
            current,
            is_in_special_zone,
        ).contains(Direction::Up),
{
    let s = map.spec_possible_directions(next_tile);
    let pred = |d: Direction| may_turn(current, is_in_special_zone, d);
    broadcast use vstd::seq_lib::group_filter_ensures;
    assert forall|d: Direction| s.filter(pred).contains(d) <==> (s.contains(d) && pred(d)) by {
        if s.filter(pred).contains(d) {
            let i = choose|i: int| 0 <= i < s.filter(pred).len() && s.filter(pred)[i] == d;
            assert(pred(s.filter(pred)[i]));
            s.lemma_filter_contains_rev(pred, d);
        }
        if s.contains(d) && pred(d) {
            let i = choose|i: int| 0 <= i < s.len() && s[i] == d;
            assert(pred(s[i]));
        }
    }
}

/// Unless the ghost is at a dead end, the direction picked is one of the
/// candidates, and so never the reverse of the current direction.
pub proof fn lemma_no_reversal(
    map: GridMap,
    next_tile: Location,
    target: Option<Location>,
    current: Direction,
    is_in_special_zone: bool,
    draw: int,
)
    requires
        spec_candidates(map, next_tile, current, is_in_special_zone).len() > 0,
        0 <= draw < spec_candidates(map, next_tile, current, is_in_special_zone).len(),
    ensures
        spec_candidates(map, next_tile, current, is_in_special_zone).contains(
            spec_pick(
                spec_candidates(map, next_tile, current, is_in_special_zone),
                next_tile,
                target,
                current,
                draw,
            ),
        ),
        spec_pick(
            spec_candidates(map, next_tile, current, is_in_special_zone),
            next_tile,
            target,
            current,
            draw,
        ) != current.spec_opposite(),
{
    let c = spec_candidates(map, next_tile, current, is_in_special_zone);
    lemma_candidates(map, next_tile, current, is_in_special_zone);
    match target {
        Some(t) => {
            lemma_best_index(c, next_tile, t, c.len());
            assert(c.contains(c[best_index(c, next_tile, t, c.len())]));
        },
        None => {
            assert(c.contains(c[draw]));
        },
    }
}

/// The directions a ghost chooses from at `next_tile`.
pub fn candidate_directions(
    map: &GridMap,
    next_tile: Location,
    current: Direction,
    is_in_special_zone: bool,
) -> (r: Vec<Direction>)
    requires
        map.wf(),
        next_tile.tiles_fit(),
    ensures
        r@ == spec_candidates(*map, next_tile, current, is_in_special_zone),
{
    let possible = map.possible_directions(next_tile);
    let ghost pred = |d: Direction| may_turn(current, is_in_special_zone, d);
    let reverse = current.opposite();
    let mut r: Vec<Direction> = Vec::new();
    let mut i: usize = 0;
    proof {
        reveal(Seq::filter);
        assert(possible@.take(0) =~= Seq::<Direction>::empty());
    }
    while i < possible.len()
        invariant
            i <= possible.len(),
            reverse == current.spec_opposite(),
            pred == (|d: Direction| may_turn(current, is_in_special_zone, d)),
            r@ == possible@.take(i as int).filter(pred),
        decreases possible.len() - i,
    {
        let d = possible[i];
        proof {
            reveal(Seq::filter);
            assert(possible@.take(i + 1).drop_last() =~= possible@.take(i as int));
            assert(possible@.take(i + 1).last() == d);
        }
        if !(is_in_special_zone && d == Direction::Up) && d != reverse {
            r.push(d);
        }
        i = i + 1;
    }
    proof {
        assert(possible@.take(possible@.len() as int) =~= possible@);
    }
    r
}

/// Squared distance to `target` of the tile that `d` leads to from `from`.
fn distance_via(from: Location, d: Direction, target: Location) -> (r: u128)
    requires
        from.tiles_fit(),
    ensures
        r == step_distance(from, d, target),
{
    from.next_tile(d).distance_squared(&target)
}

/// The choice among `candidates` (see [`spec_pick`]). `draw` is the index
/// taken when there is no target.
pub fn pick_direction(
    candidates: &Vec<Direction>,
    next_tile: Location,
    target: Option<Location>,
    current: Direction,
    draw: usize,
) -> (r: Direction)
    requires
        next_tile.tiles_fit(),
        target is None ==> draw < candidates@.len() || candidates@.len() == 0,
    ensures
        r == spec_pick(candidates@, next_tile, target, current, draw as int),
{
    let n: usize = candidates.len();
    if n == 0 {
        return current.opposite();
    }
    match target {
        None => candidates[draw],
        Some(t) => {
            let mut best: usize = 0;
            let mut best_distance: u128 = distance_via(next_tile, candidates[0], t);
            let mut i: usize = 1;
            while i < n
                invariant
                    1 <= i <= n,
                    n == candidates@.len(),
                    next_tile.tiles_fit(),
                    best == best_index(candidates@, next_tile, t, i as nat),
                    best < i,
                    best_distance == step_distance(next_tile, candidates@[best as int], t),
                decreases n - i,
            {
                let distance: u128 = distance_via(next_tile, candidates[i], t);
                if distance < best_distance {
                    best = i;
                    best_distance = distance;
                }
                i = i + 1;
            }
            candidates[best]
        },
    }
}

/// `fastrand::usize` on the range `0..n`: a number drawn from the thread's
/// generator. The range must not be empty, or the call panics; the number
/// drawn lies in the range. Nothing else is known of it.
#[verifier::external_body]
fn random_below(n: usize) -> (r: usize)
    requires
        n > 0,
    ensures
        r < n,
{
    fastrand::usize(0..n)
}

/// The direction a ghost plans at `next_tile`, the tile it is about to
/// enter while travelling along `current_direction`.
///
/// The candidates are the directions open at `next_tile` without the reverse
/// of the current direction and, in a special zone, without the way up.
/// With a target the result is the candidate whose tile is nearest to it,
/// the first listed if several are equally near. Without a target it is a
/// candidate drawn at random. At a dead end, where there is no candidate,
/// the ghost turns around.
pub fn ghost_path_finder(
    next_tile: Location,
    target_tile: Option<Location>,
    map: &GridMap,
    current_direction: Direction,
    is_in_special_zone: bool,
) -> (r: Direction)
    requires
        map.wf(),
        next_tile.tiles_fit(),
    ensures
        target_tile is Some ==> r == spec_pick(
            spec_candidates(*map, next_tile, current_direction, is_in_special_zone),
            next_tile,
            target_tile,
            current_direction,
            0,
        ),
        spec_candidates(*map, next_tile, current_direction, is_in_special_zone).len() > 0
            ==> spec_candidates(*map, next_tile, current_direction, is_in_special_zone).contains(r)
            && r != current_direction.spec_opposite(),
        spec_candidates(*map, next_tile, current_direction, is_in_special_zone).len() == 0 ==> r
            == current_direction.spec_opposite(),
{
    let candidates = candidate_directions(map, next_tile, current_direction, is_in_special_zone);
    let draw: usize = if target_tile.is_none() && candidates.len() > 0 {
        random_below(candidates.len())
    } else {
        0
    };
    proof {
        if candidates@.len() > 0 {
            lemma_no_reversal(
                *map,
                next_tile,
                target_tile,
                current_direction,
                is_in_special_zone,
                draw as int,
            );
        }
    }
    pick_direction(&candidates, next_tile, target_tile, current_direction, draw)
}

/// What a ghost has to decide when it plans.
#[derive(Clone, Copy, Debug, PartialEq, Eq)]
pub enum Planning {
    /// Nothing: its mode does not plan, or it has a plan already.
    Nothing,
    /// It is outside the grid and keeps its direction.
    Straight,
    /// It chooses a direction at `next_tile`, heading for `target`.
    Choose { next_tile: Location, target: Option<Location>, is_in_special_zone: bool },
}

/// Tile of the first Blinky among `ghosts`; the origin if there is none.
pub open spec fn spec_blinky_tile(ghosts: Seq<GhostState>) -> Location
    decreases ghosts.len(),
{
    if ghosts.len() == 0 {
        Location { x: 0, y: 0 }
    } else if ghosts.first().id == GhostId::Blinky {
        ghosts.first().location.spec_get_tile(ghosts.first().directions.current)
    } else {
        spec_blinky_tile(ghosts.drop_first())
    }
}

impl GhostState {
    /// The ghost finds its own way: it is chasing, scattering, frightened or
    /// dead. In the pen, on the way in or out, and while it pauses, its
    /// moves are laid down.
    pub open spec fn spec_plans(&self) -> bool {
        self.mode == GhostMode::Chase || self.mode == GhostMode::Scatter || self.mode
            == GhostMode::Frightened || self.mode == GhostMode::Dead
    }

    /// The tile the ghost heads for: its corner when scattering, its chase
    /// target when chasing, the entrance of the pen when dead, none when
    /// frightened.
    pub open spec fn spec_target(
        &self,
        blinky_tile: Location,
        player_tile: Location,
        player_direction: Direction,
    ) -> Option<Location> {
        match self.mode {
            GhostMode::Scatter => Some(self.id.spec_scatter()),
            GhostMode::Chase => Some(
                self.id.spec_chase_target(
                    self.location.spec_get_tile(self.directions.current),
                    blinky_tile,
                    player_tile,
                    player_direction,
                ),
            ),
            GhostMode::Dead => Some(spec_home_entrance()),
            _ => None,
        }
    }

    /// What the ghost has to decide when it plans.
    pub open spec fn spec_planning(
        &self,
        map: GridMap,
        blinky_tile: Location,
        player_tile: Location,
        player_direction: Direction,
    ) -> Planning {
        if !self.spec_plans() || !self.directions.spec_plan_needed() {
            Planning::Nothing
        } else if !map.spec_is_in_map(self.location) {
            Planning::Straight
        } else {
            Planning::Choose {
                next_tile: self.location.spec_next_tile(self.directions.current),
                target: self.spec_target(blinky_tile, player_tile, player_direction),
                is_in_special_zone: spec_in_special_zone(self.location),
            }
        }
    }

    /// The candidates the ghost chooses from when it plans inside the grid.
    pub open spec fn plan_candidates(&self, map: GridMap) -> Seq<Direction> {
        spec_candidates(
            map,
            self.location.spec_next_tile(self.directions.current),
            self.directions.current,
            spec_in_special_zone(self.location),
        )
    }

    /// The ghost after planning, `draw` being the index of the candidate a
    /// frightened ghost takes. A ghost that does not plan or has a plan is
    /// unchanged; outside the grid it plans to go straight on; inside it
    /// plans the direction picked at the next tile ([`spec_pick`]).
    pub open spec fn spec_plan(
        &self,
        map: GridMap,
        blinky_tile: Location,
        player_tile: Location,
        player_direction: Direction,
        draw: int,
    ) -> GhostState {
        match self.spec_planning(map, blinky_tile, player_tile, player_direction) {
            Planning::Nothing => *self,
            Planning::Straight => GhostState {
                directions: self.directions.spec_set_plan(self.directions.current),
                ..*self
            },
            Planning::Choose { next_tile, target, is_in_special_zone } => GhostState {
                directions: self.directions.spec_set_plan(
                    spec_pick(
                        self.plan_candidates(map),
                        next_tile,
                        target,
                        self.directions.current,
                        draw,
                    ),
                ),
                ..*self
            },
        }
    }

    /// `draw` can be used as the draw of this ghost's plan: where the plan
    /// depends on it, it is the index of a candidate.
    pub open spec fn draw_fits(
        &self,
        map: GridMap,
        blinky_tile: Location,
        player_tile: Location,
        player_direction: Direction,
        draw: int,
    ) -> bool {
        self.spec_planning(map, blinky_tile, player_tile, player_direction) matches Planning::Choose {
            target: None,
            ..
        } ==> 0 <= draw < self.plan_candidates(map).len() || (draw == 0 && self.plan_candidates(
            map,
        ).len() == 0)
    }

    /// `after` is this ghost after planning, for some draw that fits.
    pub open spec fn is_planned(
        &self,
        after: GhostState,
        map: GridMap,
        blinky_tile: Location,
        player_tile: Location,
        player_direction: Direction,
    ) -> bool {
        exists|draw: int|
            self.draw_fits(map, blinky_tile, player_tile, player_direction, draw) && after
                == #[trigger] self.spec_plan(map, blinky_tile, player_tile, player_direction, draw)
    }

    /// What the ghost has to decide when it plans.
    pub fn planning(
        &self,
        map: &GridMap,
        blinky_tile: Location,
        player_tile: Location,
        player_direction: Direction,
    ) -> (r: Planning)
        requires
            map.wf(),
            self.location.fits(),
            blinky_tile.fits(),
            player_tile.fits(),
        ensures
            r == self.spec_planning(*map, blinky_tile, player_tile, player_direction),
            r matches Planning::Choose { next_tile, .. } ==> next_tile.tiles_fit(),
    {
        match self.mode {
            GhostMode::Home(_) => {
                return Planning::Nothing;
            },
            GhostMode::HomeExit(_) => {
                return Planning::Nothing;
            },
            GhostMode::DeadEnterHome => {
                return Planning::Nothing;
            },
            GhostMode::DeadPause => {
                return Planning::Nothing;
            },
            _ => {},
        }
        if !self.directions.plan_needed() {
            return Planning::Nothing;
        }
        if !map.is_in_map(self.location) {
            return Planning::Straight;
        }
        let target = match self.mode {
            GhostMode::Scatter => Some(scatter(self.id)),
            GhostMode::Chase => Some(
                chase_target(
                    self.id,
                    self.location.get_tile(self.directions.current),
                    blinky_tile,
                    player_tile,
                    player_direction,
                ),
            ),
            GhostMode::Dead => Some(home_entrance()),
            _ => None,
        };
        proof {
            lemma_tiles_of(self.location, self.directions.current);
        }
        Planning::Choose {
            next_tile: self.location.next_tile(self.directions.current),
            target,
            is_in_special_zone: in_special_zone(self.location),
        }
    }

    /// Plans the ghost's next direction, a frightened ghost taking the
    /// candidate at index `draw`.
    pub fn plan_with(
        &mut self,
        map: &GridMap,
        blinky_tile: Location,
        player_tile: Location,
        player_direction: Direction,
        draw: usize,
    )
        requires
            map.wf(),
            old(self).location.fits(),
            blinky_tile.fits(),
            player_tile.fits(),
            old(self).draw_fits(*map, blinky_tile, player_tile, player_direction, draw as int),
        ensures
            *final(self) == old(self).spec_plan(
                *map,
                blinky_tile,
                player_tile,
                player_direction,
                draw as int,
            ),
    {
        match self.planning(map, blinky_tile, player_tile, player_direction) {
            Planning::Nothing => {},
            Planning::Straight => {
                let current = self.directions.current;
                self.directions.set_plan(current);
            },
            Planning::Choose { next_tile, target, is_in_special_zone } => {
                let current = self.directions.current;
                let candidates = candidate_directions(map, next_tile, current, is_in_special_zone);
                let planned = pick_direction(&candidates, next_tile, target, current, draw);
                self.directions.set_plan(planned);
            },
        }
    }

    /// Plans the ghost's next direction. A ghost that does not plan, or has
    /// a plan, is left as it is. Outside the grid the ghost plans to go
    /// straight on. Inside, it plans the direction found by
    /// [`ghost_path_finder`] at the next tile: the result is that of
    /// [`GhostState::spec_plan`] for some draw, and does not depend on the
    /// draw unless the ghost is frightened.
    pub fn plan(
        &mut self,
        map: &GridMap,
        blinky_tile: Location,
        player_tile: Location,
        player_direction: Direction,
    )
        requires
            map.wf(),
            old(self).location.fits(),
            blinky_tile.fits(),
            player_tile.fits(),
        ensures
            old(self).is_planned(*final(self), *map, blinky_tile, player_tile, player_direction),
            old(self).mode != GhostMode::Frightened ==> *final(self) == old(self).spec_plan(
                *map,
                blinky_tile,
                player_tile,
                player_direction,
                0,
            ),
            final(self).location == old(self).location,
            final(self).mode == old(self).mode,
            final(self).speed == old(self).speed,
            final(self).id == old(self).id,
            final(self).directions.current == old(self).directions.current,
    {
        match self.planning(map, blinky_tile, player_tile, player_direction) {
            Planning::Nothing => {
                assert(*self == old(self).spec_plan(
                    *map,
                    blinky_tile,
                    player_tile,
                    player_direction,
                    0,
                ));
            },
            Planning::Straight => {
                let current = self.directions.current;
                self.directions.set_plan(current);
                assert(*self == old(self).spec_plan(
                    *map,
                    blinky_tile,
                    player_tile,
                    player_direction,
                    0,
                ));
            },
            Planning::Choose { next_tile, target, is_in_special_zone } => {
                let current = self.directions.current;
                let planned = ghost_path_finder(
                    next_tile,
                    target,
                    map,
                    current,
                    is_in_special_zone,
                );
                self.directions.set_plan(planned);
                proof {
                    let c = old(self).plan_candidates(*map);
                    if target is Some || c.len() == 0 {
                        assert(*self == old(self).spec_plan(
                            *map,
                            blinky_tile,
                            player_tile,
                            player_direction,
                            0,
                        ));
                    } else {
                        let i = choose|i: int| 0 <= i < c.len() && c[i] == planned;
                        assert(*self == old(self).spec_plan(
                            *map,
                            blinky_tile,
                            player_tile,
                            player_direction,
                            i,
                        ));
                    }
                }
            },
        }
    }
}

/// A ghost that finds its own way has a plan once it has planned, wherever
/// it is: it never comes to a tile centre without a direction to take.
pub proof fn lemma_plan_resolves(
    g: GhostState,
    map: GridMap,
    blinky_tile: Location,
    player_tile: Location,
    player_direction: Direction,
    draw: int,
)
    requires
        g.spec_plans(),
    ensures
        g.spec_plan(map, blinky_tile, player_tile, player_direction, draw).directions.planned
            is Some,
        g.spec_plan(map, blinky_tile, player_tile, player_direction, draw).directions.current
            == g.directions.current,
{
}

/// A ghost that chooses its way never plans to turn around, unless it is at
/// a dead end: its plan is one of the candidates, none of which is the
/// reverse of its current direction. At a dead end it plans to turn around.
pub proof fn lemma_plan_never_reverses(
    g: GhostState,
    map: GridMap,
    blinky_tile: Location,
    player_tile: Location,
    player_direction: Direction,
    draw: int,
)
    requires
        g.spec_planning(map, blinky_tile, player_tile, player_direction) is Choose,
        0 <= draw < g.plan_candidates(map).len() || g.plan_candidates(map).len() == 0,
    ensures
        g.plan_candidates(map).len() > 0 ==> g.spec_plan(
            map,
            blinky_tile,
            player_tile,
            player_direction,
            draw,
        ).directions.planned is Some && g.spec_plan(
            map,
            blinky_tile,
            player_tile,
            player_direction,
            draw,
        ).directions.planned->0 != g.directions.current.spec_opposite() && g.plan_candidates(
            map,
        ).contains(
            g.spec_plan(map, blinky_tile, player_tile, player_direction, draw).directions.planned->0,
        ),
        g.plan_candidates(map).len() == 0 ==> g.spec_plan(
            map,
            blinky_tile,
            player_tile,
            player_direction,
            draw,
        ).directions.planned == Some(g.directions.current.spec_opposite()),
{
    if g.plan_candidates(map).len() > 0 {
        lemma_no_reversal(
            map,
            g.location.spec_next_tile(g.directions.current),
            g.spec_target(blinky_tile, player_tile, player_direction),
            g.directions.current,
            spec_in_special_zone(g.location),
            draw,
        );
    }
}

/// Tile of the first Blinky among `ghosts`; the origin if there is none.
pub fn blinky_tile(ghosts: &Vec<GhostState>) -> (r: Location)
    requires
        forall|i: int| 0 <= i < ghosts@.len() ==> (#[trigger] ghosts@[i]).location.fits(),
    ensures
        r == spec_blinky_tile(ghosts@),
        r.fits(),
{
    let mut i: usize = 0;
    proof {
        assert(ghosts@.skip(0) =~= ghosts@);
    }
    while i < ghosts.len()
        invariant
            i <= ghosts.len(),
            forall|k: int| 0 <= k < ghosts@.len() ==> (#[trigger] ghosts@[k]).location.fits(),
            spec_blinky_tile(ghosts@) == spec_blinky_tile(ghosts@.skip(i as int)),
        decreases ghosts.len() - i,
    {
        proof {
            let rest = ghosts@.skip(i as int);
            assert(rest.first() == ghosts@[i as int]);
            assert(rest.drop_first() =~= ghosts@.skip(i + 1));
        }
        if ghosts[i].id == GhostId::Blinky {
            return ghosts[i].location.get_tile(ghosts[i].directions.current);
        }
        i = i + 1;
    }
    Location { x: 0, y: 0 }
}

/// The planning step of all ghosts for one tick. Every ghost plans as in
/// [`GhostState::plan`], with the player's tile and the tile of Blinky as
/// they are when the step begins.
pub fn plan_ghosts(
    ghosts: &mut Vec<GhostState>,
    player_location: Location,
    player_direction: Direction,
    map: &GridMap,
)
    requires
        map.wf(),
        player_location.fits(),
        forall|i: int| 0 <= i < old(ghosts)@.len() ==> (#[trigger] old(ghosts)@[i]).location.fits(),
    ensures
        final(ghosts)@.len() == old(ghosts)@.len(),
        forall|i: int|
            #![trigger final(ghosts)@[i]]
            0 <= i < old(ghosts)@.len() ==> old(ghosts)@[i].is_planned(
                final(ghosts)@[i],
                *map,
                spec_blinky_tile(old(ghosts)@),
                player_location.spec_get_tile(player_direction),
                player_direction,
            ),
        forall|i: int|
            #![trigger final(ghosts)@[i]]
            0 <= i < old(ghosts)@.len() && old(ghosts)@[i].mode != GhostMode::Frightened
                ==> final(ghosts)@[i] == old(ghosts)@[i].spec_plan(
                *map,
                spec_blinky_tile(old(ghosts)@),
                player_location.spec_get_tile(player_direction),
                player_direction,
                0,
            ),
{
    let player_tile = player_location.get_tile(player_direction);
    let blinky = blinky_tile(ghosts);
    let n: usize = ghosts.len();
    let mut i: usize = 0;
    while i < n
        invariant
            i <= n,
            n == old(ghosts)@.len(),
            ghosts@.len() == n,
            map.wf(),
            player_tile.fits(),
            blinky.fits(),
            player_tile == player_location.spec_get_tile(player_direction),
            blinky == spec_blinky_tile(old(ghosts)@),
            forall|k: int|
                0 <= k < old(ghosts)@.len() ==> (#[trigger] old(ghosts)@[k]).location.fits(),
            forall|k: int| i <= k < n ==> ghosts@[k] == old(ghosts)@[k],
            forall|k: int|
                #![trigger ghosts@[k]]
                0 <= k < i ==> old(ghosts)@[k].is_planned(
                    ghosts@[k],
                    *map,
                    blinky,
                    player_tile,
                    player_direction,
                ),
            forall|k: int|
                #![trigger ghosts@[k]]
                0 <= k < i && old(ghosts)@[k].mode != GhostMode::Frightened ==> ghosts@[k] == old(
                    ghosts,
                )@[k].spec_plan(*map, blinky, player_tile, player_direction, 0),
        decreases n - i,
    {
        let mut g = ghosts[i];
        assert(old(ghosts)@[i as int].location.fits());
        g.plan(map, blinky, player_tile, player_direction);
        ghosts[i] = g;
        i = i + 1;
    }
}

/// The planning step of all ghosts with the draws handed in: ghost `i`
/// plans as in [`GhostState::plan_with`] with the draw `draws[i]`. With the
/// same draws the step always comes out the same.
pub fn plan_ghosts_with(
    ghosts: &mut Vec<GhostState>,
    player_location: Location,
    player_direction: Direction,
    map: &GridMap,
    draws: &Vec<usize>,
)
    requires
        map.wf(),
        player_location.fits(),
        draws@.len() == old(ghosts)@.len(),
        forall|i: int| 0 <= i < old(ghosts)@.len() ==> (#[trigger] old(ghosts)@[i]).location.fits(),
        forall|i: int|
            0 <= i < old(ghosts)@.len() ==> (#[trigger] old(ghosts)@[i]).draw_fits(
                *map,
                spec_blinky_tile(old(ghosts)@),
                player_location.spec_get_tile(player_direction),
                player_direction,
                draws@[i] as int,
            ),
    ensures
        final(ghosts)@.len() == old(ghosts)@.len(),
        forall|i: int|
            0 <= i < old(ghosts)@.len() ==> final(ghosts)@[i] == (#[trigger] old(
                ghosts,
            )@[i]).spec_plan(
                *map,
                spec_blinky_tile(old(ghosts)@),
                player_location.spec_get_tile(player_direction),
                player_direction,
                draws@[i] as int,
            ),
{
    let player_tile = player_location.get_tile(player_direction);
    let blinky = blinky_tile(ghosts);
    let n: usize = ghosts.len();
    let mut i: usize = 0;
    while i < n
        invariant
            i <= n,
            n == old(ghosts)@.len(),
            n == draws@.len(),
            ghosts@.len() == n,
            map.wf(),
            player_tile.fits(),
            blinky.fits(),
            player_tile == player_location.spec_get_tile(player_direction),
            blinky == spec_blinky_tile(old(ghosts)@),
            forall|k: int|
                0 <= k < old(ghosts)@.len() ==> (#[trigger] old(ghosts)@[k]).location.fits(),
            forall|k: int|
                0 <= k < old(ghosts)@.len() ==> (#[trigger] old(ghosts)@[k]).draw_fits(
                    *map,
                    blinky,
                    player_tile,
                    player_direction,
                    draws@[k] as int,
                ),
            forall|k: int| i <= k < n ==> ghosts@[k] == old(ghosts)@[k],
            forall|k: int|
                0 <= k < i ==> ghosts@[k] == (#[trigger] old(ghosts)@[k]).spec_plan(
                    *map,
                    blinky,
                    player_tile,
                    player_direction,
                    draws@[k] as int,
                ),
        decreases n - i,
    {
        let mut g = ghosts[i];
        assert(old(ghosts)@[i as int].location.fits());
        assert(old(ghosts)@[i as int].draw_fits(
            *map,
            blinky,
            player_tile,
            player_direction,
            draws@[i as int] as int,
        ));
        g.plan_with(map, blinky, player_tile, player_direction, draws[i]);
        ghosts[i] = g;
        i = i + 1;
    }
}

} // verus!
