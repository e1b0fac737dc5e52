//! Meetings of the player and the ghosts.
//!
//! A ghost meets the player when the two are less than half a tile apart.
//! What comes of it depends on the ghost's mode: a frightened ghost is
//! eaten, a chasing or scattering ghost kills the player, and a ghost in any
//! other mode passes through.

use vstd::prelude::*;
use crate::events::GhostEaten;
use crate::ghost::{GhostMode, GhostState};
use crate::location::Location;

verus! {

/// The square of half a tile, in squared eighths: two characters closer
/// than this have met.
pub const COLLISION_RANGE_SQUARED: u128 = 16;

/// Number of ghosts, and so the most that can be frightened at once.
pub const GHOST_COUNT: usize = 4;

/// What the meetings of one tick come to.
#[derive(Debug)]
pub struct Collisions {
    /// The ghosts eaten, in the order of the ghosts.
    pub eaten: Vec<GhostEaten>,
    /// Whether a ghost caught the player.
    pub player_died: bool,
}

/// Whether two characters at `a` and `b` have met: whether they are less
/// than half a tile apart.
pub open spec fn spec_collides(a: Location, b: Location) -> bool {
    a.spec_distance_squared(&b) < COLLISION_RANGE_SQUARED
}

/// Whether two characters at `a` and `b` have met.
pub fn collides(a: Location, b: Location) -> (r: bool)
    ensures
        r == spec_collides(a, b),
{
    a.distance_squared(&b) < COLLISION_RANGE_SQUARED
}

/// Number of ghosts that show as frightened.
pub open spec fn spec_count_frightened(ghosts: Seq<GhostState>) -> nat
    decreases ghosts.len(),
{
    if ghosts.len() == 0 {
        0
    } else {
        spec_count_frightened(ghosts.drop_last()) + if ghosts.last().mode.spec_is_frightened() {
            1nat
        } else {
            0nat
        }
    }
}

/// The ghosts eaten: for every frightened ghost that met the player, in the
/// order of the ghosts, an event with the count `eaten_before`.
pub open spec fn spec_eaten(
    ghosts: Seq<GhostState>,
    player_location: Location,
    eaten_before: usize,
) -> Seq<GhostEaten>
    decreases ghosts.len(),
{
    if ghosts.len() == 0 {
        Seq::empty()
    } else {
        let g = ghosts.last();
        let rest = spec_eaten(ghosts.drop_last(), player_location, eaten_before);
        if g.mode == GhostMode::Frightened && spec_collides(g.location, player_location) {
            rest.push(GhostEaten { who: g.id, eaten_ghosts: eaten_before })
        } else {
            rest
        }
    }
}

/// A chasing or scattering ghost among `ghosts` met the player.
pub open spec fn spec_player_caught(ghosts: Seq<GhostState>, player_location: Location) -> bool {
    exists|i: int|
        0 <= i < ghosts.len() && (#[trigger] ghosts[i]).mode.spec_tracks_global() && spec_collides(
            ghosts[i].location,
            player_location,
        )
}

/// Number of ghosts that show as frightened.
pub fn count_frightened(ghosts: &Vec<GhostState>) -> (r: usize)
    ensures
        r == spec_count_frightened(ghosts@),
        r <= ghosts@.len(),
{
    let mut count: usize = 0;
    let mut i: usize = 0;
    proof {
        assert(ghosts@.take(0) =~= Seq::<GhostState>::empty());
    }
    while i < ghosts.len()
        invariant
            i <= ghosts.len(),
            count <= i,
            count == spec_count_frightened(ghosts@.take(i as int)),
        decreases ghosts.len() - i,
    {
        proof {
            assert(ghosts@.take(i + 1).drop_last() =~= ghosts@.take(i as int));
            assert(ghosts@.take(i + 1).last() == ghosts@[i as int]);
        }
        if ghosts[i].mode.is_frightened() {
            count = count + 1;
        }
        i = i + 1;
    }
    proof {
        assert(ghosts@.take(ghosts@.len() as int) =~= ghosts@);
    }
    count
}

/// The meetings of the player with the ghosts on one tick.
///
/// Every frightened ghost less than half a tile from the player is eaten;
/// its event counts the ghosts eaten before it since the power pellet, that
/// is, the ghosts that no longer show as frightened. The player dies if a
/// chasing or scattering ghost is that close. Ghosts in other modes meet
/// nobody.
pub fn collision_detection(ghosts: &Vec<GhostState>, player_location: Location) -> (r: Collisions)
    requires
        spec_count_frightened(ghosts@) <= GHOST_COUNT,
    ensures
        r.eaten@ == spec_eaten(
            ghosts@,
            player_location,
            (GHOST_COUNT - spec_count_frightened(ghosts@)) as usize,
        ),
        r.player_died == spec_player_caught(ghosts@, player_location),
{
    let eaten_before: usize = GHOST_COUNT - count_frightened(ghosts);
    let mut eaten: Vec<GhostEaten> = Vec::new();
    let mut player_died = false;
    let mut i: usize = 0;
    proof {
        assert(ghosts@.take(0) =~= Seq::<GhostState>::empty());
    }
    while i < ghosts.len()
        invariant
            i <= ghosts.len(),
            eaten@ == spec_eaten(ghosts@.take(i as int), player_location, eaten_before),
            player_died == spec_player_caught(ghosts@.take(i as int), player_location),
        decreases ghosts.len() - i,
    {
        let g = ghosts[i];
        let ghost before = ghosts@.take(i as int);
        let ghost after = ghosts@.take(i + 1);
        proof {
            assert(after.drop_last() =~= before);
            assert(after.last() == g);
        }
        let met = collides(g.location, player_location);
        if met {
            match g.mode {
                GhostMode::Frightened => {
                    eaten.push(GhostEaten { who: g.id, eaten_ghosts: eaten_before });
                },
                GhostMode::Scatter => {
                    player_died = true;
                },
                GhostMode::Chase => {
                    player_died = true;
                },
                _ => {},
            }
        }
        proof {
            if spec_player_caught(before, player_location) {
                let k = choose|k: int|
                    0 <= k < before.len() && (#[trigger] before[k]).mode.spec_tracks_global()
                        && spec_collides(before[k].location, player_location);
                assert(after[k] == before[k]);
            }
            if met && g.mode.spec_tracks_global() {
                assert(after[i as int] == g);
            }
            if spec_player_caught(after, player_location) {
                let k = choose|k: int|
                    0 <= k < after.len() && (#[trigger] after[k]).mode.spec_tracks_global()
                        && spec_collides(after[k].location, player_location);
                if k < i {
                    assert(before[k] == after[k]);
                }
            }
        }
        i = i + 1;
    }
    proof {
        assert(ghosts@.take(ghosts@.len() as int) =~= ghosts@);
    }
    Collisions { eaten, player_died }
}

/// Two characters exactly half a tile apart have not met; any nearer and
/// they have. On the lattice the nearest that two characters on one line
/// can be without meeting is four eighths.
pub proof fn lemma_collision_threshold(a: Location, b: Location)
    ensures
        a.spec_distance_squared(&b) == 16 ==> !spec_collides(a, b),
        a.spec_distance_squared(&b) <= 15 ==> spec_collides(a, b),
        a.y == b.y ==> (spec_collides(a, b) <==> -4 < a.x - b.x < 4),
        a.x == b.x ==> (spec_collides(a, b) <==> -4 < a.y - b.y < 4),
{
    let dx = a.x - b.x;
    let dy = a.y - b.y;
    assert(-4 < dx < 4 <==> dx * dx < 16) by (nonlinear_arith);
    assert(-4 < dy < 4 <==> dy * dy < 16) by (nonlinear_arith);
    assert(dx == 0 ==> dx * dx == 0) by (nonlinear_arith);
    assert(dy == 0 ==> dy * dy == 0) by (nonlinear_arith);
}

} // verus!
