//! Scoring.

use vstd::prelude::*;
use crate::events::{GhostEaten, PelletEaten};
use crate::levels::BonusSymbol;
use crate::location::Location;

verus! {

/// Points for a pellet.
pub const PELLET_POINTS: u32 = 10;

/// Points for a power pellet.
pub const POWER_PELLET_POINTS: u32 = 50;

/// Points on top for having eaten all four ghosts after each of the four
/// power pellets of a level.
pub const ALL_GHOSTS_BONUS: u32 = 12000;

/// Power pellets in a level.
pub const POWER_PELLETS: usize = 4;

/// The score of the game in play and the best score known.
#[derive(Clone, Copy, Debug, PartialEq, Eq, Structural)]
pub struct Points {
    pub score: u32,
    pub high_score: u32,
}

/// The ghosts eaten on the level, counted by the power pellet they were
/// eaten after: the number of power pellets eaten, the ghosts eaten after
/// the latest of them, and the ghosts eaten after the earlier ones.
#[derive(Clone, Copy, Debug, PartialEq, Eq, Structural)]
pub struct GhostsEatenCounter {
    pub power_pellets: usize,
    pub after_latest: u8,
    pub after_earlier: u32,
}

impl BonusSymbol {
    pub open spec fn spec_points(&self) -> u32 {
        match *self {
            BonusSymbol::Cherries => 100,
            BonusSymbol::Strawberry => 300,
            BonusSymbol::Peach => 500,
            BonusSymbol::Apple => 700,
            BonusSymbol::Grapes => 1000,
            BonusSymbol::Galaxian => 2000,
            BonusSymbol::Bell => 3000,
            BonusSymbol::Key => 5000,
        }
    }

    /// Points for eating the fruit.
    #[verifier::when_used_as_spec(spec_points)]
    pub fn points(&self) -> (r: u32)
        ensures
            r == self.spec_points(),
    {
        match self {
            BonusSymbol::Cherries => 100,
            BonusSymbol::Strawberry => 300,
            BonusSymbol::Peach => 500,
            BonusSymbol::Apple => 700,
            BonusSymbol::Grapes => 1000,
            BonusSymbol::Galaxian => 2000,
            BonusSymbol::Bell => 3000,
            BonusSymbol::Key => 5000,
        }
    }
}

/// Points for a ghost eaten after `eaten_before` others since the power
/// pellet: 200 for the first, doubled for each one after it.
pub open spec fn spec_ghost_points(eaten_before: usize) -> u32 {
    if eaten_before == 0 {
        200
    } else if eaten_before == 1 {
        400
    } else if eaten_before == 2 {
        800
    } else {
        1600
    }
}

/// Points for a ghost eaten after `eaten_before` others since the power
/// pellet.
pub fn ghost_points(eaten_before: usize) -> (r: u32)
    requires
        eaten_before <= 3,
    ensures
        r == spec_ghost_points(eaten_before),
{
    if eaten_before == 0 {
        200
    } else if eaten_before == 1 {
        400
    } else if eaten_before == 2 {
        800
    } else {
        1600
    }
}

impl GhostsEatenCounter {
    /// At most four power pellets were eaten, and no ghost before the first.
    pub open spec fn spec_wf(&self) -> bool {
        &&& self.power_pellets <= POWER_PELLETS
        &&& self.after_earlier <= 255 * self.power_pellets
        &&& self.power_pellets == 0 ==> self.after_latest == 0
    }

    /// Ghosts eaten on the level.
    pub open spec fn spec_total(&self) -> int {
        self.after_earlier + self.after_latest
    }

    /// The counter after a ghost was eaten.
    pub open spec fn spec_ghost_eaten(&self) -> GhostsEatenCounter {
        GhostsEatenCounter { after_latest: (self.after_latest + 1) as u8, ..*self }
    }

    /// The counter after a power pellet was eaten.
    pub open spec fn spec_power_pellet_eaten(&self) -> GhostsEatenCounter {
        GhostsEatenCounter {
            power_pellets: (self.power_pellets + 1) as usize,
            after_latest: 0,
            after_earlier: (self.after_earlier + self.after_latest) as u32,
        }
    }

    /// A ghost can be counted: a power pellet was eaten, and the count of
    /// the ghosts after it is not at its limit.
    pub open spec fn spec_can_count_ghost(&self) -> bool {
        1 <= self.power_pellets && self.after_latest < u8::MAX
    }

    /// Whether the counter is one that counting can lead to.
    #[verifier::when_used_as_spec(spec_wf)]
    pub fn wf(&self) -> (r: bool)
        ensures
            r == self.spec_wf(),
    {
        self.power_pellets <= POWER_PELLETS && self.after_earlier as u64 <= 255
            * self.power_pellets as u64 && (self.power_pellets != 0 || self.after_latest == 0)
    }

    /// Whether a ghost can be counted.
    #[verifier::when_used_as_spec(spec_can_count_ghost)]
    pub fn can_count_ghost(&self) -> (r: bool)
        ensures
            r == self.spec_can_count_ghost(),
    {
        1 <= self.power_pellets && self.after_latest < u8::MAX
    }

    /// No power pellet eaten yet.
    pub fn new() -> (r: GhostsEatenCounter)
        ensures
            r == (GhostsEatenCounter { power_pellets: 0, after_latest: 0, after_earlier: 0 }),
            r.wf(),
    {
        GhostsEatenCounter { power_pellets: 0, after_latest: 0, after_earlier: 0 }
    }

    /// A ghost was eaten after the latest power pellet.
    pub fn ghost_eaten(&mut self)
        requires
            old(self).wf(),
            old(self).can_count_ghost(),
        ensures
            *final(self) == old(self).spec_ghost_eaten(),
            final(self).wf(),
            final(self).spec_total() == old(self).spec_total() + 1,
    {
        self.after_latest = self.after_latest + 1;
    }

    /// Another power pellet was eaten: ghosts are counted anew.
    pub fn power_pellet_eaten(&mut self)
        requires
            old(self).wf(),
            old(self).power_pellets < POWER_PELLETS,
        ensures
            *final(self) == old(self).spec_power_pellet_eaten(),
            final(self).wf(),
            final(self).spec_total() == old(self).spec_total(),
    {
        self.after_earlier = self.after_earlier + self.after_latest as u32;
        self.after_latest = 0;
        self.power_pellets = self.power_pellets + 1;
    }

    /// Ghosts eaten on the level.
    pub fn total(&self) -> (r: u32)
        requires
            self.wf(),
        ensures
            r == self.spec_total(),
    {
        self.after_earlier + self.after_latest as u32
    }
}

impl Points {
    /// The score raised by `gain`, the best score following it.
    pub open spec fn gained(&self, gain: int) -> Points {
        Points {
            score: (self.score + gain) as u32,
            high_score: if self.score + gain > self.high_score {
                (self.score + gain) as u32
            } else {
                self.high_score
            },
        }
    }

    /// A game starts at nothing, with the best score known so far.
    pub fn new(high_score: u32) -> (r: Points)
        ensures
            r == (Points { score: 0, high_score }),
    {
        Points { score: 0, high_score }
    }

    /// Adds `gain` to the score; the best score follows the score.
    pub fn award(&mut self, gain: u32)
        requires
            old(self).score + gain <= u32::MAX,
        ensures
            *final(self) == old(self).gained(gain as int),
            final(self).high_score >= final(self).score || old(self).high_score < old(self).score,
    {
        self.score = self.score + gain;
        if self.score > self.high_score {
            self.high_score = self.score;
        }
    }

    /// The points for a pellet eaten.
    pub fn pellet_eaten(&mut self, pellet: &PelletEaten, counter: &mut GhostsEatenCounter)
        requires
            old(self).score + pellet_gain(*pellet) <= u32::MAX,
            old(counter).wf(),
            pellet.power ==> old(counter).power_pellets < POWER_PELLETS,
        ensures
            (*final(self), *final(counter)) == after_pellet((*old(self), *old(counter)), *pellet),
            final(counter).wf(),
    {
        if pellet.power {
            self.award(POWER_PELLET_POINTS);
            counter.power_pellet_eaten();
        } else {
            self.award(PELLET_POINTS);
        }
    }

    /// The points for a ghost eaten (see [`ghost_gain`]).
    pub fn ghost_eaten(&mut self, event: &GhostEaten, counter: &mut GhostsEatenCounter)
        requires
            event.eaten_ghosts <= 3,
            old(self).score + ghost_gain(*event, *old(counter)) <= u32::MAX,
            old(counter).wf(),
            old(counter).can_count_ghost(),
        ensures
            (*final(self), *final(counter)) == after_ghost((*old(self), *old(counter)), *event),
            final(counter).wf(),
    {
        counter.ghost_eaten();
        let bonus: u32 = if counter.total() == 16 {
            ALL_GHOSTS_BONUS
        } else {
            0
        };
        self.award(ghost_points(event.eaten_ghosts) + bonus);
    }

    /// The points for a fruit, if the player is where the fruit is. The
    /// result says whether the fruit was eaten.
    pub fn bonus_symbol_collision(
        &mut self,
        player_location: Location,
        symbol_location: Location,
        symbol: BonusSymbol,
    ) -> (eaten: bool)
        requires
            player_location == symbol_location ==> old(self).score + symbol.spec_points()
                <= u32::MAX,
        ensures
            eaten == (player_location == symbol_location),
            *final(self) == if eaten {
                old(self).gained(symbol.spec_points() as int)
            } else {
                *old(self)
            },
    {
        if player_location == symbol_location {
            self.award(symbol.points());
            true
        } else {
            false
        }
    }
}

/// Whether a fruit appears when the `pellets_eaten`-th pellet of the level
/// is eaten: it does at the seventieth and at the hundred and seventieth.
pub fn bonus_symbol_due(pellets_eaten: usize) -> (r: bool)
    ensures
        r == (pellets_eaten == 70 || pellets_eaten == 170),
{
    pellets_eaten == 70 || pellets_eaten == 170
}

/// The points for a pellet: ten, or fifty for a power pellet.
pub open spec fn pellet_gain(pellet: PelletEaten) -> int {
    if pellet.power {
        POWER_PELLET_POINTS as int
    } else {
        PELLET_POINTS as int
    }
}

/// The points for a ghost: those of [`spec_ghost_points`], and the bonus on
/// top when it is the sixteenth ghost of the level.
pub open spec fn ghost_gain(event: GhostEaten, counter: GhostsEatenCounter) -> int {
    spec_ghost_points(event.eaten_ghosts) + if counter.spec_total() == 15 {
        ALL_GHOSTS_BONUS as int
    } else {
        0int
    }
}

/// The score and the ghost counter after one pellet: its points are added,
/// and after a power pellet ghosts are counted anew.
pub open spec fn after_pellet(
    state: (Points, GhostsEatenCounter),
    pellet: PelletEaten,
) -> (Points, GhostsEatenCounter) {
    (
        state.0.gained(pellet_gain(pellet)),
        if pellet.power {
            state.1.spec_power_pellet_eaten()
        } else {
            state.1
        },
    )
}

/// The score and the ghost counter after one ghost: the points of the
/// ghost, and the bonus on top when it is the sixteenth of the level.
pub open spec fn after_ghost(
    state: (Points, GhostsEatenCounter),
    event: GhostEaten,
) -> (Points, GhostsEatenCounter) {
    (state.0.gained(ghost_gain(event, state.1)), state.1.spec_ghost_eaten())
}

/// The score and the ghost counter after the pellets `pellets`, one after
/// the other.
pub open spec fn after_pellets(
    state: (Points, GhostsEatenCounter),
    pellets: Seq<PelletEaten>,
) -> (Points, GhostsEatenCounter)
    decreases pellets.len(),
{
    if pellets.len() == 0 {
        state
    } else {
        after_pellet(after_pellets(state, pellets.drop_last()), pellets.last())
    }
}

/// The score and the ghost counter after the ghosts `ghosts`, one after the
/// other.
pub open spec fn after_ghosts(
    state: (Points, GhostsEatenCounter),
    ghosts: Seq<GhostEaten>,
) -> (Points, GhostsEatenCounter)
    decreases ghosts.len(),
{
    if ghosts.len() == 0 {
        state
    } else {
        after_ghost(after_ghosts(state, ghosts.drop_last()), ghosts.last())
    }
}

/// The pellets `pellets` can be scored from `state` on: the score stays in
/// range and no more than four power pellets are eaten on the level.
pub open spec fn pellets_scorable(
    state: (Points, GhostsEatenCounter),
    pellets: Seq<PelletEaten>,
) -> bool
    decreases pellets.len(),
{
    if pellets.len() == 0 {
        state.1.wf()
    } else {
        let before = after_pellets(state, pellets.drop_last());
        &&& pellets_scorable(state, pellets.drop_last())
        &&& before.0.score + pellet_gain(pellets.last()) <= u32::MAX
        &&& pellets.last().power ==> before.1.power_pellets < POWER_PELLETS
    }
}

/// The ghosts `ghosts` can be scored from `state` on: the score and the
/// counter stay in range, a power pellet was eaten before, and each ghost
/// was eaten after at most three others.
pub open spec fn ghosts_scorable(
    state: (Points, GhostsEatenCounter),
    ghosts: Seq<GhostEaten>,
) -> bool
    decreases ghosts.len(),
{
    if ghosts.len() == 0 {
        state.1.wf()
    } else {
        let before = after_ghosts(state, ghosts.drop_last());
        &&& ghosts_scorable(state, ghosts.drop_last())
        &&& ghosts.last().eaten_ghosts <= 3
        &&& before.0.score + ghost_gain(ghosts.last(), before.1) <= u32::MAX
        &&& before.1.can_count_ghost()
    }
}

/// Scores the pellets and then the ghosts eaten on one tick: ten points for
/// a pellet, fifty for a power pellet, the points of [`spec_ghost_points`]
/// for a ghost, and the bonus for the sixteenth ghost of the level. The best
/// score follows the score.
pub fn update_points(
    points: &mut Points,
    pellets: &Vec<PelletEaten>,
    ghosts: &Vec<GhostEaten>,
    ghosts_eaten_counter: &mut GhostsEatenCounter,
)
    requires
        pellets_scorable((*old(points), *old(ghosts_eaten_counter)), pellets@),
        ghosts_scorable(
            after_pellets((*old(points), *old(ghosts_eaten_counter)), pellets@),
            ghosts@,
        ),
    ensures
        (*final(points), *final(ghosts_eaten_counter)) == after_ghosts(
            after_pellets((*old(points), *old(ghosts_eaten_counter)), pellets@),
            ghosts@,
        ),
        final(ghosts_eaten_counter).wf(),
{
    let ghost start = (*points, *ghosts_eaten_counter);
    let mut i: usize = 0;
    proof {
        assert(pellets@.take(0) =~= Seq::<PelletEaten>::empty());
        lemma_pellets_prefix(start, pellets@, 0);
    }
    while i < pellets.len()
        invariant
            i <= pellets.len(),
            pellets_scorable(start, pellets@),
            (*points, *ghosts_eaten_counter) == after_pellets(start, pellets@.take(i as int)),
            ghosts_eaten_counter.wf(),
        decreases pellets.len() - i,
    {
        proof {
            lemma_pellets_prefix(start, pellets@, i + 1);
            assert(pellets@.take(i + 1).drop_last() =~= pellets@.take(i as int));
            assert(pellets@.take(i + 1).last() == pellets@[i as int]);
        }
        points.pellet_eaten(&pellets[i], ghosts_eaten_counter);
        i = i + 1;
    }
    proof {
        assert(pellets@.take(pellets@.len() as int) =~= pellets@);
    }
    let ghost middle = (*points, *ghosts_eaten_counter);
    let mut j: usize = 0;
    proof {
        assert(ghosts@.take(0) =~= Seq::<GhostEaten>::empty());
    }
    while j < ghosts.len()
        invariant
            j <= ghosts.len(),
            ghosts_scorable(middle, ghosts@),
            (*points, *ghosts_eaten_counter) == after_ghosts(middle, ghosts@.take(j as int)),
            ghosts_eaten_counter.wf(),
        decreases ghosts.len() - j,
    {
        proof {
            lemma_ghosts_prefix(middle, ghosts@, j + 1);
            assert(ghosts@.take(j + 1).drop_last() =~= ghosts@.take(j as int));
            assert(ghosts@.take(j + 1).last() == ghosts@[j as int]);
        }
        points.ghost_eaten(&ghosts[j], ghosts_eaten_counter);
        j = j + 1;
    }
    proof {
        assert(ghosts@.take(ghosts@.len() as int) =~= ghosts@);
    }
}

/// Whether the pellets and then the ghosts can be scored by
/// [`update_points`].
pub fn can_update_points(
    points: &Points,
    pellets: &Vec<PelletEaten>,
    ghosts: &Vec<GhostEaten>,
    ghosts_eaten_counter: &GhostsEatenCounter,
) -> (r: bool)
    ensures
        r == (pellets_scorable((*points, *ghosts_eaten_counter), pellets@) && ghosts_scorable(
            after_pellets((*points, *ghosts_eaten_counter), pellets@),
            ghosts@,
        )),
{
    let ghost start = (*points, *ghosts_eaten_counter);
    let mut p = *points;
    let mut c = *ghosts_eaten_counter;
    proof {
        assert(pellets@.take(0) =~= Seq::<PelletEaten>::empty());
        if pellets_scorable(start, pellets@) {
            lemma_pellets_prefix(start, pellets@, 0);
        }
    }
    if !c.wf() {
        return false;
    }
    let mut i: usize = 0;
    while i < pellets.len()
        invariant
            i <= pellets.len(),
            start == (*points, *ghosts_eaten_counter),
            pellets_scorable(start, pellets@.take(i as int)),
            (p, c) == after_pellets(start, pellets@.take(i as int)),
            c.wf(),
        decreases pellets.len() - i,
    {
        proof {
            if pellets_scorable(start, pellets@) {
                lemma_pellets_prefix(start, pellets@, i + 1);
            }
            assert(pellets@.take(i + 1).drop_last() =~= pellets@.take(i as int));
            assert(pellets@.take(i + 1).last() == pellets@[i as int]);
        }
        let gain: u32 = if pellets[i].power {
            POWER_PELLET_POINTS
        } else {
            PELLET_POINTS
        };
        if p.score > u32::MAX - gain || (pellets[i].power && c.power_pellets >= POWER_PELLETS) {
            return false;
        }
        p.pellet_eaten(&pellets[i], &mut c);
        i = i + 1;
    }
    proof {
        assert(pellets@.take(pellets@.len() as int) =~= pellets@);
    }
    let ghost middle = (p, c);
    let mut j: usize = 0;
    proof {
        assert(ghosts@.take(0) =~= Seq::<GhostEaten>::empty());
    }
    while j < ghosts.len()
        invariant
            j <= ghosts.len(),
            start == (*points, *ghosts_eaten_counter),
            pellets_scorable(start, pellets@),
            middle == after_pellets(start, pellets@),
            ghosts_scorable(middle, ghosts@.take(j as int)),
            (p, c) == after_ghosts(middle, ghosts@.take(j as int)),
            c.wf(),
        decreases ghosts.len() - j,
    {
        proof {
            if ghosts_scorable(middle, ghosts@) {
                lemma_ghosts_prefix(middle, ghosts@, j + 1);
            }
            assert(ghosts@.take(j + 1).drop_last() =~= ghosts@.take(j as int));
            assert(ghosts@.take(j + 1).last() == ghosts@[j as int]);
        }
        if ghosts[j].eaten_ghosts > 3 || !c.can_count_ghost() {
            return false;
        }
        let gain: u32 = ghost_points(ghosts[j].eaten_ghosts) + if c.total() == 15 {
            ALL_GHOSTS_BONUS
        } else {
            0
        };
        if p.score > u32::MAX - gain {
            return false;
        }
        p.ghost_eaten(&ghosts[j], &mut c);
        j = j + 1;
    }
    proof {
        assert(ghosts@.take(ghosts@.len() as int) =~= ghosts@);
    }
    true
}

/// Pellets that can be scored can be scored one by one from the first.
proof fn lemma_pellets_prefix(
    state: (Points, GhostsEatenCounter),
    pellets: Seq<PelletEaten>,
    n: int,
)
    requires
        pellets_scorable(state, pellets),
        0 <= n <= pellets.len(),
    ensures
        pellets_scorable(state, pellets.take(n)),
    decreases pellets.len(),
{
    if n < pellets.len() {
        lemma_pellets_prefix(state, pellets.drop_last(), n);
        assert(pellets.drop_last().take(n) =~= pellets.take(n));
    } else {
        assert(pellets.take(n) =~= pellets);
    }
}

/// Ghosts that can be scored can be scored one by one from the first.
proof fn lemma_ghosts_prefix(state: (Points, GhostsEatenCounter), ghosts: Seq<GhostEaten>, n: int)
    requires
        ghosts_scorable(state, ghosts),
        0 <= n <= ghosts.len(),
    ensures
        ghosts_scorable(state, ghosts.take(n)),
    decreases ghosts.len(),
{
    if n < ghosts.len() {
        lemma_ghosts_prefix(state, ghosts.drop_last(), n);
        assert(ghosts.drop_last().take(n) =~= ghosts.take(n));
    } else {
        assert(ghosts.take(n) =~= ghosts);
    }
}

} // verus!
