//! Level progression and the tuning values that depend on the level.
//!
//! Speeds are in hundredths of the reference speed (the fastest a character
//! ever moves is 105).

use vstd::prelude::*;
use crate::ghost::GhostId;

verus! {

/// The fruit shown for a level.
#[derive(Clone, Copy, Debug, PartialEq, Eq, Structural)]
pub enum BonusSymbol {
    Cherries,
    Strawberry,
    Peach,
    Apple,
    Grapes,
    Galaxian,
    Bell,
    Key,
}

/// Where the game stands: how many levels were started, which row of the
/// tuning tables applies, and whether hard mode skips rows.
#[derive(Clone, Copy, Debug, PartialEq, Eq, Structural)]
pub struct Levels {
    pub advancements: usize,
    pub current: usize,
    pub hard_mode: bool,
}

/// Number of stages in a level's scatter/chase schedule.
pub const GLOBAL_MODE_STAGES: usize = 7;

impl Levels {
    /// The tuning row that follows `current`.
    pub open spec fn next_level(current: int, hard_mode: bool) -> int {
        if !hard_mode {
            current + 1
        } else if current == 0 {
            2
        } else if current == 2 {
            4
        } else if current == 5 {
            7
        } else if current == 18 {
            21
        } else {
            current + 1
        }
    }

    pub open spec fn spec_player_speed(&self) -> u32 {
        if self.current == 1 {
            80
        } else if 5 <= self.current <= 20 {
            100
        } else {
            90
        }
    }

    pub open spec fn spec_player_frite_speed(&self) -> u32 {
        if self.current == 1 {
            90
        } else if 2 <= self.current <= 4 {
            95
        } else {
            100
        }
    }

    pub open spec fn spec_ghost_normal_speed(&self) -> u32 {
        if self.current == 1 {
            75
        } else if 2 <= self.current <= 4 {
            85
        } else {
            95
        }
    }

    pub open spec fn spec_ghost_tunnel_speed(&self) -> u32 {
        if self.current == 1 {
            40
        } else if 2 <= self.current <= 4 {
            45
        } else {
            50
        }
    }

    pub open spec fn spec_elroy_1_dots(&self) -> usize {
        let c = self.current;
        if c == 1 {
            20
        } else if c == 2 {
            30
        } else if 3 <= c <= 5 {
            40
        } else if 6 <= c <= 8 {
            50
        } else if 9 <= c <= 11 {
            60
        } else if 12 <= c <= 14 {
            80
        } else if 15 <= c <= 18 {
            100
        } else {
            120
        }
    }

    pub open spec fn spec_elroy_2_dots(&self) -> usize {
        let c = self.current;
        if c == 1 {
            10
        } else if c == 2 {
            15
        } else if 3 <= c <= 5 {
            20
        } else if 6 <= c <= 8 {
            25
        } else if 9 <= c <= 11 {
            30
        } else if 12 <= c <= 14 {
            40
        } else if 15 <= c <= 18 {
            50
        } else {
            60
        }
    }

    pub open spec fn spec_elroy_1_speed(&self) -> u32 {
        if self.current == 1 {
            80
        } else if 2 <= self.current <= 4 {
            90
        } else {
            100
        }
    }

    pub open spec fn spec_elroy_2_speed(&self) -> u32 {
        if self.current == 1 {
            85
        } else if 2 <= self.current <= 4 {
            95
        } else {
            105
        }
    }

    pub open spec fn spec_ghost_frite_speed(&self) -> u32 {
        if self.current == 1 {
            50
        } else if 2 <= self.current <= 4 {
            55
        } else {
            60
        }
    }

    pub open spec fn spec_frite_duration(&self) -> u64 {
        let c = self.current;
        if c == 1 {
            6
        } else if c == 2 || c == 6 || c == 10 {
            5
        } else if c == 3 {
            4
        } else if c == 4 || c == 14 {
            3
        } else if c == 5 || c == 7 || c == 8 || c == 11 {
            2
        } else if c == 9 || c == 12 || c == 13 || c == 15 || c == 16 || c == 18 {
            1
        } else {
            0
        }
    }

    pub open spec fn spec_number_of_frite_flashes(&self) -> u32 {
        if 1 <= self.current <= 8 {
            5
        } else if self.current == 9 {
            3
        } else {
            0
        }
    }

    /// The scatter/chase schedule of the level, in sixtieths of a second.
    pub open spec fn global_mode_schedule(&self) -> Seq<u64> {
        if self.current == 1 {
            seq![420u64, 1200u64, 420u64, 1200u64, 300u64, 1200u64, 300u64]
        } else if 2 <= self.current <= 4 {
            seq![420u64, 1200u64, 420u64, 1200u64, 300u64, 61980u64, 1u64]
        } else {
            seq![300u64, 1200u64, 300u64, 1200u64, 300u64, 62220u64, 1u64]
        }
    }

    pub open spec fn spec_ghost_switch_global_mode(&self, index: usize) -> Option<u64> {
        if index < self.global_mode_schedule().len() {
            Some(self.global_mode_schedule()[index as int])
        } else {
            None
        }
    }

    /// The ghosts whose release from the pen is counted in pellets: never
    /// Blinky, and Pinky only after a life was lost.
    pub open spec fn counts_home_exit_dots(who: GhostId, life_lost: bool) -> bool {
        who != GhostId::Blinky && (who == GhostId::Pinky ==> life_lost)
    }

    pub open spec fn spec_home_exit_dots(&self, who: GhostId, life_lost: bool) -> usize {
        match who {
            GhostId::Pinky => 7,
            GhostId::Inky => if life_lost {
                10
            } else if self.current == 1 {
                30
            } else {
                0
            },
            GhostId::Clyde => if life_lost {
                15
            } else if self.current == 1 {
                60
            } else if self.current == 2 {
                50
            } else {
                0
            },
            GhostId::Blinky => 0,
        }
    }

    pub open spec fn spec_ghost_exit_home_duration(&self) -> u64 {
        if 1 <= self.current <= 4 {
            4
        } else {
            3
        }
    }

    /// The fruit of the `index`-th level started.
    pub open spec fn symbol_at(index: int) -> BonusSymbol {
        if index == 1 {
            BonusSymbol::Cherries
        } else if index == 2 {
            BonusSymbol::Strawberry
        } else if 3 <= index <= 4 {
            BonusSymbol::Peach
        } else if 5 <= index <= 6 {
            BonusSymbol::Apple
        } else if 7 <= index <= 8 {
            BonusSymbol::Grapes
        } else if 9 <= index <= 10 {
            BonusSymbol::Galaxian
        } else if 11 <= index <= 12 {
            BonusSymbol::Bell
        } else {
            BonusSymbol::Key
        }
    }

    /// Number of fruits in the level counter: one per level started, seven
    /// at most.
    pub open spec fn level_counter_len(&self) -> int {
        if self.advancements < 7 {
            self.advancements as int
        } else {
            7
        }
    }

    /// Back to the state before the first level.
    pub fn reset(&mut self)
        ensures
            final(self).advancements == 0,
            final(self).current == 0,
            final(self).hard_mode == old(self).hard_mode,
    {
        self.advancements = 0;
        self.current = 0;
    }

    /// Starts the next level: one more advancement, and the next tuning row
    /// (hard mode skips some rows).
    pub fn next(&mut self)
        requires
            old(self).advancements < usize::MAX,
            old(self).current < usize::MAX,
        ensures
            final(self).advancements == old(self).advancements + 1,
            final(self).current == Self::next_level(old(self).current as int, old(self).hard_mode),
            final(self).hard_mode == old(self).hard_mode,
    {
        self.advancements = self.advancements + 1;
        if !self.hard_mode {
            self.current = self.current + 1;
        } else {
            self.current = if self.current == 0 {
                2
            } else if self.current == 2 {
                4
            } else if self.current == 5 {
                7
            } else if self.current == 18 {
                21
            } else {
                self.current + 1
            };
        }
    }

    /// Speed of the player.
    #[verifier::when_used_as_spec(spec_player_speed)]
    pub fn player_speed(&self) -> (r: u32)
        ensures
            r == self.spec_player_speed(),
            r <= 105,
    {
        if self.current == 1 {
            80
        } else if 5 <= self.current && self.current <= 20 {
            100
        } else {
            90
        }
    }

    /// Speed of the player while the ghosts are frightened.
    #[verifier::when_used_as_spec(spec_player_frite_speed)]
    pub fn player_frite_speed(&self) -> (r: u32)
        ensures
            r == self.spec_player_frite_speed(),
            r <= 105,
    {
        if self.current == 1 {
            90
        } else if 2 <= self.current && self.current <= 4 {
            95
        } else {
            100
        }
    }

    /// Speed of a ghost in the maze.
    #[verifier::when_used_as_spec(spec_ghost_normal_speed)]
    pub fn ghost_normal_speed(&self) -> (r: u32)
        ensures
            r == self.spec_ghost_normal_speed(),
            r <= 105,
    {
        if self.current == 1 {
            75
        } else if 2 <= self.current && self.current <= 4 {
            85
        } else {
            95
        }
    }

    /// Speed of a ghost in the tunnel.
    #[verifier::when_used_as_spec(spec_ghost_tunnel_speed)]
    pub fn ghost_tunnel_speed(&self) -> (r: u32)
        ensures
            r == self.spec_ghost_tunnel_speed(),
            r <= 105,
    {
        if self.current == 1 {
            40
        } else if 2 <= self.current && self.current <= 4 {
            45
        } else {
            50
        }
    }

    /// Pellets left at which Blinky first speeds up.
    #[verifier::when_used_as_spec(spec_elroy_1_dots)]
    pub fn elroy_1_dots(&self) -> (r: usize)
        ensures
            r == self.spec_elroy_1_dots(),
    {
        let c: usize = self.current;
        if c == 1 {
            20
        } else if c == 2 {
            30
        } else if 3 <= c && c <= 5 {
            40
        } else if 6 <= c && c <= 8 {
            50
        } else if 9 <= c && c <= 11 {
            60
        } else if 12 <= c && c <= 14 {
            80
        } else if 15 <= c && c <= 18 {
            100
        } else {
            120
        }
    }

    /// Pellets left at which Blinky speeds up a second time.
    #[verifier::when_used_as_spec(spec_elroy_2_dots)]
    pub fn elroy_2_dots(&self) -> (r: usize)
        ensures
            r == self.spec_elroy_2_dots(),
    {
        let c: usize = self.current;
        if c == 1 {
            10
        } else if c == 2 {
            15
        } else if 3 <= c && c <= 5 {
            20
        } else if 6 <= c && c <= 8 {
            25
        } else if 9 <= c && c <= 11 {
            30
        } else if 12 <= c && c <= 14 {
            40
        } else if 15 <= c && c <= 18 {
            50
        } else {
            60
        }
    }

    /// Blinky's speed after the first speed-up.
    #[verifier::when_used_as_spec(spec_elroy_1_speed)]
    pub fn elroy_1_speed(&self) -> (r: u32)
        ensures
            r == self.spec_elroy_1_speed(),
            r <= 105,
    {
        if self.current == 1 {
            80
        } else if 2 <= self.current && self.current <= 4 {
            90
        } else {
            100
        }
    }

    /// Blinky's speed after the second speed-up.
    #[verifier::when_used_as_spec(spec_elroy_2_speed)]
    pub fn elroy_2_speed(&self) -> (r: u32)
        ensures
            r == self.spec_elroy_2_speed(),
            r <= 105,
    {
        if self.current == 1 {
            85
        } else if 2 <= self.current && self.current <= 4 {
            95
        } else {
            105
        }
    }

    /// Speed of a frightened ghost.
    #[verifier::when_used_as_spec(spec_ghost_frite_speed)]
    pub fn ghost_frite_speed(&self) -> (r: u32)
        ensures
            r == self.spec_ghost_frite_speed(),
            r <= 105,
    {
        if self.current == 1 {
            50
        } else if 2 <= self.current && self.current <= 4 {
            55
        } else {
            60
        }
    }

    /// How long the ghosts stay frightened, in seconds.
    #[verifier::when_used_as_spec(spec_frite_duration)]
    pub fn frite_duration(&self) -> (r: u64)
        ensures
            r == self.spec_frite_duration(),
    {
        let c: usize = self.current;
        if c == 1 {
            6
        } else if c == 2 || c == 6 || c == 10 {
            5
        } else if c == 3 {
            4
        } else if c == 4 || c == 14 {
            3
        } else if c == 5 || c == 7 || c == 8 || c == 11 {
            2
        } else if c == 9 || c == 12 || c == 13 || c == 15 || c == 16 || c == 18 {
            1
        } else {
            0
        }
    }

    /// How often a frightened ghost flashes before it recovers.
    #[verifier::when_used_as_spec(spec_number_of_frite_flashes)]
    pub fn number_of_frite_flashes(&self) -> (r: u32)
        ensures
            r == self.spec_number_of_frite_flashes(),
    {
        if 1 <= self.current && self.current <= 8 {
            5
        } else if self.current == 9 {
            3
        } else {
            0
        }
    }

    /// Length of stage `index` of the scatter/chase schedule, in sixtieths
    /// of a second; `None` once the schedule is used up.
    #[verifier::when_used_as_spec(spec_ghost_switch_global_mode)]
    pub fn ghost_switch_global_mode(&self, index: usize) -> (r: Option<u64>)
        requires
            self.current >= 1,
        ensures
            r == self.spec_ghost_switch_global_mode(index),
            r is Some <==> index < GLOBAL_MODE_STAGES,
    {
        let schedule: [u64; 7] = if self.current == 1 {
            [420, 1200, 420, 1200, 300, 1200, 300]
        } else if 2 <= self.current && self.current <= 4 {
            [420, 1200, 420, 1200, 300, 61980, 1]
        } else {
            [300, 1200, 300, 1200, 300, 62220, 1]
        };
        if index < 7 {
            Some(schedule[index])
        } else {
            None
        }
    }

    /// Pellets that must be eaten before `who` may leave the pen.
    #[verifier::when_used_as_spec(spec_home_exit_dots)]
    pub fn home_exit_dots(&self, who: GhostId, life_lost: bool) -> (r: usize)
        requires
            Self::counts_home_exit_dots(who, life_lost),
        ensures
            r == self.spec_home_exit_dots(who, life_lost),
    {
        match who {
            GhostId::Pinky => 7,
            GhostId::Inky => {
                if life_lost {
                    10
                } else if self.current == 1 {
                    30
                } else {
                    0
                }
            },
            GhostId::Clyde => {
                if life_lost {
                    15
                } else if self.current == 1 {
                    60
                } else if self.current == 2 {
                    50
                } else {
                    0
                }
            },
            GhostId::Blinky => 0,
        }
    }

    /// Seconds without a pellet eaten after which the next ghost is let out.
    #[verifier::when_used_as_spec(spec_ghost_exit_home_duration)]
    pub fn ghost_exit_home_duration(&self) -> (r: u64)
        ensures
            r == self.spec_ghost_exit_home_duration(),
    {
        if 1 <= self.current && self.current <= 4 {
            4
        } else {
            3
        }
    }

    /// The fruit of the level being played.
    pub fn bonus_symbol(&self) -> (r: BonusSymbol)
        ensures
            r == Self::symbol_at(self.advancements as int),
    {
        Self::bonus_symbol_internal(self.advancements)
    }

    /// The fruits of the level counter: those of the last seven levels
    /// started, the latest first.
    pub fn level_counter_bonus_symbols(&self) -> (r: Vec<BonusSymbol>)
        ensures
            r@.len() == self.level_counter_len(),
            forall|k: int| 0 <= k < r@.len() ==> r@[k] == Self::symbol_at(self.advancements - k),
    {
        let mut symbols: Vec<BonusSymbol> = Vec::new();
        let mut i: usize = self.advancements;
        while i >= 1 && symbols.len() < 7
            invariant
                i <= self.advancements,
                symbols@.len() == self.advancements - i,
                symbols@.len() <= 7,
                forall|k: int|
                    0 <= k < symbols@.len() ==> symbols@[k] == Self::symbol_at(
                        self.advancements - k,
                    ),
            decreases i,
        {
            symbols.push(Self::bonus_symbol_internal(i));
            i = i - 1;
        }
        symbols
    }

    fn bonus_symbol_internal(index: usize) -> (r: BonusSymbol)
        ensures
            r == Self::symbol_at(index as int),
    {
        if index == 1 {
            BonusSymbol::Cherries
        } else if index == 2 {
            BonusSymbol::Strawberry
        } else if 3 <= index && index <= 4 {
            BonusSymbol::Peach
        } else if 5 <= index && index <= 6 {
            BonusSymbol::Apple
        } else if 7 <= index && index <= 8 {
            BonusSymbol::Grapes
        } else if 9 <= index && index <= 10 {
            BonusSymbol::Galaxian
        } else if 11 <= index && index <= 12 {
            BonusSymbol::Bell
        } else {
            BonusSymbol::Key
        }
    }
}

impl Default for Levels {
    /// Before the first level, hard mode off.
    fn default() -> (r: Levels)
        ensures
            r == (Levels { advancements: 0, current: 0, hard_mode: false }),
    {
        Levels { advancements: 0, current: 0, hard_mode: false }
    }
}

} // verus!
