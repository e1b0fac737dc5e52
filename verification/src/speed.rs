//! The cadence that turns a fractional speed into whole steps.
//!
//! A character moves one eighth of a tile on a tick or stands still. Which of
//! the two is decided from the counts of ticks and of ticks missed so far, so
//! that the share of ticks on which it moves follows its speed.

use vstd::prelude::*;

verus! {

/// The speed at which no tick is missed, in hundredths.
pub const FULL_SPEED: u32 = 105;

/// Cadence of one character. `speed` is in hundredths of the reference
/// speed, at most [`FULL_SPEED`]; the two counters are those of the ticks
/// seen and the ticks missed since the speed last changed.
#[derive(Clone, Copy, Debug, PartialEq, Eq, Structural)]
pub struct CharacterSpeed {
    pub speed: u32,
    pub advancement_counter: u64,
    pub missed_counter: u64,
    pub should_miss: bool,
}

impl CharacterSpeed {
    /// Ticks on which the character moved since the speed last changed.
    pub open spec fn hits(&self) -> int {
        self.advancement_counter - self.missed_counter
    }

    /// The speed is in range and the counters are those of a cadence run at
    /// that speed: the moves made so far are the whole part of the share of
    /// the ticks that the speed asks for.
    pub open spec fn spec_wf(&self) -> bool {
        &&& self.speed <= FULL_SPEED
        &&& self.missed_counter <= self.advancement_counter
        &&& FULL_SPEED * self.hits() <= self.speed * self.advancement_counter
        &&& self.speed * self.advancement_counter < FULL_SPEED * (self.hits() + 1)
    }

    /// Another tick can be counted.
    pub open spec fn spec_can_tick(&self) -> bool {
        self.advancement_counter < u64::MAX
    }

    /// Whether the tick that follows `ticks` ticks with `missed` misses is
    /// itself missed at speed `speed`: it is when, counted as a move, the
    /// moves would come to a larger share of the ticks than the speed.
    pub open spec fn misses_next(speed: int, ticks: int, missed: int) -> bool {
        (ticks + 1 - missed) * FULL_SPEED > speed * (ticks + 1)
    }

    /// The cadence after one more tick.
    pub open spec fn spec_tick(&self) -> CharacterSpeed {
        let miss = Self::misses_next(
            self.speed as int,
            self.advancement_counter as int,
            self.missed_counter as int,
        );
        CharacterSpeed {
            speed: self.speed,
            advancement_counter: (self.advancement_counter + 1) as u64,
            missed_counter: if miss {
                (self.missed_counter + 1) as u64
            } else {
                self.missed_counter
            },
            should_miss: miss,
        }
    }

    /// A fresh cadence at `speed`.
    pub open spec fn spec_new(speed: u32) -> CharacterSpeed {
        CharacterSpeed { speed, advancement_counter: 0, missed_counter: 0, should_miss: false }
    }

    /// The cadence after the speed is set to `speed`.
    pub open spec fn spec_set_speed(&self, speed: u32) -> CharacterSpeed {
        if speed != self.speed {
            Self::spec_new(speed)
        } else {
            *self
        }
    }

    /// Whether the speed is in range and the counters are those of a
    /// cadence run at that speed.
    #[verifier::when_used_as_spec(spec_wf)]
    pub fn wf(&self) -> (r: bool)
        ensures
            r == self.spec_wf(),
    {
        if self.speed > FULL_SPEED || self.missed_counter > self.advancement_counter {
            return false;
        }
        let hits: u128 = (self.advancement_counter - self.missed_counter) as u128;
        assert(self.speed * self.advancement_counter <= 105 * 0xffff_ffff_ffff_ffff)
            by (nonlinear_arith)
            requires
                0 <= self.speed <= 105,
                0 <= self.advancement_counter <= 0xffff_ffff_ffff_ffff,
        ;
        let asked: u128 = (self.speed as u128) * (self.advancement_counter as u128);
        105 * hits <= asked && asked < 105 * (hits + 1)
    }

    /// Whether another tick can be counted.
    #[verifier::when_used_as_spec(spec_can_tick)]
    pub fn can_tick(&self) -> (r: bool)
        ensures
            r == self.spec_can_tick(),
    {
        self.advancement_counter < u64::MAX
    }

    /// A fresh cadence at `speed` hundredths.
    pub fn new(speed: u32) -> (r: CharacterSpeed)
        requires
            speed <= FULL_SPEED,
        ensures
            r == Self::spec_new(speed),
            r.wf(),
    {
        CharacterSpeed { speed, advancement_counter: 0, missed_counter: 0, should_miss: false }
    }

    /// Sets the speed. Setting the speed it already has changes nothing; a
    /// different speed starts a fresh cadence.
    pub fn set_speed(&mut self, speed: u32)
        requires
            speed <= FULL_SPEED,
        ensures
            *final(self) == old(self).spec_set_speed(speed),
            old(self).wf() ==> final(self).wf(),
            final(self).speed == speed,
    {
        if speed != self.speed {
            self.speed = speed;
            self.advancement_counter = 0;
            self.missed_counter = 0;
            self.should_miss = false;
        }
    }

    /// Counts one tick and decides whether the character stands still on it.
    /// The tick is missed if, counted as a move, the moves would come to a
    /// larger share of the ticks than the speed asks for.
    pub fn tick(&mut self)
        requires
            old(self).missed_counter <= old(self).advancement_counter,
            old(self).can_tick(),
        ensures
            *final(self) == old(self).spec_tick(),
            old(self).wf() ==> final(self).wf(),
    {
        let ticks: u64 = self.advancement_counter + 1;
        let moves: u128 = (ticks - self.missed_counter) as u128;
        assert(self.speed * ticks <= 0xffff_ffff * 0xffff_ffff_ffff_ffff) by (nonlinear_arith)
            requires
                0 <= self.speed <= 0xffff_ffff,
                0 <= ticks <= 0xffff_ffff_ffff_ffff,
        ;
        let asked: u128 = (self.speed as u128) * (ticks as u128);
        proof {
            if old(self).wf() {
                lemma_tick_keeps_cadence(*old(self));
            }
        }
        self.advancement_counter = ticks;
        if moves * 105 > asked {
            self.missed_counter = self.missed_counter + 1;
            self.should_miss = true;
        } else {
            self.should_miss = false;
        }
    }

    /// Whether the character stands still on the current tick.
    pub fn should_miss(&self) -> (r: bool)
        ensures
            r == self.should_miss,
    {
        self.should_miss
    }
}

/// The cadence after `n` more ticks.
pub open spec fn after_ticks(s: CharacterSpeed, n: nat) -> CharacterSpeed
    decreases n,
{
    if n == 0 {
        s
    } else {
        after_ticks(s, (n - 1) as nat).spec_tick()
    }
}

/// One tick keeps a well-formed cadence well formed, and misses at most one
/// tick.
pub proof fn lemma_tick_keeps_cadence(s: CharacterSpeed)
    requires
        s.wf(),
        s.can_tick(),
    ensures
        s.spec_tick().wf(),
        s.spec_tick().speed == s.speed,
        s.spec_tick().advancement_counter == s.advancement_counter + 1,
        s.spec_tick().should_miss <==> s.spec_tick().hits() == s.hits(),
        !s.spec_tick().should_miss <==> s.spec_tick().hits() == s.hits() + 1,
{
    let sp = s.speed as int;
    let a = s.advancement_counter as int;
    let h = s.hits();
    assert(sp * (a + 1) == sp * a + sp) by (nonlinear_arith);
    assert(FULL_SPEED * (h + 1) == FULL_SPEED * h + FULL_SPEED) by (nonlinear_arith);
    assert(FULL_SPEED * (h + 2) == FULL_SPEED * h + 2 * FULL_SPEED) by (nonlinear_arith);
    assert((a + 1 - s.missed_counter) * FULL_SPEED == FULL_SPEED * (h + 1)) by (nonlinear_arith)
        requires
            h == a - s.missed_counter,
    ;
}

/// The moves of a cadence follow its speed: of the first `n` ticks at speed
/// `speed`, the character moves on exactly the whole part of
/// `speed * n / 105`. The share of ticks on which it moves is therefore
/// within one tick of `speed / 105`, and converges to it as `n` grows.
pub proof fn lemma_hit_ratio_converges(speed: u32, n: nat)
    requires
        speed <= FULL_SPEED,
        n <= u64::MAX,
    ensures
        after_ticks(CharacterSpeed::spec_new(speed), n).wf(),
        after_ticks(CharacterSpeed::spec_new(speed), n).speed == speed,
        after_ticks(CharacterSpeed::spec_new(speed), n).advancement_counter == n,
        after_ticks(CharacterSpeed::spec_new(speed), n).hits() == (speed * n) / (FULL_SPEED as int),
        FULL_SPEED * after_ticks(CharacterSpeed::spec_new(speed), n).hits() <= speed * n,
        speed * n < FULL_SPEED * after_ticks(CharacterSpeed::spec_new(speed), n).hits()
            + FULL_SPEED,
    decreases n,
{
    let start = CharacterSpeed::spec_new(speed);
    if n == 0 {
        assert(speed * 0 == 0) by (nonlinear_arith);
        assert(FULL_SPEED * 0 == 0) by (nonlinear_arith);
    } else {
        lemma_hit_ratio_converges(speed, (n - 1) as nat);
        lemma_tick_keeps_cadence(after_ticks(start, (n - 1) as nat));
    }
    let end = after_ticks(start, n);
    let h = end.hits();
    let p = speed * n;
    assert(FULL_SPEED * h <= p < FULL_SPEED * (h + 1));
    assert(h == p / (FULL_SPEED as int)) by (nonlinear_arith)
        requires
            FULL_SPEED * h <= p < FULL_SPEED * (h + 1),
            FULL_SPEED == 105,
    ;
}

} // verus!
