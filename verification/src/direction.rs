//! The four directions of travel on the grid.

use vstd::prelude::*;

verus! {

/// A direction of travel. The declaration order (left, up, right, down) is
/// the order in which candidates are listed wherever directions are
/// enumerated, and so decides ties.
#[derive(Clone, Copy, Debug, PartialEq, Eq, Structural)]
pub enum Direction {
    Left,
    Up,
    Right,
    Down,
}

impl Direction {
    /// Horizontal component of one step, in tiles.
    pub open spec fn dx(self) -> int {
        match self {
            Direction::Left => -1,
            Direction::Right => 1,
            _ => 0,
        }
    }

    /// Vertical component of one step, in tiles. Up is the positive sense.
    pub open spec fn dy(self) -> int {
        match self {
            Direction::Up => 1,
            Direction::Down => -1,
            _ => 0,
        }
    }

    pub open spec fn spec_opposite(&self) -> Direction {
        match *self {
            Direction::Up => Direction::Down,
            Direction::Left => Direction::Right,
            Direction::Down => Direction::Up,
            Direction::Right => Direction::Left,
        }
    }

    /// Every direction, in declaration order.
    pub open spec fn spec_all() -> Seq<Direction> {
        seq![Direction::Left, Direction::Up, Direction::Right, Direction::Down]
    }

    /// The direction pointing the other way.
    #[verifier::when_used_as_spec(spec_opposite)]
    pub fn opposite(&self) -> (r: Direction)
        ensures
            r == self.spec_opposite(),
    {
        match self {
            Direction::Up => Direction::Down,
            Direction::Left => Direction::Right,
            Direction::Down => Direction::Up,
            Direction::Right => Direction::Left,
        }
    }

    /// Every direction, in declaration order.
    pub fn all() -> (r: Vec<Direction>)
        ensures
            r@ == Self::spec_all(),
    {
        let r = vec![Direction::Left, Direction::Up, Direction::Right, Direction::Down];
        assert(r@ =~= Self::spec_all());
        r
    }

    /// Sprite rotation in quarter turns: left 0, down 1, right 2, up 3.
    pub fn rotation(&self) -> (r: u8)
        ensures
            r == match *self {
                Direction::Left => 0u8,
                Direction::Down => 1u8,
                Direction::Right => 2u8,
                Direction::Up => 3u8,
            },
    {
        match self {
            Direction::Left => 0,
            Direction::Down => 1,
            Direction::Right => 2,
            Direction::Up => 3,
        }
    }
}

/// Reversing twice gives the direction back, and a direction never equals
/// its own reverse.
pub proof fn lemma_opposite_involution(d: Direction)
    ensures
        d.spec_opposite().spec_opposite() == d,
        d.spec_opposite() != d,
        d.spec_opposite().dx() == -d.dx(),
        d.spec_opposite().dy() == -d.dy(),
{
}

} // verus!
