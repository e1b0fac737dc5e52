//! Drawing order of the sprites.

use vstd::prelude::*;

verus! {

/// The layers of the scene, from the back (the map) to the front (the
/// head-up display).
#[derive(Clone, Copy, Debug, PartialEq, Eq, Structural)]
pub enum Layers {
    GridMap,
    Pellets,
    BonusSymbols,
    OnMapText,
    Player,
    Ghosts,
    GhostsEyes,
    Mask,
    HUD,
}

impl Layers {
    /// Position of the layer in drawing order, counted from the back.
    pub open spec fn spec_depth(&self) -> usize {
        match *self {
            Layers::GridMap => 0,
            Layers::Pellets => 1,
            Layers::BonusSymbols => 2,
            Layers::OnMapText => 3,
            Layers::Player => 4,
            Layers::Ghosts => 5,
            Layers::GhostsEyes => 6,
            Layers::Mask => 7,
            Layers::HUD => 8,
        }
    }

    /// Position of the layer in drawing order, counted from the back; the
    /// renderer uses it as the sprite's depth.
    #[verifier::when_used_as_spec(spec_depth)]
    pub fn depth(&self) -> (r: usize)
        ensures
            r == self.spec_depth(),
    {
        match self {
            Layers::GridMap => 0,
            Layers::Pellets => 1,
            Layers::BonusSymbols => 2,
            Layers::OnMapText => 3,
            Layers::Player => 4,
            Layers::Ghosts => 5,
            Layers::GhostsEyes => 6,
            Layers::Mask => 7,
            Layers::HUD => 8,
        }
    }
}

} // verus!
