//! What the simulation reports to the layers around it, and what it hears
//! back on the next tick.

use vstd::prelude::*;
use crate::ghost::GhostId;
use crate::location::Location;

verus! {

/// The player is about to be on the tile centred at `location`.
#[derive(Clone, Copy, Debug, PartialEq, Eq, Structural)]
pub struct PlayerAt {
    pub location: Location,
}

/// A pellet was eaten; `power` says whether it was a power pellet.
#[derive(Clone, Copy, Debug, PartialEq, Eq, Structural)]
pub struct PelletEaten {
    pub power: bool,
}

/// The player ate the ghost `who`. `eaten_ghosts` counts the ghosts eaten
/// before it since the last power pellet.
#[derive(Clone, Copy, Debug, PartialEq, Eq, Structural)]
pub struct GhostEaten {
    pub who: GhostId,
    pub eaten_ghosts: usize,
}

/// Some event of `events` is about a power pellet.
pub open spec fn spec_any_power(events: Seq<PelletEaten>) -> bool {
    exists|k: int| 0 <= k < events.len() && (#[trigger] events[k]).power
}

/// Some event of `events` is about the ghost `who`.
pub open spec fn spec_was_eaten(events: Seq<GhostEaten>, who: GhostId) -> bool {
    exists|k: int| 0 <= k < events.len() && (#[trigger] events[k]).who == who
}

/// Whether a power pellet is among the pellets eaten.
pub fn any_power(events: &Vec<PelletEaten>) -> (r: bool)
    ensures
        r == spec_any_power(events@),
{
    let mut i: usize = 0;
    while i < events.len()
        invariant
            i <= events.len(),
            forall|k: int| 0 <= k < i ==> !(#[trigger] events@[k]).power,
        decreases events.len() - i,
    {
        if events[i].power {
            return true;
        }
        i = i + 1;
    }
    false
}

/// Whether the ghost `who` is among the ghosts eaten.
pub fn was_eaten(events: &Vec<GhostEaten>, who: GhostId) -> (r: bool)
    ensures
        r == spec_was_eaten(events@, who),
{
    let mut i: usize = 0;
    while i < events.len()
        invariant
            i <= events.len(),
            forall|k: int| 0 <= k < i ==> (#[trigger] events@[k]).who != who,
        decreases events.len() - i,
    {
        if events[i].who == who {
            return true;
        }
        i = i + 1;
    }
    false
}

} // verus!
