//! Which sound plays in the background.

use vstd::prelude::*;
use crate::ghost::{GhostMode, GhostState};

verus! {

/// The sound in the background of play.
#[derive(Clone, Copy, Debug, PartialEq, Eq, Structural)]
pub enum BackgroundSound {
    /// The siren, at one of five pitches from 0 up.
    Siren(usize),
    /// A ghost is frightened.
    Frite,
    /// A dead ghost is on its way home.
    GoingHome,
}

/// The pitch of the siren after `pellets_eaten` pellets of the level: it
/// rises as the level empties.
pub open spec fn spec_siren(pellets_eaten: usize) -> usize {
    if pellets_eaten <= 114 {
        0
    } else if pellets_eaten <= 179 {
        1
    } else if pellets_eaten <= 209 {
        2
    } else if pellets_eaten <= 224 {
        3
    } else {
        4
    }
}

/// A ghost among `ghosts` is dead and returning, or entering the pen.
pub open spec fn spec_any_returning(ghosts: Seq<GhostState>) -> bool {
    exists|i: int|
        0 <= i < ghosts.len() && ((#[trigger] ghosts[i]).mode == GhostMode::Dead || ghosts[i].mode
            == GhostMode::DeadEnterHome)
}

/// A ghost among `ghosts` is frightened in the maze, or pausing after it
/// was eaten.
pub open spec fn spec_any_fleeing(ghosts: Seq<GhostState>) -> bool {
    exists|i: int|
        0 <= i < ghosts.len() && ((#[trigger] ghosts[i]).mode == GhostMode::Frightened
            || ghosts[i].mode == GhostMode::DeadPause)
}

/// The sound in the background: that of a ghost going home if one is, else
/// that of fright if a ghost is frightened or was just eaten, else the
/// siren.
pub open spec fn spec_background_sound(
    ghosts: Seq<GhostState>,
    pellets_eaten: usize,
) -> BackgroundSound {
    if spec_any_returning(ghosts) {
        BackgroundSound::GoingHome
    } else if spec_any_fleeing(ghosts) {
        BackgroundSound::Frite
    } else {
        BackgroundSound::Siren(spec_siren(pellets_eaten))
    }
}

/// The pitch of the siren after `pellets_eaten` pellets of the level.
#[verifier::when_used_as_spec(spec_siren)]
pub fn siren(pellets_eaten: usize) -> (r: usize)
    ensures
        r == spec_siren(pellets_eaten),
        r <= 4,
{
    if pellets_eaten <= 114 {
        0
    } else if pellets_eaten <= 179 {
        1
    } else if pellets_eaten <= 209 {
        2
    } else if pellets_eaten <= 224 {
        3
    } else {
        4
    }
}

/// The sound in the background of play.
pub fn background_sound(ghosts: &Vec<GhostState>, pellets_eaten: usize) -> (r: BackgroundSound)
    ensures
        r == spec_background_sound(ghosts@, pellets_eaten),
{
    let mut fleeing = false;
    let mut i: usize = 0;
    while i < ghosts.len()
        invariant
            i <= ghosts.len(),
            forall|k: int|
                0 <= k < i ==> (#[trigger] ghosts@[k]).mode != GhostMode::Dead && ghosts@[k].mode
                    != GhostMode::DeadEnterHome,
            fleeing == (exists|k: int|
                0 <= k < i && ((#[trigger] ghosts@[k]).mode == GhostMode::Frightened
                    || ghosts@[k].mode == GhostMode::DeadPause)),
        decreases ghosts.len() - i,
    {
        match ghosts[i].mode {
            GhostMode::Dead => {
                return BackgroundSound::GoingHome;
            },
            GhostMode::DeadEnterHome => {
                return BackgroundSound::GoingHome;
            },
            GhostMode::Frightened => {
                fleeing = true;
            },
            GhostMode::DeadPause => {
                fleeing = true;
            },
            _ => {},
        }
        i = i + 1;
    }
    if fleeing {
        BackgroundSound::Frite
    } else {
        BackgroundSound::Siren(siren(pellets_eaten))
    }
}

} // verus!
