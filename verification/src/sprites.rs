//! Which pictures of a ghost are shown.
//!
//! A ghost is drawn from three pictures: its body, its eyes, and the blue
//! body of a frightened ghost. Which of them show depends on its mode.

use vstd::prelude::*;
use crate::ghost::{GhostMode, GhostState};

verus! {

impl GhostMode {
    /// The ghost is not drawn at all: in the pause after it was eaten, its
    /// points are shown in its place.
    pub open spec fn spec_is_hidden(&self) -> bool {
        *self == GhostMode::DeadPause
    }

    /// The body shows unless the ghost is frightened or dead.
    pub open spec fn spec_shows_body(&self) -> bool {
        !self.spec_is_frightened() && *self != GhostMode::Dead && *self
            != GhostMode::DeadEnterHome
    }

    /// The eyes show unless the ghost is frightened.
    pub open spec fn spec_shows_eyes(&self) -> bool {
        !self.spec_is_frightened()
    }

    /// Whether the ghost is not drawn at all.
    #[verifier::when_used_as_spec(spec_is_hidden)]
    pub fn is_hidden(&self) -> (r: bool)
        ensures
            r == self.spec_is_hidden(),
    {
        match self {
            GhostMode::DeadPause => true,
            _ => false,
        }
    }

    /// Whether the body shows.
    #[verifier::when_used_as_spec(spec_shows_body)]
    pub fn shows_body(&self) -> (r: bool)
        ensures
            r == self.spec_shows_body(),
    {
        match self {
            GhostMode::Dead => false,
            GhostMode::DeadEnterHome => false,
            _ => !self.is_frightened(),
        }
    }

    /// Whether the eyes show.
    #[verifier::when_used_as_spec(spec_shows_eyes)]
    pub fn shows_eyes(&self) -> (r: bool)
        ensures
            r == self.spec_shows_eyes(),
    {
        !self.is_frightened()
    }
}

impl GhostState {
    /// The ghost's picture takes its next step: outside the pause after a
    /// ghost was eaten, a ghost in the pen or leaving it steps whenever it
    /// is half way between two rows above the first, and every other ghost
    /// at each tile centre.
    pub open spec fn spec_steps_animation(&self, pause_finished: bool) -> bool {
        pause_finished && if self.mode is Home || self.mode is HomeExit {
            self.location.y > 0 && self.location.y as int % 8 == 4
        } else {
            self.location.spec_is_tile_center()
        }
    }

    /// Whether the ghost's picture takes its next step.
    pub fn steps_animation(&self, pause_finished: bool) -> (r: bool)
        ensures
            r == self.spec_steps_animation(pause_finished),
    {
        if !pause_finished {
            return false;
        }
        match self.mode {
            GhostMode::Home(_) => self.location.y > 0 && self.location.y % 8 == 4,
            GhostMode::HomeExit(_) => self.location.y > 0 && self.location.y % 8 == 4,
            _ => self.location.is_tile_center(),
        }
    }
}

/// The step of a two-step animation after `index`, if it `steps`.
pub fn next_variation(index: usize, steps: bool) -> (r: usize)
    ensures
        r == if steps {
            (index + 1) % 2
        } else {
            index as int % 2
        },
{
    if steps {
        (index % 2 + 1) % 2
    } else {
        index % 2
    }
}

} // verus!
