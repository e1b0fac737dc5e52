//! The ghosts: who they are, the modes they can be in, the direction they
//! travel in and the one they have planned, and where each one starts.

use vstd::prelude::*;
use crate::direction::Direction;
use crate::location::Location;
use crate::speed::CharacterSpeed;

verus! {

/// The four ghosts.
#[derive(Clone, Copy, Debug, PartialEq, Eq, Structural)]
pub enum GhostId {
    Blinky,
    Pinky,
    Inky,
    Clyde,
}

/// The mode shared by every ghost that is out in the maze and neither
/// frightened nor dead.
#[derive(Clone, Copy, Debug, PartialEq, Eq, Structural)]
pub enum GlobalMode {
    Chase,
    Scatter,
}

/// The mode of one ghost. The flag of `Home` and `HomeExit` says whether the
/// ghost is frightened while it is in the pen or leaving it.
#[derive(Clone, Copy, Debug, PartialEq, Eq, Structural)]
pub enum GhostMode {
    Home(bool),
    HomeExit(bool),
    Chase,
    Scatter,
    Frightened,
    DeadPause,
    Dead,
    DeadEnterHome,
}

impl Default for GhostMode {
    /// A level starts in scatter mode.
    fn default() -> (r: GhostMode)
        ensures
            r == GhostMode::Scatter,
    {
        GhostMode::Scatter
    }
}

impl Default for GlobalMode {
    /// A level starts in scatter mode.
    fn default() -> (r: GlobalMode)
        ensures
            r == GlobalMode::Scatter,
    {
        GlobalMode::Scatter
    }
}

impl GlobalMode {
    pub open spec fn spec_as_ghost_mode(&self) -> GhostMode {
        match *self {
            GlobalMode::Chase => GhostMode::Chase,
            GlobalMode::Scatter => GhostMode::Scatter,
        }
    }

    pub open spec fn spec_flipped(&self) -> GlobalMode {
        match *self {
            GlobalMode::Chase => GlobalMode::Scatter,
            GlobalMode::Scatter => GlobalMode::Chase,
        }
    }

    /// The mode of a ghost that follows this global mode.
    #[verifier::when_used_as_spec(spec_as_ghost_mode)]
    pub fn as_ghost_mode(&self) -> (r: GhostMode)
        ensures
            r == self.spec_as_ghost_mode(),
    {
        match self {
            GlobalMode::Chase => GhostMode::Chase,
            GlobalMode::Scatter => GhostMode::Scatter,
        }
    }

    /// The other global mode.
    #[verifier::when_used_as_spec(spec_flipped)]
    pub fn flipped(&self) -> (r: GlobalMode)
        ensures
            r == self.spec_flipped(),
    {
        match self {
            GlobalMode::Chase => GlobalMode::Scatter,
            GlobalMode::Scatter => GlobalMode::Chase,
        }
    }
}

impl GhostMode {
    /// The ghost is in the pen.
    pub open spec fn spec_is_home(&self) -> bool {
        *self is Home
    }

    /// The ghost shows as frightened: it is frightened in the maze, or
    /// flagged so in the pen or on its way out.
    pub open spec fn spec_is_frightened(&self) -> bool {
        *self == GhostMode::Frightened || *self == GhostMode::Home(true) || *self
            == GhostMode::HomeExit(true)
    }

    /// The ghost follows the global mode: it is chasing or scattering.
    pub open spec fn spec_tracks_global(&self) -> bool {
        *self == GhostMode::Chase || *self == GhostMode::Scatter
    }

    /// Whether the ghost is in the pen.
    #[verifier::when_used_as_spec(spec_is_home)]
    pub fn is_home(&self) -> (r: bool)
        ensures
            r == self.spec_is_home(),
    {
        match self {
            GhostMode::Home(_) => true,
            _ => false,
        }
    }

    /// Whether the ghost shows as frightened.
    #[verifier::when_used_as_spec(spec_is_frightened)]
    pub fn is_frightened(&self) -> (r: bool)
        ensures
            r == self.spec_is_frightened(),
    {
        match self {
            GhostMode::Frightened => true,
            GhostMode::Home(f) => *f,
            GhostMode::HomeExit(f) => *f,
            _ => false,
        }
    }

    /// Whether the ghost follows the global mode.
    #[verifier::when_used_as_spec(spec_tracks_global)]
    pub fn tracks_global(&self) -> (r: bool)
        ensures
            r == self.spec_tracks_global(),
    {
        match self {
            GhostMode::Chase => true,
            GhostMode::Scatter => true,
            _ => false,
        }
    }
}

/// The direction a ghost travels in and the one it will take at the next
/// tile centre, once that has been planned.
#[derive(Clone, Copy, Debug, PartialEq, Eq)]
pub struct GhostDirections {
    pub current: Direction,
    pub planned: Option<Direction>,
}

impl GhostDirections {
    pub open spec fn spec_new(direction: Direction) -> GhostDirections {
        GhostDirections { current: direction, planned: Some(direction) }
    }

    /// The plan becomes the current direction (which stays if there is no
    /// plan), and the plan is used up.
    pub open spec fn spec_advance(&self) -> GhostDirections {
        GhostDirections {
            current: match self.planned {
                Some(d) => d,
                None => self.current,
            },
            planned: None,
        }
    }

    pub open spec fn spec_plan_needed(&self) -> bool {
        self.planned is None
    }

    pub open spec fn spec_set_plan(&self, direction: Direction) -> GhostDirections {
        GhostDirections { current: self.current, planned: Some(direction) }
    }

    /// The plan becomes the reverse of the current direction.
    pub open spec fn spec_reverse(&self) -> GhostDirections {
        GhostDirections { current: self.current, planned: Some(self.current.spec_opposite()) }
    }

    /// Travelling along `direction`, with the same direction planned.
    pub fn new(direction: Direction) -> (r: GhostDirections)
        ensures
            r == Self::spec_new(direction),
    {
        GhostDirections { current: direction, planned: Some(direction) }
    }

    /// Takes the planned direction, at a tile centre.
    pub fn advance(&mut self)
        ensures
            *final(self) == old(self).spec_advance(),
    {
        self.current = match self.planned {
            Some(d) => d,
            None => self.current,
        };
        self.planned = None;
    }

    /// Whether the next direction is still to be planned.
    #[verifier::when_used_as_spec(spec_plan_needed)]
    pub fn plan_needed(&self) -> (r: bool)
        ensures
            r == self.spec_plan_needed(),
    {
        self.planned.is_none()
    }

    /// Plans `direction` for the next tile centre.
    pub fn set_plan(&mut self, direction: Direction)
        ensures
            *final(self) == old(self).spec_set_plan(direction),
    {
        self.planned = Some(direction);
    }

    /// Plans the reverse of the current direction.
    pub fn reverse(&mut self)
        ensures
            *final(self) == old(self).spec_reverse(),
    {
        self.planned = Some(self.current.opposite());
    }
}

/// Everything the simulation keeps about one ghost.
#[derive(Clone, Copy, Debug, PartialEq, Eq)]
pub struct GhostState {
    pub id: GhostId,
    pub location: Location,
    pub directions: GhostDirections,
    pub speed: CharacterSpeed,
    pub mode: GhostMode,
}

/// The tile in front of the pen's door, where Blinky starts, where ghosts
/// leaving the pen join the maze and where dead ghosts return to.
pub open spec fn spec_home_entrance() -> Location {
    Location { x: 108, y: 152 }
}

/// The middle of the pen, where Pinky starts and where a dead ghost comes
/// back to life.
pub open spec fn spec_home_center() -> Location {
    Location { x: 108, y: 128 }
}

/// The tile in front of the pen's door.
#[verifier::when_used_as_spec(spec_home_entrance)]
pub fn home_entrance() -> (r: Location)
    ensures
        r == spec_home_entrance(),
{
    Location { x: 108, y: 152 }
}

/// The middle of the pen.
#[verifier::when_used_as_spec(spec_home_center)]
pub fn home_center() -> (r: Location)
    ensures
        r == spec_home_center(),
{
    Location { x: 108, y: 128 }
}

/// Speed of a ghost when it is put on the field, in hundredths.
pub const SPAWN_SPEED: u32 = 75;

impl GhostId {
    /// The four ghosts in the order in which they are put on the field.
    pub open spec fn spec_all() -> Seq<GhostId> {
        seq![GhostId::Blinky, GhostId::Pinky, GhostId::Inky, GhostId::Clyde]
    }

    /// The column, in eighths, that the ghost keeps to while in the pen.
    /// Blinky has none: it is never in the pen.
    pub open spec fn spec_home_x(&self) -> int {
        match *self {
            GhostId::Pinky => 108,
            GhostId::Inky => 92,
            GhostId::Clyde => 124,
            GhostId::Blinky => 108,
        }
    }

    /// The state in which the ghost is put on the field. Blinky starts in
    /// front of the door, already leaving; Pinky starts in the middle of the
    /// pen and leaves at once unless a life was just lost; Inky and Clyde
    /// wait in the pen on either side.
    pub open spec fn spec_spawn(&self, life_lost: bool) -> GhostState {
        match *self {
            GhostId::Blinky => GhostState {
                id: GhostId::Blinky,
                location: spec_home_entrance(),
                directions: GhostDirections::spec_new(Direction::Left),
                speed: CharacterSpeed::spec_new(SPAWN_SPEED),
                mode: GhostMode::HomeExit(false),
            },
            GhostId::Pinky => GhostState {
                id: GhostId::Pinky,
                location: spec_home_center(),
                directions: GhostDirections::spec_new(Direction::Down),
                speed: CharacterSpeed::spec_new(SPAWN_SPEED),
                mode: if life_lost {
                    GhostMode::Home(false)
                } else {
                    GhostMode::HomeExit(false)
                },
            },
            GhostId::Inky => GhostState {
                id: GhostId::Inky,
                location: Location { x: 92, y: 128 },
                directions: GhostDirections::spec_new(Direction::Up),
                speed: CharacterSpeed::spec_new(SPAWN_SPEED),
                mode: GhostMode::Home(false),
            },
            GhostId::Clyde => GhostState {
                id: GhostId::Clyde,
                location: Location { x: 124, y: 128 },
                directions: GhostDirections::spec_new(Direction::Up),
                speed: CharacterSpeed::spec_new(SPAWN_SPEED),
                mode: GhostMode::Home(false),
            },
        }
    }

    /// The four ghosts in the order in which they are put on the field.
    pub fn all() -> (r: Vec<GhostId>)
        ensures
            r@ == Self::spec_all(),
    {
        let r = vec![GhostId::Blinky, GhostId::Pinky, GhostId::Inky, GhostId::Clyde];
        assert(r@ =~= Self::spec_all());
        r
    }

    /// The state in which the ghost is put on the field at the start of a
    /// level, or after a life was lost.
    pub fn spawn(&self, life_lost: bool) -> (r: GhostState)
        ensures
            r == self.spec_spawn(life_lost),
            r.wf(),
    {
        let (location, direction, mode) = match self {
            GhostId::Blinky => (home_entrance(), Direction::Left, GhostMode::HomeExit(false)),
            GhostId::Pinky => (
                home_center(),
                Direction::Down,
                if life_lost {
                    GhostMode::Home(false)
                } else {
                    GhostMode::HomeExit(false)
                },
            ),
            GhostId::Inky => (Location { x: 92, y: 128 }, Direction::Up, GhostMode::Home(false)),
            GhostId::Clyde => (Location { x: 124, y: 128 }, Direction::Up, GhostMode::Home(false)),
        };
        GhostState {
            id: *self,
            location,
            directions: GhostDirections::new(direction),
            speed: CharacterSpeed::new(SPAWN_SPEED),
            mode,
        }
    }
}

impl GhostState {
    /// The cadence is well formed, the location is in range, and Blinky is
    /// not in the pen.
    pub open spec fn spec_wf(&self) -> bool {
        &&& self.speed.wf()
        &&& self.location.fits()
        &&& !(self.id == GhostId::Blinky && self.mode is Home)
    }

    /// Whether the cadence is well formed, the location is in range, and
    /// the ghost is not Blinky in the pen.
    #[verifier::when_used_as_spec(spec_wf)]
    pub fn wf(&self) -> (r: bool)
        ensures
            r == self.spec_wf(),
    {
        self.speed.wf() && self.location.fits() && !(self.id == GhostId::Blinky
            && self.mode.is_home())
    }
}

/// The ghosts put on the field at the start of a level or after a life was
/// lost, in the order of [`GhostId::all`].
pub fn spawn_ghosts(life_lost: bool) -> (r: Vec<GhostState>)
    ensures
        r@.len() == 4,
        forall|i: int| 0 <= i < 4 ==> r@[i] == (#[trigger] GhostId::spec_all()[i]).spec_spawn(life_lost),
        forall|i: int| 0 <= i < 4 ==> (#[trigger] r@[i]).wf(),
{
    let r = vec![
        GhostId::Blinky.spawn(life_lost),
        GhostId::Pinky.spawn(life_lost),
        GhostId::Inky.spawn(life_lost),
        GhostId::Clyde.spawn(life_lost),
    ];
    r
}

} // verus!
