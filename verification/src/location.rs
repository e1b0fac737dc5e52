//! Fixed-point positions on the eighth-of-a-tile lattice.
//!
//! A coordinate is a whole number of eighths of a tile, so every position a
//! `Location` can hold lies on the lattice: tile centres are the multiples of
//! eight, tile boundaries the odd multiples of four.

use vstd::prelude::*;
use crate::direction::Direction;

verus! {

/// Eighths of a tile in one tile.
pub const EIGHTHS_PER_TILE: i32 = 8;

/// Largest distance from the origin, in eighths, at which the arithmetic of a
/// simulation step is guaranteed to stay inside `i32` (see [`Location::fits`]).
pub const COORD_LIMIT: i32 = 0x1000_0000;

/// The whole tile nearest to coordinate `c` (in eighths). A coordinate
/// exactly half way between two tiles goes to the side that `bias` points
/// to; with no bias it goes away from zero.
pub open spec fn nearest_tile(c: int, bias: int) -> int {
    let q = c / 8;
    let r = c % 8;
    if r < 4 {
        q
    } else if r > 4 {
        q + 1
    } else if bias > 0 || (bias == 0 && c > 0) {
        q + 1
    } else {
        q
    }
}

/// `nearest_tile` is a nearest whole tile: the coordinate is at most half a
/// tile away from it, a tile centre is its own nearest tile, and only an
/// exact half-way point is decided by the bias, towards the bias.
pub proof fn lemma_nearest_tile(c: int, bias: int)
    ensures
        -4 <= c - 8 * nearest_tile(c, bias) <= 4,
        c % 8 == 0 ==> 8 * nearest_tile(c, bias) == c,
        c % 8 != 4 ==> nearest_tile(c, bias) == nearest_tile(c, 0),
        c % 8 == 4 && bias > 0 ==> 8 * nearest_tile(c, bias) == c + 4,
        c % 8 == 4 && bias < 0 ==> 8 * nearest_tile(c, bias) == c - 4,
{
}

/// A point of the playing field, in eighths of a tile. `x` grows to the
/// right and `y` grows upwards.
#[derive(Clone, Copy, Debug, PartialEq, Eq, Structural)]
pub struct Location {
    pub x: i32,
    pub y: i32,
}

impl Location {
    /// Both coordinates are within [`COORD_LIMIT`] of the origin.
    pub open spec fn spec_fits(&self) -> bool {
        &&& -COORD_LIMIT <= self.x <= COORD_LIMIT
        &&& -COORD_LIMIT <= self.y <= COORD_LIMIT
    }

    /// The centres of the location's tile and of the tiles next to it can be
    /// held in `i32`. This is so for every location that `fits`.
    pub open spec fn spec_tiles_fit(&self) -> bool {
        &&& i32::MIN + 16 <= self.x <= i32::MAX - 16
        &&& i32::MIN + 16 <= self.y <= i32::MAX - 16
    }

    /// The location `n` eighths further along `d`.
    pub open spec fn moved(&self, d: Direction, n: int) -> Location {
        Location { x: (self.x + n * d.dx()) as i32, y: (self.y + n * d.dy()) as i32 }
    }

    /// Both coordinates are whole tiles.
    pub open spec fn spec_is_tile_center(&self) -> bool {
        self.x as int % 8 == 0 && self.y as int % 8 == 0
    }

    /// One of the coordinates lies exactly on the boundary between two tiles.
    pub open spec fn spec_is_on_tile_edge(&self) -> bool {
        self.x as int % 8 == 4 || self.y as int % 8 == 4
    }

    /// Centre of the tile this location belongs to when travelling along `d`:
    /// each coordinate goes to the nearest whole tile, and a coordinate
    /// exactly on a tile boundary goes to the tile ahead.
    pub open spec fn spec_get_tile(&self, d: Direction) -> Location {
        Location {
            x: (8 * nearest_tile(self.x as int, d.dx())) as i32,
            y: (8 * nearest_tile(self.y as int, d.dy())) as i32,
        }
    }

    /// Centre of the tile after the current one along `d`.
    pub open spec fn spec_next_tile(&self, d: Direction) -> Location {
        Location {
            x: (8 * nearest_tile(self.x as int, d.dx()) + 8 * d.dx()) as i32,
            y: (8 * nearest_tile(self.y as int, d.dy()) + 8 * d.dy()) as i32,
        }
    }

    /// Squared Euclidean distance to `other`, in squared eighths.
    pub open spec fn spec_distance_squared(&self, other: &Location) -> int {
        (self.x - other.x) * (self.x - other.x) + (self.y - other.y) * (self.y - other.y)
    }

    /// Whether both coordinates are within [`COORD_LIMIT`] of the origin.
    #[verifier::when_used_as_spec(spec_fits)]
    pub fn fits(&self) -> (r: bool)
        ensures
            r == self.spec_fits(),
    {
        -COORD_LIMIT <= self.x && self.x <= COORD_LIMIT && -COORD_LIMIT <= self.y && self.y
            <= COORD_LIMIT
    }

    /// Whether the centres of the location's tile and of the tiles next to
    /// it can be held in `i32`.
    #[verifier::when_used_as_spec(spec_tiles_fit)]
    pub fn tiles_fit(&self) -> (r: bool)
        ensures
            r == self.spec_tiles_fit(),
    {
        i32::MIN + 16 <= self.x && self.x <= i32::MAX - 16 && i32::MIN + 16 <= self.y && self.y
            <= i32::MAX - 16
    }

    /// A location from its coordinates in eighths of a tile.
    pub fn new(x: i32, y: i32) -> (r: Location)
        ensures
            r.x == x,
            r.y == y,
    {
        Location { x, y }
    }

    /// The centre of tile `(tx, ty)`.
    pub fn from_tiles(tx: i32, ty: i32) -> (r: Location)
        requires
            -COORD_LIMIT <= 8 * tx <= COORD_LIMIT,
            -COORD_LIMIT <= 8 * ty <= COORD_LIMIT,
        ensures
            r.x == 8 * tx,
            r.y == 8 * ty,
            r.fits(),
            r.spec_is_tile_center(),
    {
        Location { x: 8 * tx, y: 8 * ty }
    }

    /// Moves one eighth of a tile along `direction`.
    pub fn advance(&mut self, direction: Direction)
        requires
            old(self).tiles_fit(),
        ensures
            *final(self) == old(self).moved(direction, 1),
            final(self).x == old(self).x + direction.dx(),
            final(self).y == old(self).y + direction.dy(),
    {
        match direction {
            Direction::Left => {
                self.x = self.x - 1;
            },
            Direction::Right => {
                self.x = self.x + 1;
            },
            Direction::Up => {
                self.y = self.y + 1;
            },
            Direction::Down => {
                self.y = self.y - 1;
            },
        }
    }

    /// Centre of the tile this location belongs to when travelling along
    /// `direction`: each coordinate goes to the nearest whole tile, and a
    /// coordinate exactly on a tile boundary goes to the tile ahead.
    pub fn get_tile(&self, direction: Direction) -> (r: Location)
        requires
            self.tiles_fit(),
        ensures
            r == self.spec_get_tile(direction),
            r.x == 8 * nearest_tile(self.x as int, direction.dx()),
            r.y == 8 * nearest_tile(self.y as int, direction.dy()),
            r.spec_is_tile_center(),
            self.fits() ==> r.fits(),
    {
        let (bx, by) = bias_of(direction);
        Location { x: 8 * round_to_tile(self.x, bx), y: 8 * round_to_tile(self.y, by) }
    }

    /// Centre of the tile after the current one along `direction`.
    pub fn next_tile(&self, direction: Direction) -> (r: Location)
        requires
            self.tiles_fit(),
        ensures
            r == self.spec_next_tile(direction),
            r.x == self.spec_get_tile(direction).x + 8 * direction.dx(),
            r.y == self.spec_get_tile(direction).y + 8 * direction.dy(),
            r.spec_is_tile_center(),
    {
        let tile = self.get_tile(direction);
        let (bx, by) = bias_of(direction);
        Location { x: tile.x + 8 * bx, y: tile.y + 8 * by }
    }

    /// Whether the location is the centre of a tile.
    pub fn is_tile_center(&self) -> (r: bool)
        ensures
            r == self.spec_is_tile_center(),
    {
        rem8(self.x) == 0 && rem8(self.y) == 0
    }

    /// Whether the location lies on the boundary between two tiles along one
    /// of the axes.
    pub fn is_on_tile_edge(&self) -> (r: bool)
        ensures
            r == self.spec_is_on_tile_edge(),
    {
        rem8(self.x) == 4 || rem8(self.y) == 4
    }

    /// Component-wise sum.
    pub fn plus(&self, other: &Location) -> (r: Location)
        requires
            i32::MIN <= self.x + other.x <= i32::MAX,
            i32::MIN <= self.y + other.y <= i32::MAX,
        ensures
            r.x == self.x + other.x,
            r.y == self.y + other.y,
    {
        Location { x: self.x + other.x, y: self.y + other.y }
    }

    /// Component-wise difference.
    pub fn minus(&self, other: &Location) -> (r: Location)
        requires
            i32::MIN <= self.x - other.x <= i32::MAX,
            i32::MIN <= self.y - other.y <= i32::MAX,
        ensures
            r.x == self.x - other.x,
            r.y == self.y - other.y,
    {
        Location { x: self.x - other.x, y: self.y - other.y }
    }

    /// Both coordinates multiplied by `factor`.
    pub fn scaled(&self, factor: i32) -> (r: Location)
        requires
            i32::MIN <= self.x * factor <= i32::MAX,
            i32::MIN <= self.y * factor <= i32::MAX,
        ensures
            r.x == self.x * factor,
            r.y == self.y * factor,
    {
        Location { x: self.x * factor, y: self.y * factor }
    }

    /// Squared Euclidean distance to `other`, in squared eighths of a tile.
    pub fn distance_squared(&self, other: &Location) -> (d: u128)
        ensures
            d == self.spec_distance_squared(other),
    {
        let dx: i64 = self.x as i64 - other.x as i64;
        let dy: i64 = self.y as i64 - other.y as i64;
        square(dx) + square(dy)
    }
}

impl Direction {
    /// The step of one tile along this direction.
    pub open spec fn spec_get_vec(&self) -> Location {
        Location { x: (8 * self.dx()) as i32, y: (8 * self.dy()) as i32 }
    }

    /// The step of one tile along this direction.
    #[verifier::when_used_as_spec(spec_get_vec)]
    pub fn get_vec(&self) -> (r: Location)
        ensures
            r == self.spec_get_vec(),
            r.x == 8 * self.dx(),
            r.y == 8 * self.dy(),
    {
        match self {
            Direction::Up => Location { x: 0, y: 8 },
            Direction::Left => Location { x: -8, y: 0 },
            Direction::Down => Location { x: 0, y: -8 },
            Direction::Right => Location { x: 8, y: 0 },
        }
    }
}

/// The step of `d` as a pair of tile offsets.
fn bias_of(d: Direction) -> (r: (i32, i32))
    ensures
        r.0 == d.dx(),
        r.1 == d.dy(),
{
    match d {
        Direction::Left => (-1, 0),
        Direction::Up => (0, 1),
        Direction::Right => (1, 0),
        Direction::Down => (0, -1),
    }
}

/// Remainder of `c` modulo eight, between 0 and 7 for every sign of `c`.
fn rem8(c: i32) -> (r: i32)
    ensures
        r == c as int % 8,
{
    match c.checked_rem_euclid(8) {
        Some(r) => r,
        None => 0,
    }
}

/// The nearest whole tile to `c`, ties going to the side of `bias`.
pub fn round_to_tile(c: i32, bias: i32) -> (t: i32)
    ensures
        t == nearest_tile(c as int, bias as int),
        -0x1000_0000 <= t <= 0x1000_0000,
        -COORD_LIMIT <= c <= COORD_LIMIT ==> -COORD_LIMIT <= 8 * t <= COORD_LIMIT,
{
    let r: i64 = rem8(c) as i64;
    let q: i64 = (c as i64 - r) / 8;
    let t: i64 = if r < 4 {
        q
    } else if r > 4 {
        q + 1
    } else if bias > 0 || (bias == 0 && c > 0) {
        q + 1
    } else {
        q
    };
    t as i32
}

/// The square of a difference of two `i32` values.
fn square(d: i64) -> (s: u128)
    requires
        -0x1_0000_0000 < d < 0x1_0000_0000,
    ensures
        s == d * d,
        s <= 0xffff_ffff * 0xffff_ffff,
{
    let a: u128 = if d < 0 {
        (-d) as u128
    } else {
        d as u128
    };
    assert(a * a == d * d) by (nonlinear_arith)
        requires
            a == d || a == -d,
    ;
    assert(a * a <= 0xffff_ffff * 0xffff_ffff) by (nonlinear_arith)
        requires
            0 <= a <= 0xffff_ffff,
    ;
    a * a
}

/// A location in range is the centre of a tile exactly when it is its own
/// tile, whichever way it travels; and its tile and the next one are in
/// range of `i32`, at most half a tile and a tile and a half away.
pub proof fn lemma_tiles_of(l: Location, d: Direction)
    requires
        l.fits(),
    ensures
        l.spec_is_tile_center() <==> l.spec_get_tile(d) == l,
        l.spec_get_tile(d).x == 8 * nearest_tile(l.x as int, d.dx()),
        l.spec_get_tile(d).y == 8 * nearest_tile(l.y as int, d.dy()),
        l.spec_next_tile(d).x == l.spec_get_tile(d).x + 8 * d.dx(),
        l.spec_next_tile(d).y == l.spec_get_tile(d).y + 8 * d.dy(),
        -4 <= l.x - l.spec_get_tile(d).x <= 4,
        -4 <= l.y - l.spec_get_tile(d).y <= 4,
        l.spec_get_tile(d).spec_is_tile_center(),
        l.spec_next_tile(d).spec_is_tile_center(),
{
    lemma_nearest_tile(l.x as int, d.dx());
    lemma_nearest_tile(l.y as int, d.dy());
}

/// Eight steps of an eighth from a tile centre lead to the centre of the
/// next tile in that direction, each step going on from where the one
/// before it ended.
pub proof fn lemma_eight_steps_reach_next_tile(l: Location, d: Direction)
    requires
        l.fits(),
        l.moved(d, 8).fits(),
        l.spec_is_tile_center(),
    ensures
        l.moved(d, 8) == l.spec_next_tile(d),
        l.moved(d, 8).spec_is_tile_center(),
        forall|n: int| 0 <= n < 8 ==> (#[trigger] l.moved(d, n)).moved(d, 1) == l.moved(d, n + 1),
{
    lemma_nearest_tile(l.x as int, d.dx());
    lemma_nearest_tile(l.y as int, d.dy());
    assert forall|n: int| 0 <= n < 8 implies (#[trigger] l.moved(d, n)).moved(d, 1) == l.moved(
        d,
        n + 1,
    ) by {
        assert(n * d.dx() + 1 * d.dx() == (n + 1) * d.dx()) by (nonlinear_arith);
        assert(n * d.dy() + 1 * d.dy() == (n + 1) * d.dy()) by (nonlinear_arith);
        assert(-8 <= n * d.dx() <= 8 && -8 <= n * d.dy() <= 8) by (nonlinear_arith)
            requires
                0 <= n < 8,
                -1 <= d.dx() <= 1,
                -1 <= d.dy() <= 1,
        ;
    }
}

} // verus!
