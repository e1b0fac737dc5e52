//! The tile grid of the maze.
//!
//! The grid is stored column by column: the cell of column `x` and row `y`
//! is at index `x * height + y`. Tile `(x, y)` is centred at the location
//! with those whole-tile coordinates.

use vstd::prelude::*;
use vstd::string::*;
use crate::direction::Direction;
use crate::lines::{lemma_line_ranges, spec_lines, split_lines};
use crate::location::{nearest_tile, round_to_tile, Location, COORD_LIMIT};

verus! {

/// What a cell of the grid holds.
#[derive(Clone, Copy, Debug, PartialEq, Eq, Structural)]
pub enum Tile {
    Wall,
    Empty,
    GhostHouse,
    GhostHouseDoor,
}

/// The maze: `width` columns of `height` cells each.
#[derive(Debug)]
pub struct GridMap {
    pub width: usize,
    pub height: usize,
    pub map: Vec<Tile>,
}

/// The cell of column `x` and row `y` in a grid of height `height` stored
/// column by column.
pub open spec fn cell_of(tiles: Seq<Tile>, height: int, x: int, y: int) -> Tile {
    tiles[x * height + y]
}

/// What a symbol of a map text stands for: `W` a wall, a blank an empty
/// cell, `H` the inside of the pen and `D` its door. Other symbols stand
/// for nothing.
pub open spec fn tile_of_byte(b: u8) -> Option<Tile> {
    if b == 87 {
        Some(Tile::Wall)
    } else if b == 32 {
        Some(Tile::Empty)
    } else if b == 72 {
        Some(Tile::GhostHouse)
    } else if b == 68 {
        Some(Tile::GhostHouseDoor)
    } else {
        None
    }
}

/// The text `s` describes a grid: it has at least one line, its lines are
/// all as long as the first, and every symbol of every line stands for a
/// tile.
pub open spec fn well_formed_map_text(s: Seq<u8>) -> bool {
    &&& spec_lines(s).len() >= 1
    &&& forall|i: int|
        0 <= i < spec_lines(s).len() ==> (#[trigger] spec_lines(s)[i]).len() == spec_lines(
            s,
        )[0].len()
    &&& forall|i: int, j: int|
        0 <= i < spec_lines(s).len() && 0 <= j < spec_lines(s)[i].len() ==> tile_of_byte(
            #[trigger] spec_lines(s)[i][j],
        ) is Some
}

/// What the symbol `b` stands for.
fn tile_of(b: u8) -> (r: Option<Tile>)
    ensures
        r == tile_of_byte(b),
{
    if b == 87 {
        Some(Tile::Wall)
    } else if b == 32 {
        Some(Tile::Empty)
    } else if b == 72 {
        Some(Tile::GhostHouse)
    } else if b == 68 {
        Some(Tile::GhostHouseDoor)
    } else {
        None
    }
}

/// The whole tiles in the coordinate `c`, the fraction cut off.
pub open spec fn truncated_tile(c: int) -> int {
    if c >= 0 {
        c / 8
    } else {
        -((-c) / 8)
    }
}

/// One of `directions` leads from `from` to the tile `cell`.
pub open spec fn spec_leads_to(directions: Seq<Direction>, from: Location, cell: Location) -> bool {
    exists|k: int| 0 <= k < directions.len() && from.spec_next_tile(#[trigger] directions[k]) == cell
}

/// The cells of the columns before `x` lie before the cells of column `x`.
proof fn lemma_cell_index(x0: int, y0: int, x: int, height: int)
    requires
        0 <= x0 < x,
        0 <= y0 < height,
    ensures
        0 <= x0 * height + y0 < x * height,
{
    assert(x0 * height + height <= x * height) by (nonlinear_arith)
        requires
            x0 + 1 <= x,
            height >= 0,
    ;
    assert(0 <= x0 * height) by (nonlinear_arith)
        requires
            0 <= x0,
            0 <= height,
    ;
}

impl GridMap {
    /// The grid holds one cell for each column and row.
    pub open spec fn spec_wf(&self) -> bool {
        self.map@.len() == self.width * self.height
    }

    /// The grid is small enough for a location to wrap around it.
    pub open spec fn spec_fits(&self) -> bool {
        8 * (self.width + 1) <= COORD_LIMIT && 8 * (self.height + 1) <= COORD_LIMIT
    }

    /// The cell of column `x` and row `y`.
    pub open spec fn tile_at(&self, x: int, y: int) -> Tile {
        cell_of(self.map@, self.height as int, x, y)
    }

    /// The grid is the one that the text `s` describes: it has a column for
    /// each line of the text and a row for each symbol of a line, and each
    /// cell holds what the symbol at its place stands for.
    pub open spec fn is_described_by(&self, s: Seq<u8>) -> bool {
        &&& self.wf()
        &&& spec_lines(s).len() >= 1
        &&& self.width == spec_lines(s).len()
        &&& self.height == spec_lines(s)[0].len()
        &&& forall|x: int, y: int|
            0 <= x < self.width && 0 <= y < self.height ==> Some(#[trigger] self.tile_at(x, y))
                == tile_of_byte(spec_lines(s)[x][y])
    }

    /// The cell that `location` is looked up in, if any. The location is
    /// rounded to whole tiles, half tiles away from zero. There is no cell
    /// to the left of the first column or below the first row, nor past the
    /// end of the grid; the index is not checked against the height, so a
    /// row above the last one is looked up in the next column.
    pub open spec fn spec_get(&self, location: Location) -> Option<Tile> {
        let x = nearest_tile(location.x as int, 0);
        let y = nearest_tile(location.y as int, 0);
        if x < 0 || y < 0 {
            None
        } else if x * self.height + y < self.map@.len() {
            Some(self.map@[x * self.height + y])
        } else {
            None
        }
    }

    /// A location is blocked unless it is looked up in an empty cell or in
    /// no cell at all.
    pub open spec fn spec_is_blocked(&self, location: Location) -> bool {
        match self.spec_get(location) {
            Some(Tile::Empty) => false,
            None => false,
            _ => true,
        }
    }

    /// The coordinate `x`, in eighths, is strictly between the first and the
    /// last column.
    pub open spec fn spec_x_is_in_map(&self, x: int) -> bool {
        x > 0 && x < 8 * (self.width - 1)
    }

    /// The coordinate `y`, in eighths, is strictly between the first and the
    /// last row.
    pub open spec fn spec_y_is_in_map(&self, y: int) -> bool {
        y > 0 && y < 8 * (self.height - 1)
    }

    pub open spec fn spec_is_in_map(&self, location: Location) -> bool {
        self.spec_x_is_in_map(location.x as int) && self.spec_y_is_in_map(location.y as int)
    }

    /// Only left and right are open at `location`: it is half way between
    /// two columns, or not strictly inside the columns of the grid.
    pub open spec fn horizontal_only(&self, location: Location) -> bool {
        location.x as int % 8 == 4 || !self.spec_x_is_in_map(location.x as int)
    }

    /// Only up and down are open at `location`: it is not limited to left
    /// and right, and it is half way between two rows or not strictly inside
    /// the rows of the grid.
    pub open spec fn vertical_only(&self, location: Location) -> bool {
        !self.horizontal_only(location) && (location.y as int % 8 == 4 || !self.spec_y_is_in_map(
            location.y as int,
        ))
    }

    /// `d` alone if the tile after `location` along `d` is not blocked, else
    /// nothing.
    pub open spec fn open_towards(&self, location: Location, d: Direction) -> Seq<Direction> {
        if self.spec_is_blocked(location.spec_next_tile(d)) {
            Seq::empty()
        } else {
            seq![d]
        }
    }

    /// The directions open at `location`, in the order left, up, right,
    /// down.
    pub open spec fn spec_possible_directions(&self, location: Location) -> Seq<Direction> {
        if self.horizontal_only(location) {
            seq![Direction::Left, Direction::Right]
        } else if self.vertical_only(location) {
            seq![Direction::Up, Direction::Down]
        } else {
            self.open_towards(location, Direction::Left) + self.open_towards(
                location,
                Direction::Up,
            ) + self.open_towards(location, Direction::Right) + self.open_towards(
                location,
                Direction::Down,
            )
        }
    }

    /// The symbol at index `i` of the sketch around `current_tile` (see
    /// [`GridMap::sketch_7x7`]).
    pub open spec fn sketch_at(&self, current_tile: Location, next_tile: Location, i: int) -> u8 {
        let cell = Location {
            x: (8 * (truncated_tile(current_tile.x as int) - 3 + i % 8)) as i32,
            y: (8 * (truncated_tile(current_tile.y as int) - 3 + i / 8)) as i32,
        };
        if i % 8 == 7 {
            10
        } else if cell == current_tile {
            67
        } else if cell == next_tile {
            78
        } else if spec_leads_to(self.spec_possible_directions(next_tile), next_tile, cell) {
            80
        } else if self.spec_is_blocked(cell) {
            87
        } else {
            32
        }
    }

    /// The location after wrapping around the grid. The field extends two
    /// tiles to the left of the first column and below the first row, and one
    /// tile past the last column and row. A location at or beyond one end
    /// comes back in at the other, as far in as it was out; at the top it
    /// comes back only from the border itself.
    pub open spec fn spec_wrap(&self, location: Location) -> Location {
        let right = 8 * (self.width + 1);
        let top = 8 * (self.height + 1);
        Location {
            x: if location.x <= -16 {
                (right + (location.x + 16)) as i32
            } else if location.x >= right {
                (-16 + (location.x - right)) as i32
            } else {
                location.x
            },
            y: if location.y <= -16 {
                (top + (location.y + 16)) as i32
            } else if location.y == top {
                -16i32
            } else {
                location.y
            },
        }
    }

    /// The grid that `map_text` describes, if it describes one. Each line of
    /// the text is a column of the grid, from left to right, and holds the
    /// symbols of the column's cells from the bottom row up.
    pub fn try_parse(map_text: &str) -> (r: Option<GridMap>)
        ensures
            r is Some <==> well_formed_map_text(map_text.spec_bytes()),
            r matches Some(m) ==> m.is_described_by(map_text.spec_bytes()),
    {
        let bytes = map_text.as_bytes();
        let ranges = split_lines(bytes);
        let ghost lines = spec_lines(bytes@);
        proof {
            lemma_line_ranges(bytes@, 0);
        }
        if ranges.len() == 0 {
            return None;
        }
        let width: usize = ranges.len();
        let height: usize = ranges[0].1 - ranges[0].0;
        let mut map: Vec<Tile> = Vec::new();
        let mut x: usize = 0;
        while x < width
            invariant
                x <= width,
                bytes@ == map_text.spec_bytes(),
                width == ranges@.len(),
                width == lines.len(),
                lines == spec_lines(bytes@),
                height == lines[0].len(),
                forall|i: int|
                    0 <= i < width ==> (#[trigger] ranges@[i]).0 <= ranges@[i].1 <= bytes@.len(),
                forall|i: int|
                    0 <= i < width ==> (#[trigger] lines[i]) == bytes@.subrange(
                        ranges@[i].0 as int,
                        ranges@[i].1 as int,
                    ),
                map@.len() == x * height,
                forall|i: int| 0 <= i < x ==> (#[trigger] lines[i]).len() == height,
                forall|i: int, j: int|
                    0 <= i < x && 0 <= j < height ==> Some(#[trigger] cell_of(map@, height as int, i, j))
                        == tile_of_byte(lines[i][j]),
            decreases width - x,
        {
            let start: usize = ranges[x].0;
            let stop: usize = ranges[x].1;
            let ghost line = lines[x as int];
            assert(line.len() == stop - start);
            if stop - start != height {
                assert(spec_lines(bytes@)[x as int].len() != spec_lines(bytes@)[0].len());
                return None;
            }
            let ghost column_start = map@;
            let mut y: usize = 0;
            while y < height
                invariant
                    y <= height,
                    x < width,
                    bytes@ == map_text.spec_bytes(),
                    width == lines.len(),
                    lines == spec_lines(bytes@),
                    forall|i: int| 0 <= i < x ==> (#[trigger] lines[i]).len() == height,
                    start + height == stop,
                    stop <= bytes@.len(),
                    line == lines[x as int],
                    line == bytes@.subrange(start as int, stop as int),
                    map@.len() == x * height + y,
                    forall|i: int, j: int|
                        0 <= i < x && 0 <= j < height ==> Some(
                            #[trigger] cell_of(map@, height as int, i, j),
                        ) == tile_of_byte(lines[i][j]),
                    forall|j: int|
                        0 <= j < y ==> Some(#[trigger] cell_of(map@, height as int, x as int, j))
                            == tile_of_byte(line[j]),
                decreases height - y,
            {
                let b: u8 = bytes[start + y];
                assert(line[y as int] == b);
                match tile_of(b) {
                    Some(tile) => {
                        let ghost before = map@;
                        map.push(tile);
                        proof {
                            assert forall|i: int, j: int| 0 <= i < x && 0 <= j < height implies Some(
                                #[trigger] cell_of(map@, height as int, i, j),
                            ) == tile_of_byte(lines[i][j]) by {
                                lemma_cell_index(i, j, x as int, height as int);
                                assert(cell_of(map@, height as int, i, j) == cell_of(
                                    before,
                                    height as int,
                                    i,
                                    j,
                                ));
                            }
                            assert forall|j: int| 0 <= j < y + 1 implies Some(
                                #[trigger] cell_of(map@, height as int, x as int, j),
                            ) == tile_of_byte(line[j]) by {
                                if j < y {
                                    assert(cell_of(map@, height as int, x as int, j) == cell_of(
                                        before,
                                        height as int,
                                        x as int,
                                        j,
                                    ));
                                }
                            }
                        }
                    },
                    None => {
                        assert(tile_of_byte(spec_lines(bytes@)[x as int][y as int]) is None);
                        return None;
                    },
                }
                y = y + 1;
            }
            proof {
                assert((x + 1) * height == x * height + height) by (nonlinear_arith);
                assert forall|i: int, j: int| 0 <= i < x + 1 && 0 <= j < height implies Some(
                    #[trigger] cell_of(map@, height as int, i, j),
                ) == tile_of_byte(lines[i][j]) by {
                    if i == x {
                        assert(lines[i] == line);
                    }
                }
            }
            x = x + 1;
        }
        let m = GridMap { width, height, map };
        proof {
            assert forall|i: int, j: int|
                0 <= i < lines.len() && 0 <= j < lines[i].len() implies tile_of_byte(
                #[trigger] lines[i][j],
            ) is Some by {
                assert(Some(cell_of(m.map@, height as int, i, j)) == tile_of_byte(lines[i][j]));
            }
        }
        Some(m)
    }

    /// The grid that `map_text` describes.
    pub fn parse(map_text: &str) -> (r: GridMap)
        requires
            well_formed_map_text(map_text.spec_bytes()),
        ensures
            r.is_described_by(map_text.spec_bytes()),
    {
        match Self::try_parse(map_text) {
            Some(m) => m,
            None => vstd::pervasive::unreached(),
        }
    }

    /// Whether the grid holds one cell for each column and row.
    #[verifier::when_used_as_spec(spec_wf)]
    pub fn wf(&self) -> (r: bool)
        ensures
            r == self.spec_wf(),
    {
        let cells: usize = self.map.len();
        match self.width.checked_mul(self.height) {
            Some(product) => cells == product,
            None => false,
        }
    }

    /// Whether the grid is small enough for a location to wrap around it.
    #[verifier::when_used_as_spec(spec_fits)]
    pub fn fits(&self) -> (r: bool)
        ensures
            r == self.spec_fits(),
    {
        self.width < 0x200_0000 && self.height < 0x200_0000
    }

    /// Number of columns.
    pub fn width(&self) -> (r: usize)
        ensures
            r == self.width,
    {
        self.width
    }

    /// Number of rows.
    pub fn height(&self) -> (r: usize)
        ensures
            r == self.height,
    {
        self.height
    }

    /// The cell that `location` is looked up in, if any.
    pub fn get(&self, location: Location) -> (r: Option<Tile>)
        requires
            self.wf(),
        ensures
            r == self.spec_get(location),
    {
        let x: i32 = round_to_tile(location.x, 0);
        let y: i32 = round_to_tile(location.y, 0);
        if x < 0 || y < 0 {
            return None;
        }
        let x: usize = x as usize;
        let y: usize = y as usize;
        let len: usize = self.map.len();
        if x >= self.width {
            assert(x * self.height + y >= self.width * self.height) by (nonlinear_arith)
                requires
                    x >= self.width,
                    y >= 0,
                    self.height >= 0,
            ;
            return None;
        }
        assert(0 <= x * self.height <= self.width * self.height) by (nonlinear_arith)
            requires
                0 <= x < self.width,
                self.height >= 0,
        ;
        let base: usize = x * self.height;
        if y >= len - base {
            None
        } else {
            Some(self.map[base + y])
        }
    }

    /// Whether `location` is blocked: whether it is looked up in a cell that
    /// is not empty.
    pub fn is_blocked(&self, location: Location) -> (r: bool)
        requires
            self.wf(),
        ensures
            r == self.spec_is_blocked(location),
    {
        match self.get(location) {
            Some(Tile::Empty) => false,
            None => false,
            _ => true,
        }
    }

    /// Whether `location` is strictly inside the grid, at least a tile away
    /// from its border on every side.
    pub fn is_in_map(&self, location: Location) -> (r: bool)
        ensures
            r == self.spec_is_in_map(location),
    {
        self.x_is_in_map(location.x) && self.y_is_in_map(location.y)
    }

    fn y_is_in_map(&self, y: i32) -> (r: bool)
        ensures
            r == self.spec_y_is_in_map(y as int),
    {
        y > 0 && (y as i128) < 8 * (self.height as i128 - 1)
    }

    fn x_is_in_map(&self, x: i32) -> (r: bool)
        ensures
            r == self.spec_x_is_in_map(x as int),
    {
        x > 0 && (x as i128) < 8 * (self.width as i128 - 1)
    }

    /// The directions open at `location`. Half way between two columns, or
    /// outside the columns of the grid, they are left and right whatever the
    /// tiles hold; else, half way between two rows or outside the rows, they
    /// are up and down. Everywhere else they are the directions whose next
    /// tile is not blocked, in the order left, up, right, down.
    pub fn possible_directions(&self, location: Location) -> (r: Vec<Direction>)
        requires
            self.wf(),
            location.tiles_fit(),
        ensures
            r@ == self.spec_possible_directions(location),
            !self.horizontal_only(location) && !self.vertical_only(location) ==> forall|
                d: Direction,
            |
                r@.contains(d) <==> !self.spec_is_blocked(location.spec_next_tile(d)),
    {
        let half_x = match location.x.checked_rem_euclid(8) {
            Some(m) => m == 4,
            None => false,
        };
        if half_x || !self.x_is_in_map(location.x) {
            let r = vec![Direction::Left, Direction::Right];
            assert(r@ =~= seq![Direction::Left, Direction::Right]);
            return r;
        }
        let half_y = match location.y.checked_rem_euclid(8) {
            Some(m) => m == 4,
            None => false,
        };
        if half_y || !self.y_is_in_map(location.y) {
            let r = vec![Direction::Up, Direction::Down];
            assert(r@ =~= seq![Direction::Up, Direction::Down]);
            return r;
        }
        let mut r: Vec<Direction> = Vec::new();
        if !self.is_blocked(location.next_tile(Direction::Left)) {
            r.push(Direction::Left);
        }
        let ghost r1 = r@;
        assert(r1 =~= self.open_towards(location, Direction::Left));
        if !self.is_blocked(location.next_tile(Direction::Up)) {
            r.push(Direction::Up);
        }
        let ghost r2 = r@;
        assert(r2 =~= r1 + self.open_towards(location, Direction::Up));
        if !self.is_blocked(location.next_tile(Direction::Right)) {
            r.push(Direction::Right);
        }
        let ghost r3 = r@;
        assert(r3 =~= r2 + self.open_towards(location, Direction::Right));
        if !self.is_blocked(location.next_tile(Direction::Down)) {
            r.push(Direction::Down);
        }
        assert(r@ =~= r3 + self.open_towards(location, Direction::Down));
        proof {
            lemma_open_directions(*self, location);
        }
        r
    }

    /// Whether one of `directions` leads from `from` to the tile `cell`.
    fn leads_to(directions: &Vec<Direction>, from: Location, cell: Location) -> (r: bool)
        requires
            from.tiles_fit(),
        ensures
            r == spec_leads_to(directions@, from, cell),
    {
        let mut i: usize = 0;
        while i < directions.len()
            invariant
                i <= directions.len(),
                from.tiles_fit(),
                forall|k: int|
                    0 <= k < i ==> from.spec_next_tile(#[trigger] directions@[k]) != cell,
            decreases directions.len() - i,
        {
            if from.next_tile(directions[i]) == cell {
                return true;
            }
            i = i + 1;
        }
        false
    }

    /// A sketch of the seven by seven tiles around `current_tile`, for
    /// looking at a ghost's choice: seven lines of seven symbols, each line
    /// ended by a line feed, the lowest row first. `C` marks the current
    /// tile, `N` the next tile, `P` the tiles that can be reached from the
    /// next tile, `W` the other blocked tiles, and a blank the rest.
    pub fn sketch_7x7(&self, current_tile: Location, next_tile: Location) -> (r: Vec<u8>)
        requires
            self.wf(),
            current_tile.fits(),
            next_tile.fits(),
        ensures
            r@.len() == 56,
            forall|i: int|
                0 <= i < 56 ==> #[trigger] r@[i] == self.sketch_at(current_tile, next_tile, i),
    {
        let possible = self.possible_directions(next_tile);
        let start_x: i32 = current_tile.x / 8 - 3;
        let start_y: i32 = current_tile.y / 8 - 3;
        let mut r: Vec<u8> = Vec::new();
        let mut i: usize = 0;
        while i < 56
            invariant
                i <= 56,
                self.wf(),
                current_tile.fits(),
                next_tile.fits(),
                possible@ == self.spec_possible_directions(next_tile),
                start_x == truncated_tile(current_tile.x as int) - 3,
                start_y == truncated_tile(current_tile.y as int) - 3,
                r@.len() == i,
                forall|k: int|
                    0 <= k < i ==> #[trigger] r@[k] == self.sketch_at(current_tile, next_tile, k),
            decreases 56 - i,
        {
            let column: usize = i % 8;
            let row: usize = i / 8;
            let symbol: u8 = if column == 7 {
                10
            } else {
                let cell = Location {
                    x: 8 * (start_x + column as i32),
                    y: 8 * (start_y + row as i32),
                };
                if cell == current_tile {
                    67
                } else if cell == next_tile {
                    78
                } else if Self::leads_to(&possible, next_tile, cell) {
                    80
                } else if self.is_blocked(cell) {
                    87
                } else {
                    32
                }
            };
            r.push(symbol);
            i = i + 1;
        }
        r
    }

    /// Wraps `location` around the grid.
    pub fn wrap(&self, location: &mut Location)
        requires
            self.fits(),
            old(location).fits(),
        ensures
            *final(location) == self.spec_wrap(*old(location)),
            final(location).fits(),
    {
        let right: i32 = 8 * (self.width as i32 + 1);
        let top: i32 = 8 * (self.height as i32 + 1);
        if location.x <= -16 {
            location.x = right + (location.x + 16);
        } else if location.x >= right {
            location.x = -16 + (location.x - right);
        }
        if location.y <= -16 {
            location.y = top + (location.y + 16);
        } else if location.y == top {
            location.y = -16;
        }
    }
}

/// Away from the places where only one axis is open, a direction is among
/// the possible ones exactly when the tile it leads to is not blocked; and
/// each direction is listed once, in the order left, up, right, down.
pub proof fn lemma_open_directions(m: GridMap, location: Location)
    requires
        !m.horizontal_only(location),
        !m.vertical_only(location),
    ensures
        forall|d: Direction|
            m.spec_possible_directions(location).contains(d) <==> !m.spec_is_blocked(
                location.spec_next_tile(d),
            ),
        m.spec_possible_directions(location).no_duplicates(),
        m.spec_possible_directions(location).len() <= 4,
{
    let l = m.open_towards(location, Direction::Left);
    let u = m.open_towards(location, Direction::Up);
    let r = m.open_towards(location, Direction::Right);
    let dn = m.open_towards(location, Direction::Down);
    let all = m.spec_possible_directions(location);
    assert(all == l + u + r + dn);
    assert forall|d: Direction| all.contains(d) <==> !m.spec_is_blocked(
        location.spec_next_tile(d),
    ) by {
        if !m.spec_is_blocked(location.spec_next_tile(d)) {
            match d {
                Direction::Left => {
                    assert(all[0] == d);
                },
                Direction::Up => {
                    assert(all[l.len() as int] == d);
                },
                Direction::Right => {
                    assert(all[(l.len() + u.len()) as int] == d);
                },
                Direction::Down => {
                    assert(all[(l.len() + u.len() + r.len()) as int] == d);
                },
            }
        }
        if all.contains(d) {
            let i = choose|i: int| 0 <= i < all.len() && all[i] == d;
            if i < l.len() {
                assert(all[i] == l[i]);
            } else if i < l.len() + u.len() {
                assert(all[i] == u[i - l.len()]);
            } else if i < l.len() + u.len() + r.len() {
                assert(all[i] == r[i - l.len() - u.len()]);
            } else {
                assert(all[i] == dn[i - l.len() - u.len() - r.len()]);
            }
        }
    }
    assert forall|i: int, j: int| 0 <= i < all.len() && 0 <= j < all.len() && i != j implies all[i]
        != all[j] by {
        let pick = |k: int|
            if k < l.len() {
                Direction::Left
            } else if k < l.len() + u.len() {
                Direction::Up
            } else if k < l.len() + u.len() + r.len() {
                Direction::Right
            } else {
                Direction::Down
            };
        assert(all[i] == pick(i));
        assert(all[j] == pick(j));
    }
}

} // verus!
