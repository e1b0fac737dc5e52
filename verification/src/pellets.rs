//! The pellets of a level.
//!
//! A level's pellets are listed in a text with one pellet on each line: its
//! two coordinates, in tiles and separated by a comma, then a blank, then
//! its type, `Regular` or `Power`. A coordinate is a decimal number with an
//! optional sign; it must lie on the lattice of eighths of a tile.

use vstd::prelude::*;
use vstd::slice::slice_subrange;
use vstd::string::*;
use crate::digits::{all_digits, digits_value, is_all_digits, parse_digits};
use crate::events::{PelletEaten, PlayerAt};
use crate::lines::{find, find_byte, lemma_find_byte, lemma_line_ranges, spec_lines, split_lines};
use crate::location::{Location, COORD_LIMIT};

verus! {

/// The two kinds of pellet.
#[derive(Clone, Copy, Debug, PartialEq, Eq, Structural)]
pub enum PelletType {
    Regular,
    Power,
}

/// A pellet on the field.
#[derive(Clone, Copy, Debug, PartialEq, Eq, Structural)]
pub struct Pellet {
    pub location: Location,
    pub kind: PelletType,
}

/// Number of pellets a level starts with.
#[derive(Clone, Copy, Debug, PartialEq, Eq, Structural, Default)]
pub struct TotalPellets(pub usize);

/// What eating pellets on one tick comes to.
#[derive(Debug)]
pub struct PelletsRemoved {
    /// An event for each pellet eaten, in the order of the pellets.
    pub eaten: Vec<PelletEaten>,
    /// No pellet was left when the tick began: the level is complete.
    pub level_complete: bool,
    /// The munching sound is due: the level goes on, and the last pellet
    /// eaten on the tick was a regular one.
    pub munch: bool,
}

/// The digit of `s` at place `i`, zero past the end.
pub open spec fn digit_at(s: Seq<u8>, i: int) -> int {
    if i < s.len() {
        s[i] - 48
    } else {
        0
    }
}

/// The eighths that the decimal places `frac` come to, if they come to a
/// whole number of eighths: their first three places are a multiple of 125
/// thousandths, and all later places are zero.
pub open spec fn fraction_eighths(frac: Seq<u8>) -> Option<int> {
    let thousandths = 100 * digit_at(frac, 0) + 10 * digit_at(frac, 1) + digit_at(frac, 2);
    if thousandths % 125 == 0 && (forall|i: int| 3 <= i < frac.len() ==> #[trigger] frac[i] == 48) {
        Some(thousandths / 125)
    } else {
        None
    }
}

/// The coordinate, in eighths of a tile, that the text `s` writes in tiles:
/// an optional sign, digits before and after an optional decimal point with
/// at least one digit in all. There is none if the text is not of that form,
/// if the number is not a whole number of eighths, or if it is further than
/// [`COORD_LIMIT`] eighths from zero.
pub open spec fn spec_coordinate(s: Seq<u8>) -> Option<int> {
    let signed = s.len() > 0 && (s[0] == 45 || s[0] == 43);
    let body = if signed {
        s.skip(1)
    } else {
        s
    };
    let dot = find_byte(body, 46, 0);
    let whole = body.take(dot);
    let frac = if dot < body.len() {
        body.skip(dot + 1)
    } else {
        Seq::empty()
    };
    if whole.len() + frac.len() == 0 || !all_digits(whole) || !all_digits(frac) {
        None
    } else if fraction_eighths(frac) is None || 8 * digits_value(whole) + fraction_eighths(
        frac,
    )->0 > COORD_LIMIT {
        None
    } else if signed && s[0] == 45 {
        Some(-(8 * digits_value(whole) + fraction_eighths(frac)->0))
    } else {
        Some(8 * digits_value(whole) + fraction_eighths(frac)->0)
    }
}

/// The type that the text `s` names.
pub open spec fn spec_pellet_type(s: Seq<u8>) -> Option<PelletType> {
    if s =~= seq![82u8, 101u8, 103u8, 117u8, 108u8, 97u8, 114u8] {
        Some(PelletType::Regular)
    } else if s =~= seq![80u8, 111u8, 119u8, 101u8, 114u8] {
        Some(PelletType::Power)
    } else {
        None
    }
}

/// The pellet that the line `line` describes: what comes before the first
/// blank is the two coordinates, before and after the first comma, and what
/// comes after that blank is the type.
pub open spec fn spec_pellet(line: Seq<u8>) -> Option<Pellet> {
    let blank = find_byte(line, 32, 0);
    let coordinates = line.take(blank);
    let comma = find_byte(coordinates, 44, 0);
    if blank >= line.len() || comma >= coordinates.len() {
        None
    } else {
        let x = spec_coordinate(coordinates.take(comma));
        let y = spec_coordinate(coordinates.skip(comma + 1));
        let kind = spec_pellet_type(line.skip(blank + 1));
        if x is None || y is None || kind is None {
            None
        } else {
            Some(Pellet { location: Location { x: x->0 as i32, y: y->0 as i32 }, kind: kind->0 })
        }
    }
}

/// Every line of the text `s` describes a pellet.
pub open spec fn well_formed_pellets_text(s: Seq<u8>) -> bool {
    forall|i: int| 0 <= i < spec_lines(s).len() ==> spec_pellet(#[trigger] spec_lines(s)[i]) is Some
}

/// The eighths that the decimal places `frac`, all digits, come to.
fn parse_fraction(frac: &[u8]) -> (r: Option<u64>)
    requires
        all_digits(frac@),
    ensures
        r matches Some(v) ==> fraction_eighths(frac@) == Some(v as int) && v < 8,
        r is None ==> fraction_eighths(frac@) is None,
{
    let n: usize = frac.len();
    let d0: u64 = if 0 < n {
        (frac[0] - 48) as u64
    } else {
        0
    };
    let d1: u64 = if 1 < n {
        (frac[1] - 48) as u64
    } else {
        0
    };
    let d2: u64 = if 2 < n {
        (frac[2] - 48) as u64
    } else {
        0
    };
    let thousandths: u64 = 100 * d0 + 10 * d1 + d2;
    if thousandths % 125 != 0 {
        return None;
    }
    let mut i: usize = 3;
    while i < n
        invariant
            3 <= i,
            n == frac@.len(),
            forall|k: int| 3 <= k < i && k < n ==> #[trigger] frac@[k] == 48,
        decreases n - i,
    {
        if frac[i] != 48 {
            return None;
        }
        i = i + 1;
    }
    Some(thousandths / 125)
}

/// The coordinate that the text `s` writes (see [`spec_coordinate`]).
pub fn parse_coordinate(s: &[u8]) -> (r: Option<i32>)
    ensures
        r is Some <==> spec_coordinate(s@) is Some,
        r matches Some(c) ==> spec_coordinate(s@) == Some(c as int) && -COORD_LIMIT <= c
            <= COORD_LIMIT,
{
    let n: usize = s.len();
    let signed = n > 0 && (s[0] == 45 || s[0] == 43);
    let negative = signed && s[0] == 45;
    let body = if signed {
        slice_subrange(s, 1, n)
    } else {
        s
    };
    proof {
        if signed {
            assert(s@.subrange(1, n as int) =~= s@.skip(1));
        }
        lemma_find_byte(body@, 46, 0);
    }
    let m: usize = body.len();
    let dot: usize = find(body, 46, 0);
    let whole = slice_subrange(body, 0, dot);
    let frac = if dot < m {
        slice_subrange(body, dot + 1, m)
    } else {
        slice_subrange(body, m, m)
    };
    proof {
        assert(body@.subrange(0, dot as int) =~= body@.take(dot as int));
        if dot < m {
            assert(body@.subrange(dot + 1, m as int) =~= body@.skip(dot + 1));
        } else {
            assert(body@.subrange(m as int, m as int) =~= Seq::<u8>::empty());
        }
    }
    if whole.len() + frac.len() == 0 {
        return None;
    }
    let tiles: u64 = match parse_digits(whole, 0x200_0000) {
        Some(v) => v,
        None => {
            proof {
                if all_digits(whole@) {
                    assert(8 * digits_value(whole@) > COORD_LIMIT);
                    if all_digits(frac@) && fraction_eighths(frac@) is Some {
                        assert(fraction_eighths(frac@)->0 >= 0);
                    }
                }
            }
            return None;
        },
    };
    if !is_all_digits(frac) {
        return None;
    }
    let eighths: u64 = match parse_fraction(frac) {
        Some(v) => v,
        None => {
            return None;
        },
    };
    let magnitude: u64 = 8 * tiles + eighths;
    if magnitude > 0x1000_0000 {
        return None;
    }
    if negative {
        Some(-(magnitude as i32))
    } else {
        Some(magnitude as i32)
    }
}

/// The type that the text `s` names.
pub fn parse_pellet_type(s: &[u8]) -> (r: Option<PelletType>)
    ensures
        r == spec_pellet_type(s@),
{
    if s.len() == 7 && s[0] == 82 && s[1] == 101 && s[2] == 103 && s[3] == 117 && s[4] == 108
        && s[5] == 97 && s[6] == 114 {
        assert(s@ =~= seq![82u8, 101u8, 103u8, 117u8, 108u8, 97u8, 114u8]);
        Some(PelletType::Regular)
    } else if s.len() == 5 && s[0] == 80 && s[1] == 111 && s[2] == 119 && s[3] == 101 && s[4]
        == 114 {
        assert(s@ =~= seq![80u8, 111u8, 119u8, 101u8, 114u8]);
        Some(PelletType::Power)
    } else {
        proof {
            let regular = seq![82u8, 101u8, 103u8, 117u8, 108u8, 97u8, 114u8];
            let power = seq![80u8, 111u8, 119u8, 101u8, 114u8];
            if s@ =~= regular {
                assert(s@.len() == 7);
                assert(s@[0] == regular[0] && s@[1] == regular[1] && s@[2] == regular[2] && s@[3]
                    == regular[3] && s@[4] == regular[4] && s@[5] == regular[5] && s@[6]
                    == regular[6]);
            }
            if s@ =~= power {
                assert(s@.len() == 5);
                assert(s@[0] == power[0] && s@[1] == power[1] && s@[2] == power[2] && s@[3]
                    == power[3] && s@[4] == power[4]);
            }
        }
        None
    }
}

/// The pellet that the line `line` describes (see [`spec_pellet`]).
pub fn parse_pellet(line: &[u8]) -> (r: Option<Pellet>)
    ensures
        r == spec_pellet(line@),
        r matches Some(p) ==> p.location.fits(),
{
    let n: usize = line.len();
    let blank: usize = find(line, 32, 0);
    let coordinates = slice_subrange(line, 0, blank);
    proof {
        assert(line@.subrange(0, blank as int) =~= line@.take(blank as int));
    }
    let comma: usize = find(coordinates, 44, 0);
    if blank >= n || comma >= coordinates.len() {
        return None;
    }
    let x_text = slice_subrange(coordinates, 0, comma);
    let y_text = slice_subrange(coordinates, comma + 1, blank);
    let kind_text = slice_subrange(line, blank + 1, n);
    proof {
        assert(coordinates@.subrange(0, comma as int) =~= coordinates@.take(comma as int));
        assert(coordinates@.subrange(comma + 1, blank as int) =~= coordinates@.skip(comma + 1));
        assert(line@.subrange(blank + 1, n as int) =~= line@.skip(blank + 1));
    }
    let x = parse_coordinate(x_text);
    let y = parse_coordinate(y_text);
    let kind = parse_pellet_type(kind_text);
    match (x, y, kind) {
        (Some(x), Some(y), Some(kind)) => Some(Pellet { location: Location { x, y }, kind }),
        _ => None,
    }
}

/// The pellets that the text describes, one for each line and in the order
/// of the lines, if every line describes a pellet.
pub fn try_parse_pellets(text: &str) -> (r: Option<Vec<Pellet>>)
    ensures
        r is Some <==> well_formed_pellets_text(text.spec_bytes()),
        r matches Some(pellets) ==> pellets@.len() == spec_lines(text.spec_bytes()).len()
            && forall|i: int|
            0 <= i < pellets@.len() ==> Some(#[trigger] pellets@[i]) == spec_pellet(
                spec_lines(text.spec_bytes())[i],
            ) && pellets@[i].location.fits(),
{
    let bytes = text.as_bytes();
    let ranges = split_lines(bytes);
    let ghost lines = spec_lines(bytes@);
    proof {
        lemma_line_ranges(bytes@, 0);
    }
    let mut pellets: Vec<Pellet> = Vec::new();
    let mut i: usize = 0;
    while i < ranges.len()
        invariant
            i <= ranges@.len(),
            bytes@ == text.spec_bytes(),
            lines == spec_lines(bytes@),
            ranges@.len() == lines.len(),
            forall|k: int|
                0 <= k < ranges@.len() ==> (#[trigger] ranges@[k]).0 <= ranges@[k].1 <= bytes@.len(),
            forall|k: int|
                0 <= k < ranges@.len() ==> (#[trigger] lines[k]) == bytes@.subrange(
                    ranges@[k].0 as int,
                    ranges@[k].1 as int,
                ),
            pellets@.len() == i,
            forall|k: int|
                0 <= k < i ==> Some(#[trigger] pellets@[k]) == spec_pellet(lines[k])
                    && pellets@[k].location.fits(),
        decreases ranges@.len() - i,
    {
        let line = slice_subrange(bytes, ranges[i].0, ranges[i].1);
        assert(line@ == lines[i as int]);
        match parse_pellet(line) {
            Some(pellet) => {
                pellets.push(pellet);
            },
            None => {
                assert(spec_pellet(spec_lines(bytes@)[i as int]) is None);
                return None;
            },
        }
        i = i + 1;
    }
    proof {
        assert forall|k: int| 0 <= k < spec_lines(bytes@).len() implies spec_pellet(
            #[trigger] spec_lines(bytes@)[k],
        ) is Some by {
            assert(Some(pellets@[k]) == spec_pellet(lines[k]));
        }
    }
    Some(pellets)
}

/// The pellets that the text describes.
pub fn parse_pellets(text: &str) -> (r: Vec<Pellet>)
    requires
        well_formed_pellets_text(text.spec_bytes()),
    ensures
        r@.len() == spec_lines(text.spec_bytes()).len(),
        forall|i: int|
            0 <= i < r@.len() ==> Some(#[trigger] r@[i]) == spec_pellet(
                spec_lines(text.spec_bytes())[i],
            ) && r@[i].location.fits(),
{
    match try_parse_pellets(text) {
        Some(pellets) => pellets,
        None => vstd::pervasive::unreached(),
    }
}

/// The player was reported at `location`.
pub open spec fn spec_player_was_at(player_locations: Seq<PlayerAt>, location: Location) -> bool {
    exists|k: int|
        0 <= k < player_locations.len() && (#[trigger] player_locations[k]).location == location
}

/// Whether the player was reported at `location`.
pub fn player_was_at(player_locations: &Vec<PlayerAt>, location: Location) -> (r: bool)
    ensures
        r == spec_player_was_at(player_locations@, location),
{
    let mut i: usize = 0;
    while i < player_locations.len()
        invariant
            i <= player_locations.len(),
            forall|k: int| 0 <= k < i ==> (#[trigger] player_locations@[k]).location != location,
        decreases player_locations.len() - i,
    {
        if player_locations[i].location == location {
            return true;
        }
        i = i + 1;
    }
    false
}

/// The pellets of `pellets` that the player was not reported at.
pub open spec fn spec_left(pellets: Seq<Pellet>, player_locations: Seq<PlayerAt>) -> Seq<Pellet> {
    pellets.filter(|p: Pellet| !spec_player_was_at(player_locations, p.location))
}

/// An event for each pellet of `pellets` that the player was reported at.
pub open spec fn spec_eaten_pellets(
    pellets: Seq<Pellet>,
    player_locations: Seq<PlayerAt>,
) -> Seq<PelletEaten> {
    pellets.filter(|p: Pellet| spec_player_was_at(player_locations, p.location)).map_values(
        |p: Pellet| PelletEaten { power: p.kind == PelletType::Power },
    )
}

/// Takes the pellets off the field that lie on a tile the player was
/// reported at, and says what was eaten. The level is complete when no
/// pellet was on the field to begin with; else the munching sound is due if
/// the last pellet eaten is a regular one.
pub fn remove_pellets(pellets: &mut Vec<Pellet>, player_locations: &Vec<PlayerAt>) -> (r:
    PelletsRemoved)
    ensures
        final(pellets)@ == spec_left(old(pellets)@, player_locations@),
        r.eaten@ == spec_eaten_pellets(old(pellets)@, player_locations@),
        r.level_complete == (old(pellets)@.len() == 0),
        r.munch == (!r.level_complete && r.eaten@.len() > 0 && !r.eaten@.last().power),
{
    let n: usize = pellets.len();
    let mut left: Vec<Pellet> = Vec::new();
    let mut eaten: Vec<PelletEaten> = Vec::new();
    let ghost stay = |p: Pellet| !spec_player_was_at(player_locations@, p.location);
    let ghost go = |p: Pellet| spec_player_was_at(player_locations@, p.location);
    let ghost event = |p: Pellet| PelletEaten { power: p.kind == PelletType::Power };
    let mut i: usize = 0;
    proof {
        reveal(Seq::filter);
        assert(pellets@.take(0) =~= Seq::<Pellet>::empty());
        assert(pellets@.take(0).filter(go).map_values(event) =~= Seq::<PelletEaten>::empty());
    }
    while i < n
        invariant
            i <= n,
            n == pellets@.len(),
            pellets@ == old(pellets)@,
            stay == (|p: Pellet| !spec_player_was_at(player_locations@, p.location)),
            go == (|p: Pellet| spec_player_was_at(player_locations@, p.location)),
            event == (|p: Pellet| PelletEaten { power: p.kind == PelletType::Power }),
            left@ == pellets@.take(i as int).filter(stay),
            eaten@ == pellets@.take(i as int).filter(go).map_values(event),
        decreases n - i,
    {
        let p = pellets[i];
        proof {
            reveal(Seq::filter);
            assert(pellets@.take(i + 1).drop_last() =~= pellets@.take(i as int));
            assert(pellets@.take(i + 1).last() == p);
        }
        if player_was_at(player_locations, p.location) {
            eaten.push(PelletEaten { power: p.kind == PelletType::Power });
            proof {
                let before = pellets@.take(i as int).filter(go);
                assert(before.push(p).map_values(event) =~= before.map_values(event).push(
                    event(p),
                ));
            }
        } else {
            left.push(p);
        }
        i = i + 1;
    }
    proof {
        assert(pellets@.take(n as int) =~= pellets@);
    }
    let level_complete = n == 0;
    let munch = !level_complete && eaten.len() > 0 && !eaten[eaten.len() - 1].power;
    *pellets = left;
    PelletsRemoved { eaten, level_complete, munch }
}

} // verus!
