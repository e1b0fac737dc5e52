//! The scores kept from one game to the next.
//!
//! The scores are listed in a text with one game on each line: the name of
//! the player, a colon, and the score as a decimal number.

use vstd::prelude::*;
use vstd::slice::slice_subrange;
use vstd::string::*;
use crate::digits::{all_digits, digits_value, parse_digits};
use crate::lines::{find, find_byte, lemma_line_ranges, line_ranges, spec_lines, split_lines};

verus! {

/// Longest name a player can enter.
pub const NAME_LENGTH: usize = 10;

/// One line of the scores: where the name starts and stops in the text, and
/// the score.
#[derive(Clone, Copy, Debug, PartialEq, Eq, Structural)]
pub struct Entry {
    pub name_start: usize,
    pub name_stop: usize,
    pub score: u32,
}

/// The score that the text `s` writes: digits, after an optional plus sign,
/// that write a number in the range of `u32`.
pub open spec fn spec_score(s: Seq<u8>) -> Option<u32> {
    let digits = if s.len() > 0 && s[0] == 43 {
        s.skip(1)
    } else {
        s
    };
    if digits.len() == 0 || !all_digits(digits) || digits_value(digits) > u32::MAX {
        None
    } else {
        Some(digits_value(digits) as u32)
    }
}

/// The score on the line `line`: what comes after the first colon.
pub open spec fn spec_line_score(line: Seq<u8>) -> Option<u32> {
    let colon = find_byte(line, 58, 0);
    if colon >= line.len() {
        None
    } else {
        spec_score(line.skip(colon + 1))
    }
}

/// Every line of the text `s` holds a name and a score.
pub open spec fn well_formed_scores_text(s: Seq<u8>) -> bool {
    forall|i: int|
        0 <= i < spec_lines(s).len() ==> spec_line_score(#[trigger] spec_lines(s)[i]) is Some
}

/// The score that the text `s` writes.
pub fn parse_score(s: &[u8]) -> (r: Option<u32>)
    ensures
        r == spec_score(s@),
{
    let n: usize = s.len();
    let digits = if n > 0 && s[0] == 43 {
        slice_subrange(s, 1, n)
    } else {
        s
    };
    proof {
        if n > 0 && s@[0] == 43 {
            assert(s@.subrange(1, n as int) =~= s@.skip(1));
        }
    }
    if digits.len() == 0 {
        return None;
    }
    match parse_digits(digits, 0xffff_ffff) {
        Some(v) => Some(v as u32),
        None => None,
    }
}

/// The entries of the scores text, one for each line and in the order of
/// the lines, if every line holds a name and a score. The name of an entry
/// is the part of its line before the first colon.
pub fn try_parse_scores(text: &str) -> (r: Option<Vec<Entry>>)
    ensures
        r is Some <==> well_formed_scores_text(text.spec_bytes()),
        r matches Some(entries) ==> entries@.len() == spec_lines(text.spec_bytes()).len()
            && forall|i: int|
            0 <= i < entries@.len() ==> {
                let range = line_ranges(text.spec_bytes(), 0)[i];
                let line = spec_lines(text.spec_bytes())[i];
                &&& (#[trigger] entries@[i]).name_start == range.0
                &&& entries@[i].name_stop == range.0 + find_byte(line, 58, 0)
                &&& entries@[i].name_stop < range.1 <= text.spec_bytes().len()
                &&& Some(entries@[i].score) == spec_line_score(line)
            },
{
    let bytes = text.as_bytes();
    let ranges = split_lines(bytes);
    let ghost lines = spec_lines(bytes@);
    proof {
        lemma_line_ranges(bytes@, 0);
    }
    let mut entries: Vec<Entry> = Vec::new();
    let mut i: usize = 0;
    while i < ranges.len()
        invariant
            i <= ranges@.len(),
            bytes@ == text.spec_bytes(),
            lines == spec_lines(bytes@),
            ranges@.len() == lines.len(),
            forall|k: int|
                0 <= k < ranges@.len() ==> (#[trigger] ranges@[k]).0 <= ranges@[k].1 <= bytes@.len(),
            forall|k: int|
                0 <= k < ranges@.len() ==> (#[trigger] ranges@[k]).0 == line_ranges(bytes@, 0)[k].0
                    && ranges@[k].1 == line_ranges(bytes@, 0)[k].1,
            forall|k: int|
                0 <= k < ranges@.len() ==> (#[trigger] lines[k]) == bytes@.subrange(
                    ranges@[k].0 as int,
                    ranges@[k].1 as int,
                ),
            entries@.len() == i,
            forall|k: int|
                0 <= k < i ==> {
                    &&& (#[trigger] entries@[k]).name_start == ranges@[k].0
                    &&& entries@[k].name_stop == ranges@[k].0 + find_byte(lines[k], 58, 0)
                    &&& entries@[k].name_stop < ranges@[k].1
                    &&& Some(entries@[k].score) == spec_line_score(lines[k])
                },
        decreases ranges@.len() - i,
    {
        let start: usize = ranges[i].0;
        let stop: usize = ranges[i].1;
        let line = slice_subrange(bytes, start, stop);
        assert(line@ == lines[i as int]);
        let colon: usize = find(line, 58, 0);
        if colon >= line.len() {
            assert(spec_line_score(spec_lines(bytes@)[i as int]) is None);
            return None;
        }
        let score_text = slice_subrange(line, colon + 1, line.len());
        proof {
            assert(line@.subrange(colon + 1, line@.len() as int) =~= line@.skip(colon + 1));
        }
        match parse_score(score_text) {
            Some(score) => {
                entries.push(Entry { name_start: start, name_stop: start + colon, score });
            },
            None => {
                assert(spec_line_score(spec_lines(bytes@)[i as int]) is None);
                return None;
            },
        }
        i = i + 1;
    }
    proof {
        assert forall|k: int| 0 <= k < spec_lines(bytes@).len() implies spec_line_score(
            #[trigger] spec_lines(bytes@)[k],
        ) is Some by {
            assert(Some(entries@[k].score) == spec_line_score(lines[k]));
        }
    }
    Some(entries)
}

/// The best score among `entries`; nothing if there is none.
pub open spec fn spec_high_score(entries: Seq<Entry>) -> u32
    decreases entries.len(),
{
    if entries.len() == 0 {
        0
    } else if entries.last().score > spec_high_score(entries.drop_last()) {
        entries.last().score
    } else {
        spec_high_score(entries.drop_last())
    }
}

/// The best score is at least every score, and is one of them unless there
/// is none.
pub proof fn lemma_high_score(entries: Seq<Entry>)
    ensures
        forall|i: int| 0 <= i < entries.len() ==> (#[trigger] entries[i]).score <= spec_high_score(
            entries,
        ),
        entries.len() > 0 ==> exists|i: int|
            0 <= i < entries.len() && (#[trigger] entries[i]).score == spec_high_score(entries),
        entries.len() == 0 ==> spec_high_score(entries) == 0,
    decreases entries.len(),
{
    if entries.len() > 0 {
        let rest = entries.drop_last();
        lemma_high_score(rest);
        assert forall|i: int| 0 <= i < entries.len() implies (#[trigger] entries[i]).score
            <= spec_high_score(entries) by {
            if i < rest.len() {
                assert(entries[i] == rest[i]);
            }
        }
        if entries.last().score > spec_high_score(rest) || rest.len() == 0 {
            assert(entries[entries.len() - 1].score == spec_high_score(entries));
        } else {
            let i = choose|i: int| 0 <= i < rest.len() && (#[trigger] rest[i]).score
                == spec_high_score(rest);
            assert(entries[i] == rest[i]);
        }
    }
}

/// The best score among `entries`; nothing if there is none.
pub fn high_score(entries: &Vec<Entry>) -> (r: u32)
    ensures
        r == spec_high_score(entries@),
{
    let mut best: u32 = 0;
    let mut i: usize = 0;
    proof {
        assert(entries@.take(0) =~= Seq::<Entry>::empty());
    }
    while i < entries.len()
        invariant
            i <= entries.len(),
            best == spec_high_score(entries@.take(i as int)),
        decreases entries.len() - i,
    {
        proof {
            assert(entries@.take(i + 1).drop_last() =~= entries@.take(i as int));
            assert(entries@.take(i + 1).last() == entries@[i as int]);
        }
        if entries[i].score > best {
            best = entries[i].score;
        }
        i = i + 1;
    }
    proof {
        assert(entries@.take(entries@.len() as int) =~= entries@);
    }
    best
}

/// The letter that the key with the number `key_code` adds to a name: the
/// keys 0 to 8 add the digits from `0`, key 9 adds `0`, the keys 10 to 35
/// add the letters from `a`, key 76 adds a blank, and the other keys add
/// nothing.
pub open spec fn spec_name_letter(key_code: u32) -> Option<u8> {
    if key_code <= 8 {
        Some((48 + key_code) as u8)
    } else if key_code == 9 {
        Some(48u8)
    } else if key_code <= 35 {
        Some((97 + key_code - 10) as u8)
    } else if key_code == 76 {
        Some(32u8)
    } else {
        None
    }
}

/// The letter that the key with the number `key_code` adds to a name.
pub fn name_letter(key_code: u32) -> (r: Option<u8>)
    ensures
        r == spec_name_letter(key_code),
{
    if key_code <= 8 {
        Some(48 + key_code as u8)
    } else if key_code == 9 {
        Some(48)
    } else if key_code <= 35 {
        Some(97 + (key_code - 10) as u8)
    } else if key_code == 76 {
        Some(32)
    } else {
        None
    }
}

/// Whether another letter can be added to a name of `length` letters.
pub fn name_has_room(length: usize) -> (r: bool)
    ensures
        r == (length < NAME_LENGTH),
{
    length < NAME_LENGTH
}

/// The first entry shown on the leaderboard after scrolling up from
/// `top_entry_index`: the one before, if there is one.
pub fn scroll_up(top_entry_index: usize) -> (r: usize)
    ensures
        r == if top_entry_index > 0 {
            (top_entry_index - 1) as usize
        } else {
            0
        },
{
    if top_entry_index > 0 {
        top_entry_index - 1
    } else {
        top_entry_index
    }
}

/// The first entry shown on the leaderboard after scrolling down from
/// `top_entry_index`: the one after, unless it is the last of the `entries`
/// entries.
pub fn scroll_down(top_entry_index: usize, entries: usize) -> (r: usize)
    requires
        entries >= 1,
    ensures
        r == if top_entry_index < entries - 1 {
            (top_entry_index + 1) as usize
        } else {
            top_entry_index
        },
{
    if top_entry_index < entries - 1 {
        top_entry_index + 1
    } else {
        top_entry_index
    }
}

} // verus!
