//! Splitting a text into lines.
//!
//! A line ends with a line feed, which is not part of it; a carriage return
//! just before the line feed is not part of it either. The last line need
//! not end with a line feed, and nothing follows a final line feed: an empty
//! text has no line.

use vstd::prelude::*;

verus! {

/// The line feed.
pub const LINE_FEED: u8 = 10;

/// The carriage return.
pub const CARRIAGE_RETURN: u8 = 13;

/// Index of the first `b` in `s` at or after `from`, or the length of `s` if
/// there is none.
pub open spec fn find_byte(s: Seq<u8>, b: u8, from: int) -> int
    decreases s.len() - from,
{
    if from >= s.len() || s[from] == b {
        from
    } else {
        find_byte(s, b, from + 1)
    }
}

/// `find_byte` is at or after `from`, no `b` lies in between, and a `b` is
/// there unless the text is over.
pub proof fn lemma_find_byte(s: Seq<u8>, b: u8, from: int)
    requires
        0 <= from <= s.len(),
    ensures
        from <= find_byte(s, b, from) <= s.len(),
        forall|k: int| from <= k < find_byte(s, b, from) ==> s[k] != b,
        find_byte(s, b, from) < s.len() ==> s[find_byte(s, b, from)] == b,
    decreases s.len() - from,
{
    if from < s.len() && s[from] != b {
        lemma_find_byte(s, b, from + 1);
    }
}

/// Index of the first `b` in `text` at or after `from`, or the length of
/// `text` if there is none.
pub fn find(text: &[u8], b: u8, from: usize) -> (r: usize)
    requires
        from <= text@.len(),
    ensures
        r == find_byte(text@, b, from as int),
        from <= r <= text@.len(),
{
    let n: usize = text.len();
    let mut end: usize = from;
    while end < n && text[end] != b
        invariant
            from <= end <= n,
            n == text@.len(),
            find_byte(text@, b, from as int) == find_byte(text@, b, end as int),
        decreases n - end,
    {
        end = end + 1;
    }
    end
}

/// Index of the first line feed of `s` at or after `from`, or the length of
/// `s` if there is none.
pub open spec fn line_end(s: Seq<u8>, from: int) -> int {
    find_byte(s, LINE_FEED, from)
}

/// `line_end` is at or after `from`, no line feed lies in between, and a
/// line feed is there unless the text is over.
pub proof fn lemma_line_end(s: Seq<u8>, from: int)
    requires
        0 <= from <= s.len(),
    ensures
        from <= line_end(s, from) <= s.len(),
        forall|k: int| from <= k < line_end(s, from) ==> s[k] != LINE_FEED,
        line_end(s, from) < s.len() ==> s[line_end(s, from)] == LINE_FEED,
{
    lemma_find_byte(s, LINE_FEED, from);
}

/// Where the line starting at `from` stops: at its line feed, or at the
/// carriage return before it, or at the end of the text.
pub open spec fn line_stop(s: Seq<u8>, from: int) -> int {
    let end = line_end(s, from);
    if end < s.len() && from < end && s[end - 1] == CARRIAGE_RETURN {
        end - 1
    } else {
        end
    }
}

/// The lines of `s` from index `from` on, where a line starts, each as the
/// pair of the indices where it starts and stops.
pub open spec fn line_ranges(s: Seq<u8>, from: int) -> Seq<(int, int)>
    decreases s.len() + 1 - from,
{
    if from < 0 || from >= s.len() {
        Seq::empty()
    } else {
        proof {
            lemma_line_end(s, from);
        }
        seq![(from, line_stop(s, from))] + line_ranges(s, line_end(s, from) + 1)
    }
}

/// The lines of `s`.
pub open spec fn spec_lines(s: Seq<u8>) -> Seq<Seq<u8>> {
    Seq::new(
        line_ranges(s, 0).len(),
        |i: int| s.subrange(line_ranges(s, 0)[i].0, line_ranges(s, 0)[i].1),
    )
}

/// Every line lies inside the text, and no line holds a line feed.
pub proof fn lemma_line_ranges(s: Seq<u8>, from: int)
    requires
        0 <= from,
    ensures
        forall|i: int|
            0 <= i < line_ranges(s, from).len() ==> from <= (#[trigger] line_ranges(s, from)[i]).0
                <= line_ranges(s, from)[i].1 <= s.len(),
        forall|i: int, k: int|
            0 <= i < line_ranges(s, from).len() && (#[trigger] line_ranges(s, from)[i]).0 <= k
                < line_ranges(s, from)[i].1 ==> #[trigger] s[k] != LINE_FEED,
        from < s.len() ==> line_ranges(s, from).len() >= 1,
    decreases s.len() + 1 - from,
{
    if from < s.len() {
        lemma_line_end(s, from);
        let next = line_end(s, from) + 1;
        lemma_line_ranges(s, next);
        let rest = line_ranges(s, next);
        let all = line_ranges(s, from);
        assert(all == seq![(from, line_stop(s, from))] + rest);
        assert forall|i: int| 0 <= i < all.len() implies from <= (#[trigger] all[i]).0 <= all[i].1
            <= s.len() by {
            if i > 0 {
                assert(all[i] == rest[i - 1]);
            }
        }
        assert forall|i: int, k: int|
            0 <= i < all.len() && (#[trigger] all[i]).0 <= k < all[i].1 implies #[trigger] s[k]
            != LINE_FEED by {
            if i > 0 {
                assert(all[i] == rest[i - 1]);
            }
        }
    }
}

/// The lines of `text`, each as the pair of the indices where it starts and
/// stops.
pub fn split_lines(text: &[u8]) -> (r: Vec<(usize, usize)>)
    ensures
        r@.len() == line_ranges(text@, 0).len(),
        forall|i: int|
            0 <= i < r@.len() ==> (#[trigger] r@[i]).0 == line_ranges(text@, 0)[i].0 && r@[i].1
                == line_ranges(text@, 0)[i].1,
        forall|i: int| 0 <= i < r@.len() ==> (#[trigger] r@[i]).0 <= r@[i].1 <= text@.len(),
{
    let n: usize = text.len();
    let mut r: Vec<(usize, usize)> = Vec::new();
    let mut pos: usize = 0;
    let ghost mut done: Seq<(int, int)> = Seq::empty();
    while pos < n
        invariant
            pos <= n,
            n == text@.len(),
            done.len() == r@.len(),
            forall|i: int|
                0 <= i < r@.len() ==> (#[trigger] r@[i]).0 == done[i].0 && r@[i].1 == done[i].1,
            forall|i: int| 0 <= i < r@.len() ==> (#[trigger] r@[i]).0 <= r@[i].1 <= n,
            line_ranges(text@, 0) == done + line_ranges(text@, pos as int),
        decreases n - pos,
    {
        let end: usize = find(text, LINE_FEED, pos);
        proof {
            lemma_line_end(text@, pos as int);
        }
        let stop: usize = if end < n && pos < end && text[end - 1] == CARRIAGE_RETURN {
            end - 1
        } else {
            end
        };
        r.push((pos, stop));
        proof {
            let rest = line_ranges(text@, end + 1);
            assert(line_ranges(text@, pos as int) == seq![(pos as int, stop as int)] + rest);
            assert(done + (seq![(pos as int, stop as int)] + rest) =~= done.push(
                (pos as int, stop as int),
            ) + rest);
            done = done.push((pos as int, stop as int));
            assert(line_ranges(text@, n as int) =~= Seq::<(int, int)>::empty());
            assert(line_ranges(text@, n + 1) =~= Seq::<(int, int)>::empty());
        }
        if end < n {
            pos = end + 1;
        } else {
            pos = n;
        }
    }
    proof {
        assert(line_ranges(text@, pos as int) =~= Seq::<(int, int)>::empty());
        assert(done + Seq::<(int, int)>::empty() =~= done);
    }
    r
}

} // verus!
