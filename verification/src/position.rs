//! Translation of byte offsets into 1-based line/column positions.

use vstd::prelude::*;

verus! {

/// The byte value of a line feed.
pub open spec fn newline_byte() -> u8 {
    10u8
}

/// Clamps an offset into the range of valid positions of a text of
/// length `len`: positions run from 0 (before the first byte) to `len`
/// (after the last byte).
pub open spec fn clip_offset(len: int, off: int) -> int {
    if off < 0 {
        0
    } else if off > len {
        len
    } else {
        off
    }
}

/// Number of line feeds in `b`.
pub open spec fn count_newlines(b: Seq<u8>) -> int
    decreases b.len(),
{
    if b.len() == 0 {
        0
    } else {
        count_newlines(b.drop_last()) + if b.last() == newline_byte() {
            1int
        } else {
            0int
        }
    }
}

/// Saturates a mathematical integer at the largest `usize` value, so
/// that positions of texts too large for the machine still have a
/// defined rendering.
pub open spec fn sat_usize(i: int) -> int {
    if i > usize::MAX as int {
        usize::MAX as int
    } else {
        i
    }
}

/// 1-based line number of the position `off` bytes into `b`, saturated
/// at `usize::MAX`: one more than the number of line feeds before the
/// position.
pub open spec fn line_at(b: Seq<u8>, off: int) -> int {
    sat_usize(1 + count_newlines(b.take(clip_offset(b.len() as int, off))))
}

/// Index of the first byte of the line holding the position `off` bytes
/// into `b`: one past the last line feed before the position.
pub open spec fn line_start_at(b: Seq<u8>, off: int) -> int
    decreases clip_offset(b.len() as int, off),
{
    let c = clip_offset(b.len() as int, off);
    if c <= 0 {
        0
    } else if b[c - 1] == newline_byte() {
        c
    } else {
        line_start_at(b, c - 1)
    }
}

/// 1-based column of the position `off` bytes into `b`, saturated at
/// `usize::MAX`: the distance from the start of its line, plus one.
pub open spec fn col_at(b: Seq<u8>, off: int) -> int {
    sat_usize(clip_offset(b.len() as int, off) - line_start_at(b, off) + 1)
}

proof fn lemma_count_newlines_bound(b: Seq<u8>)
    ensures
        0 <= count_newlines(b) <= b.len(),
    decreases b.len(),
{
    if b.len() > 0 {
        lemma_count_newlines_bound(b.drop_last());
    }
}

proof fn lemma_line_start_bounds(b: Seq<u8>, off: int)
    ensures
        0 <= line_start_at(b, off) <= clip_offset(b.len() as int, off),
    decreases clip_offset(b.len() as int, off),
{
    let c = clip_offset(b.len() as int, off);
    if c > 0 && b[c - 1] != newline_byte() {
        lemma_line_start_bounds(b, c - 1);
        assert(clip_offset(b.len() as int, c - 1) == c - 1);
    }
}

/// 1-based line and column of the position `off` bytes into `b`.
///
/// An offset past the end of the text is treated as the position just
/// after the last byte.
pub fn to_linecol(b: &[u8], off: usize) -> (r: (usize, usize))
    ensures
        r.0 == line_at(b@, off as int),
        r.1 == col_at(b@, off as int),
{
    let len: usize = b.len();
    let end: usize = if off <= len {
        off
    } else {
        len
    };
    let mut line: usize = 1;
    let mut start: usize = 0;
    let mut i: usize = 0;
    while i < end
        invariant
            0 <= i <= end <= b@.len(),
            end == clip_offset(b@.len() as int, off as int),
            line == sat_usize(1 + count_newlines(b@.take(i as int))),
            start == line_start_at(b@, i as int),
            start <= i,
        decreases end - i,
    {
        proof {
            assert(b@.take(i + 1).drop_last() =~= b@.take(i as int));
            assert(b@.take(i + 1).last() == b@[i as int]);
            lemma_count_newlines_bound(b@.take(i as int));
            assert(clip_offset(b@.len() as int, i + 1) == i + 1);
        }
        if b[i] == 10u8 {
            if line < usize::MAX {
                line = line + 1;
            }
            start = i + 1;
        }
        i = i + 1;
    }
    proof {
        lemma_line_start_bounds(b@, end as int);
    }
    let col: usize = if end - start < usize::MAX {
        end - start + 1
    } else {
        usize::MAX
    };
    (line, col)
}

} // verus!
