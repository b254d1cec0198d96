//! Turning one line of raw player input into a candidate move.
//!
//! The rule: after surrounding whitespace is removed, the input must be
//! exactly two characters, a column letter followed by a row digit (`"c4"`).
//! The column is the letter's distance from `'a'`, the row the digit's
//! distance from `'1'`.  A character below the base does not wrap or fail:
//! the coordinate is clamped to zero.  That leniency is deliberate, observable
//! behaviour; an out-of-range character yields an edge coordinate, and only
//! the engine's legality check rejects the resulting move.

use vstd::prelude::*;
use crate::turn::Turn;

verus! {

/// ASCII whitespace as stripped from around player input.
pub open spec fn is_space(c: u8) -> bool {
    c == 32 || c == 9 || c == 10 || c == 13
}

/// `s` without its leading whitespace.
pub open spec fn drop_leading(s: Seq<u8>) -> Seq<u8>
    decreases s.len(),
{
    if s.len() > 0 && is_space(s[0]) {
        drop_leading(s.drop_first())
    } else {
        s
    }
}

/// `s` without its trailing whitespace.
pub open spec fn drop_trailing(s: Seq<u8>) -> Seq<u8>
    decreases s.len(),
{
    if s.len() > 0 && is_space(s.last()) {
        drop_trailing(s.drop_last())
    } else {
        s
    }
}

/// `s` without surrounding whitespace.
pub open spec fn trimmed(s: Seq<u8>) -> Seq<u8> {
    drop_trailing(drop_leading(s))
}

/// The coordinate encoded by character `c` relative to `base`: the distance
/// from `base`, clamped to zero when `c` lies below `base`.
pub open spec fn coord(c: u8, base: u8) -> usize {
    if c >= base {
        (c - base) as usize
    } else {
        0
    }
}

/// The move encoded by a trimmed two-character input: the column from the
/// letter (byte 97 is 'a'), the row from the digit (byte 49 is '1').
pub open spec fn turn_of_bytes(s: Seq<u8>) -> Turn
    recommends
        s.len() == 2,
{
    Turn::Valid { row: coord(s[1], 49), col: coord(s[0], 97) }
}

/// Dropping leading whitespace keeps exactly the suffix that starts at the
/// first non-whitespace position.
proof fn lemma_drop_leading_at(s: Seq<u8>, k: int)
    requires
        0 <= k <= s.len(),
        forall|i: int| 0 <= i < k ==> is_space(s[i]),
        k < s.len() ==> !is_space(s[k]),
    ensures
        drop_leading(s) == s.subrange(k, s.len() as int),
    decreases k,
{
    if k == 0 {
        assert(s.subrange(0, s.len() as int) =~= s);
    } else {
        assert(is_space(s[0]));
        let rest = s.drop_first();
        assert(forall|i: int| 0 <= i < k - 1 ==> is_space(#[trigger] rest[i]));
        lemma_drop_leading_at(rest, k - 1);
        assert(rest.subrange(k - 1, rest.len() as int) =~= s.subrange(k, s.len() as int));
    }
}

/// Dropping trailing whitespace keeps exactly the prefix that ends at the
/// last non-whitespace position.
proof fn lemma_drop_trailing_at(s: Seq<u8>, k: int)
    requires
        0 <= k <= s.len(),
        forall|i: int| k <= i < s.len() ==> is_space(s[i]),
        k > 0 ==> !is_space(s[k - 1]),
    ensures
        drop_trailing(s) == s.subrange(0, k),
    decreases s.len() - k,
{
    if k == s.len() {
        assert(s.subrange(0, s.len() as int) =~= s);
    } else {
        assert(is_space(s.last()));
        let front = s.drop_last();
        assert(forall|i: int| k <= i < front.len() ==> is_space(#[trigger] front[i]));
        lemma_drop_trailing_at(front, k);
        assert(front.subrange(0, k) =~= s.subrange(0, k));
    }
}

/// Whether `c` is ASCII whitespace.
fn is_space_byte(c: u8) -> (r: bool)
    ensures
        r == is_space(c),
{
    c == 32 || c == 9 || c == 10 || c == 13
}

/// The coordinate encoded by `c` relative to `base`, clamped to zero from
/// below.
fn coord_from(c: u8, base: u8) -> (r: usize)
    ensures
        r == coord(c, base),
{
    if c >= base {
        (c - base) as usize
    } else {
        0
    }
}

/// Parse one raw input line into a candidate move.  `None` means the trimmed
/// line is not exactly two characters long: the caller re-prompts without
/// consulting the engine.  `Some` carries the encoded candidate, which may
/// still name a cell that is off the board or otherwise illegal.
pub fn parse_turn(line: &[u8]) -> (r: Option<Turn>)
    ensures
        (r is Some) <==> trimmed(line@).len() == 2,
        trimmed(line@).len() == 2 ==> r == Some(turn_of_bytes(trimmed(line@))),
{
    let n: usize = line.len();
    let mut start: usize = 0;
    while start < n && is_space_byte(line[start])
        invariant
            start <= n,
            n == line@.len(),
            forall|i: int| 0 <= i < start ==> is_space(line@[i]),
        decreases n - start,
    {
        start = start + 1;
    }
    let mut end: usize = n;
    while end > start && is_space_byte(line[end - 1])
        invariant
            start <= end <= n,
            n == line@.len(),
            forall|i: int| end <= i < n ==> is_space(line@[i]),
        decreases end,
    {
        end = end - 1;
    }
    proof {
        lemma_drop_leading_at(line@, start as int);
        let mid = line@.subrange(start as int, n as int);
        assert(forall|i: int| end - start <= i < mid.len() ==> is_space(#[trigger] mid[i]));
        lemma_drop_trailing_at(mid, end - start);
        assert(mid.subrange(0, end - start) =~= line@.subrange(start as int, end as int));
    }
    if end - start != 2 {
        None
    } else {
        Some(Turn::Valid { row: coord_from(line[start + 1], 49), col: coord_from(line[start], 97) })
    }
}

} // verus!
