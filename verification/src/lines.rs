//! Lines of a text, as the rope counts them.
//!
//! A line ends after a line break: LF, VT, FF, CR, NEL, LS or PS, where a CR
//! directly followed by an LF makes one break together with it. Line 0
//! starts at the start of the text, and every other line starts right after
//! a break. A text that ends with a break has an empty last line.
use vstd::prelude::*;

verus! {

/// The chars that end a line.
pub open spec fn is_line_break(c: char) -> bool {
    ||| c == '\n'
    ||| c == '\u{0B}'
    ||| c == '\u{0C}'
    ||| c == '\r'
    ||| c == '\u{85}'
    ||| c == '\u{2028}'
    ||| c == '\u{2029}'
}

/// Position `p` (a place between chars) starts a line other than the first:
/// a break ends just before it, and that break is not the CR of a CR LF pair.
pub open spec fn starts_line(s: Seq<char>, p: int) -> bool {
    &&& 0 < p <= s.len()
    &&& is_line_break(s[p - 1])
    &&& !(s[p - 1] == '\r' && p < s.len() && s[p] == '\n')
}

/// The index of the line that position `i` lies on: the number of line
/// breaks that end at or before it.
pub open spec fn line_index(s: Seq<char>, i: int) -> nat
    decreases i,
{
    if i <= 0 {
        0
    } else {
        line_index(s, i - 1) + if starts_line(s, i) {
            1nat
        } else {
            0nat
        }
    }
}

/// The number of lines of a text: one more than its line breaks.
pub open spec fn line_count(s: Seq<char>) -> nat {
    line_index(s, s.len() as int) + 1
}

/// `p` is the position where line `l` starts.
pub open spec fn is_start_of_line(s: Seq<char>, l: nat, p: int) -> bool {
    &&& 0 <= p <= s.len()
    &&& line_index(s, p) == l
    &&& (p == 0 || starts_line(s, p))
}

/// The position where line `l` starts; for `l` past the last line, the end
/// of the text.
pub open spec fn line_start(s: Seq<char>, l: nat) -> nat {
    if l < line_count(s) {
        (choose|p: int| is_start_of_line(s, l, p)) as nat
    } else {
        s.len()
    }
}

/// Line indices never decrease along the text, and grow by at most one per
/// char.
pub proof fn lemma_line_index_monotone(s: Seq<char>, i: int, j: int)
    requires
        0 <= i <= j,
    ensures
        line_index(s, i) <= line_index(s, j),
        line_index(s, j) - line_index(s, i) <= j - i,
    decreases j - i,
{
    if i < j {
        lemma_line_index_monotone(s, i, j - 1);
    }
}

/// Past a position that starts a line, the line index is at least one more
/// than anywhere before it.
proof fn lemma_after_start(s: Seq<char>, i: int, p: int)
    requires
        0 <= i < p,
        starts_line(s, p),
    ensures
        line_index(s, p) >= line_index(s, i) + 1,
{
    lemma_line_index_monotone(s, i, p - 1);
}

/// Every line up to the one at position `i` starts at or before `i`.
proof fn lemma_start_exists_before(s: Seq<char>, l: nat, i: int)
    requires
        0 <= i <= s.len(),
        l <= line_index(s, i),
    ensures
        exists|p: int| p <= i && #[trigger] is_start_of_line(s, l, p),
    decreases i,
{
    if l == 0 {
        assert(is_start_of_line(s, l, 0));
    } else if l <= line_index(s, i - 1) {
        lemma_start_exists_before(s, l, i - 1);
    } else {
        assert(is_start_of_line(s, l, i));
    }
}

/// Two starts of one line are the same position.
proof fn lemma_start_unique(s: Seq<char>, l: nat, p: int, q: int)
    requires
        is_start_of_line(s, l, p),
        is_start_of_line(s, l, q),
    ensures
        p == q,
{
    if p < q {
        lemma_after_start(s, p, q);
    } else if q < p {
        lemma_after_start(s, q, p);
    }
}

/// What `line_start` gives: for a line of the text, its start; past the
/// last line, the end of the text.
pub proof fn lemma_line_start(s: Seq<char>, l: nat)
    ensures
        l < line_count(s) ==> is_start_of_line(s, l, line_start(s, l) as int),
        l >= line_count(s) ==> line_start(s, l) == s.len(),
        line_start(s, l) <= s.len(),
{
    if l < line_count(s) {
        lemma_start_exists_before(s, l, s.len() as int);
    }
}

/// A position that starts line `l` is `line_start(s, l)`.
pub proof fn lemma_line_start_is(s: Seq<char>, l: nat, p: int)
    requires
        is_start_of_line(s, l, p),
    ensures
        line_start(s, l) == p,
{
    lemma_line_index_monotone(s, p, s.len() as int);
    lemma_line_start(s, l);
    lemma_start_unique(s, l, p, line_start(s, l) as int);
}

/// Position `i` lies on a line of the text, and that line starts at or
/// before `i`.
pub proof fn lemma_line_of_position(s: Seq<char>, i: int)
    requires
        0 <= i <= s.len(),
    ensures
        line_index(s, i) < line_count(s),
        line_start(s, line_index(s, i)) <= i,
{
    let l = line_index(s, i);
    lemma_line_index_monotone(s, i, s.len() as int);
    lemma_line_start(s, l);
    let p = line_start(s, l) as int;
    if p > i {
        lemma_after_start(s, i, p);
    }
}

/// A position before the start of a line lies on an earlier line.
pub proof fn lemma_before_line_start(s: Seq<char>, l: nat, p: int)
    requires
        0 <= p,
        p < line_start(s, l),
    ensures
        line_index(s, p) < l,
{
    lemma_line_start(s, l);
    if line_index(s, p) >= l {
        if l < line_count(s) {
            lemma_start_exists_before(s, l, p);
            let q = choose|q: int| q <= p && #[trigger] is_start_of_line(s, l, q);
            lemma_line_start_is(s, l, q);
        } else {
            lemma_line_index_monotone(s, p, s.len() as int);
        }
    }
}

/// A position from the start of line `l` up to (not including) the start
/// of line `l + 1` lies on line `l`.
pub proof fn lemma_on_line(s: Seq<char>, l: nat, p: int)
    requires
        l < line_count(s),
        line_start(s, l) <= p < line_start(s, l + 1),
    ensures
        line_index(s, p) == l,
{
    lemma_line_start(s, l);
    lemma_line_index_monotone(s, line_start(s, l) as int, p);
    lemma_before_line_start(s, l + 1, p);
}

/// Lines of the text start in order.
pub proof fn lemma_line_starts_increase(s: Seq<char>, l1: nat, l2: nat)
    requires
        l1 < l2 < line_count(s),
    ensures
        line_start(s, l1) < line_start(s, l2),
{
    lemma_line_start(s, l1);
    lemma_line_start(s, l2);
    let p1 = line_start(s, l1) as int;
    let p2 = line_start(s, l2) as int;
    if p2 <= p1 {
        lemma_line_index_monotone(s, p2, p1);
    }
}

/// Lines start in order up to one past the last line.
pub proof fn lemma_line_starts_ordered(s: Seq<char>, l1: nat, l2: nat)
    requires
        l1 <= l2,
    ensures
        line_start(s, l1) <= line_start(s, l2),
{
    lemma_line_start(s, l1);
    lemma_line_start(s, l2);
    if l1 < l2 && l2 < line_count(s) {
        lemma_line_starts_increase(s, l1, l2);
    }
}

/// Every line from `a` up to (not including) `b` starts at or after line
/// `a`, and the line after it starts at or before line `b`.
pub proof fn lemma_lines_between(s: Seq<char>, a: nat, b: nat)
    ensures
        forall|l: nat|
            a <= l < b ==> line_start(s, a) <= #[trigger] line_start(s, l) && line_start(s, l + 1)
                <= line_start(s, b),
{
    assert forall|l: nat| a <= l < b implies line_start(s, a) <= #[trigger] line_start(s, l)
        && line_start(s, l + 1) <= line_start(s, b) by {
        lemma_line_starts_ordered(s, a, l);
        lemma_line_starts_ordered(s, l + 1, b);
    }
}

} // verus!
