//! Dotted version strings such as `1.10.0`, read as their numeric segments.

use vstd::prelude::*;

verus! {

/// True for the ASCII digits `0`..=`9`.
pub open spec fn is_digit(c: char) -> bool {
    '0' <= c && c <= '9'
}

/// The numeric value of an ASCII digit.
pub open spec fn digit_value(c: char) -> nat {
    (c as nat - '0' as nat) as nat
}

/// The pieces of `s` between the `.` separators; `""` has one empty piece.
pub open spec fn dot_pieces(s: Seq<char>) -> Seq<Seq<char>>
    decreases s.len(),
{
    if s.len() == 0 {
        seq![Seq::<char>::empty()]
    } else {
        let p = dot_pieces(s.drop_last());
        if s.last() == '.' {
            p.push(Seq::<char>::empty())
        } else {
            p.update(p.len() - 1, p.last().push(s.last()))
        }
    }
}

/// The longest prefix of `s` made of ASCII digits.
pub open spec fn leading_digits(s: Seq<char>) -> Seq<char>
    decreases s.len(),
{
    if s.len() == 0 {
        s
    } else if leading_digits(s.drop_last()).len() == s.len() - 1 && is_digit(s.last()) {
        s
    } else {
        leading_digits(s.drop_last())
    }
}

/// The decimal number written by a run of digits.
pub open spec fn decimal_value(d: Seq<char>) -> nat
    decreases d.len(),
{
    if d.len() == 0 {
        0
    } else {
        decimal_value(d.drop_last()) * 10 + digit_value(d.last())
    }
}

/// The number a piece contributes: its leading digits read as a `u64`; none
/// when it has no leading digit or the number does not fit in a `u64`.
pub open spec fn piece_number(piece: Seq<char>) -> Option<u64> {
    let d = leading_digits(piece);
    if d.len() == 0 || decimal_value(d) > u64::MAX {
        None
    } else {
        Some(decimal_value(d) as u64)
    }
}

/// The numbers of the pieces that have one, in order.
pub open spec fn piece_numbers(pieces: Seq<Seq<char>>) -> Seq<u64>
    decreases pieces.len(),
{
    if pieces.len() == 0 {
        Seq::<u64>::empty()
    } else {
        let rest = piece_numbers(pieces.drop_last());
        match piece_number(pieces.last()) {
            Some(n) => rest.push(n),
            None => rest,
        }
    }
}

/// The numeric segments of a version string.
pub open spec fn version_segments(s: Seq<char>) -> Seq<u64> {
    piece_numbers(dot_pieces(s))
}

/// Segment `i` of `v`, where missing trailing segments count as `0`.
pub open spec fn segment_or_zero(v: Seq<u64>, i: int) -> u64 {
    if 0 <= i < v.len() {
        v[i]
    } else {
        0
    }
}

/// Three-way comparison of two segment lists from index `i` on:
/// `-1`, `0` or `1` by the first index at which they differ.
pub open spec fn compare_segments_from(a: Seq<u64>, b: Seq<u64>, i: int) -> int
    decreases (if a.len() > b.len() { a.len() } else { b.len() }) - i,
{
    if i < 0 || i >= a.len() && i >= b.len() {
        0
    } else if segment_or_zero(a, i) < segment_or_zero(b, i) {
        -1
    } else if segment_or_zero(a, i) > segment_or_zero(b, i) {
        1
    } else {
        compare_segments_from(a, b, i + 1)
    }
}

/// How version `a` orders against version `b`: `-1` lower, `0` equal, `1` higher.
pub open spec fn version_order(a: Seq<char>, b: Seq<char>) -> int {
    compare_segments_from(version_segments(a), version_segments(b), 0)
}

proof fn lemma_leading_digits_prefix(s: Seq<char>)
    ensures
        leading_digits(s).len() <= s.len(),
        leading_digits(s) =~= s.subrange(0, leading_digits(s).len() as int),
    decreases s.len(),
{
    if s.len() > 0 {
        lemma_leading_digits_prefix(s.drop_last());
    }
}

proof fn lemma_decimal_value_grows(d: Seq<char>, c: char)
    requires
        is_digit(c),
    ensures
        decimal_value(d.push(c)) == decimal_value(d) * 10 + digit_value(c),
        decimal_value(d.push(c)) >= decimal_value(d),
{
    assert(d.push(c).drop_last() =~= d);
}

/// Reads the numeric segments of a version string, left to right.
pub fn parse_version_segments(v: &str) -> (segs: Vec<u64>)
    ensures
        segs@ == version_segments(v@),
{
    let mut segs: Vec<u64> = Vec::new();
    // The piece being read: the value of its leading digits so far, whether it
    // has any, whether that value left the `u64` range, and whether every
    // character of the piece so far is a digit.
    let mut value: u64 = 0;
    let mut has_digits = false;
    let mut overflowed = false;
    let mut in_digits = true;
    let ghost mut prefix: Seq<char> = Seq::empty();
    for c in it: v.chars()
        invariant
            it.seq() == v@,
            prefix == v@.subrange(0, it.index()),
            dot_pieces(prefix).len() >= 1,
            segs@ == piece_numbers(dot_pieces(prefix).drop_last()),
            has_digits <==> leading_digits(dot_pieces(prefix).last()).len() > 0,
            in_digits <==> leading_digits(dot_pieces(prefix).last()).len()
                == dot_pieces(prefix).last().len(),
            overflowed <==> decimal_value(leading_digits(dot_pieces(prefix).last())) > u64::MAX,
            !overflowed ==> value == decimal_value(leading_digits(dot_pieces(prefix).last())),
    {
        let ghost old_prefix = prefix;
        let ghost old_pieces = dot_pieces(old_prefix);
        let ghost last = old_pieces.last();
        proof {
            prefix = v@.subrange(0, it.index() + 1);
            assert(prefix.drop_last() =~= old_prefix);
            assert(prefix.last() == c);
            lemma_leading_digits_prefix(last);
        }
        if c == '.' {
            if has_digits && !overflowed {
                segs.push(value);
            }
            proof {
                let p = dot_pieces(prefix);
                assert(p == old_pieces.push(Seq::<char>::empty()));
                assert(p.drop_last() =~= old_pieces);
                assert(old_pieces =~= old_pieces.drop_last().push(last));
                assert(piece_numbers(old_pieces) == match piece_number(last) {
                    Some(n) => piece_numbers(old_pieces.drop_last()).push(n),
                    None => piece_numbers(old_pieces.drop_last()),
                });
            }
            value = 0;
            has_digits = false;
            overflowed = false;
            in_digits = true;
        } else {
            proof {
                let p = dot_pieces(prefix);
                assert(p == old_pieces.update(old_pieces.len() - 1, last.push(c)));
                assert(p.drop_last() =~= old_pieces.drop_last());
                assert(p.last() == last.push(c));
                assert(last.push(c).drop_last() =~= last);
            }
            if in_digits && '0' <= c && c <= '9' {
                let d: u64 = (c as u32 - '0' as u32) as u64;
                proof {
                    lemma_decimal_value_grows(last, c);
                    assert(leading_digits(last) =~= last);
                }
                if !overflowed {
                    match value.checked_mul(10) {
                        Some(t) => match t.checked_add(d) {
                            Some(n) => {
                                value = n;
                            },
                            None => {
                                overflowed = true;
                            },
                        },
                        None => {
                            overflowed = true;
                        },
                    }
                }
                has_digits = true;
            } else {
                in_digits = false;
            }
        }
    }
    proof {
        assert(prefix =~= v@);
        let p = dot_pieces(prefix);
        assert(p =~= p.drop_last().push(p.last()));
    }
    if has_digits && !overflowed {
        segs.push(value);
    }
    segs
}

/// Three-way comparison of two segment lists, missing segments read as `0`.
pub fn compare_segments(a: &Vec<u64>, b: &Vec<u64>) -> (r: i8)
    ensures
        r as int == compare_segments_from(a@, b@, 0),
{
    let n = if a.len() > b.len() { a.len() } else { b.len() };
    let mut i: usize = 0;
    while i < n
        invariant
            n == (if a.len() > b.len() { a.len() } else { b.len() }),
            i <= n,
            compare_segments_from(a@, b@, 0) == compare_segments_from(a@, b@, i as int),
        decreases n - i,
    {
        let va = if i < a.len() { a[i] } else { 0 };
        let vb = if i < b.len() { b[i] } else { 0 };
        if va < vb {
            return -1;
        }
        if va > vb {
            return 1;
        }
        i = i + 1;
    }
    0
}

proof fn lemma_compare_antisymmetric(a: Seq<u64>, b: Seq<u64>, i: int)
    requires
        i >= 0,
    ensures
        compare_segments_from(a, b, i) == -compare_segments_from(b, a, i),
        -1 <= compare_segments_from(a, b, i) <= 1,
    decreases (if a.len() > b.len() { a.len() } else { b.len() }) - i,
{
    if !(i >= a.len() && i >= b.len()) {
        lemma_compare_antisymmetric(a, b, i + 1);
    }
}

proof fn lemma_compare_reflexive(a: Seq<u64>, i: int)
    requires
        i >= 0,
    ensures
        compare_segments_from(a, a, i) == 0,
    decreases a.len() - i,
{
    if i < a.len() {
        lemma_compare_reflexive(a, i + 1);
    }
}

/// Past the end of both `a` and `b`, either compares against `c` like the other.
proof fn lemma_compare_past_end(a: Seq<u64>, b: Seq<u64>, c: Seq<u64>, i: int)
    requires
        i >= 0,
        i >= a.len(),
        i >= b.len(),
    ensures
        compare_segments_from(a, c, i) == compare_segments_from(b, c, i),
    decreases c.len() - i,
{
    if i < c.len() {
        lemma_compare_past_end(a, b, c, i + 1);
    }
}

proof fn lemma_compare_transitive(a: Seq<u64>, b: Seq<u64>, c: Seq<u64>, i: int)
    requires
        i >= 0,
        compare_segments_from(a, b, i) <= 0,
        compare_segments_from(b, c, i) <= 0,
    ensures
        compare_segments_from(a, c, i) <= 0,
    decreases (if a.len() > b.len() { if a.len() > c.len() { a.len() } else { c.len() } } else {
        if b.len() > c.len() { b.len() } else { c.len() } }) - i,
{
    if i >= a.len() && i >= b.len() {
        lemma_compare_past_end(b, a, c, i);
    } else if i >= b.len() && i >= c.len() {
        lemma_compare_antisymmetric(a, b, i);
        lemma_compare_antisymmetric(a, c, i);
        lemma_compare_past_end(b, c, a, i);
    } else if i >= a.len() && i >= c.len() {
        lemma_compare_antisymmetric(b, c, i);
        lemma_compare_antisymmetric(b, a, i);
        lemma_compare_past_end(a, c, b, i);
        lemma_compare_reflexive(b, i);
        if segment_or_zero(b, i) == 0 {
            lemma_compare_transitive(a, b, c, i + 1);
        }
    } else if segment_or_zero(a, i) == segment_or_zero(b, i) && segment_or_zero(b, i)
        == segment_or_zero(c, i) {
        lemma_compare_transitive(a, b, c, i + 1);
    }
}

/// Comparing a version with itself gives "equal".
pub proof fn version_order_reflexive(a: Seq<char>)
    ensures
        version_order(a, a) == 0,
{
    lemma_compare_reflexive(version_segments(a), 0);
}

/// Swapping the two versions reverses the comparison, and the comparison is
/// always one of `-1`, `0`, `1`.
pub proof fn version_order_antisymmetric(a: Seq<char>, b: Seq<char>)
    ensures
        version_order(a, b) == -version_order(b, a),
        -1 <= version_order(a, b) <= 1,
{
    lemma_compare_antisymmetric(version_segments(a), version_segments(b), 0);
}

/// "Not higher than" is transitive across versions.
pub proof fn version_order_transitive(a: Seq<char>, b: Seq<char>, c: Seq<char>)
    requires
        version_order(a, b) <= 0,
        version_order(b, c) <= 0,
    ensures
        version_order(a, c) <= 0,
{
    lemma_compare_transitive(version_segments(a), version_segments(b), version_segments(c), 0);
}

proof fn lemma_compare_ignores_trailing_zero(a: Seq<u64>, b: Seq<u64>, i: int)
    requires
        i >= 0,
    ensures
        compare_segments_from(a.push(0), b, i) == compare_segments_from(a, b, i),
    decreases (if a.len() + 1 > b.len() { a.len() + 1 } else { b.len() }) - i,
{
    let a2 = a.push(0);
    assert(segment_or_zero(a2, i) == segment_or_zero(a, i));
    if i >= a2.len() && i >= b.len() {
    } else if i >= a.len() && i >= b.len() {
        assert(i == a.len());
        assert(compare_segments_from(a2, b, i + 1) == 0);
    } else if segment_or_zero(a, i) != segment_or_zero(b, i) {
    } else {
        lemma_compare_ignores_trailing_zero(a, b, i + 1);
    }
}

/// Missing trailing segments count as zero: appending `.0` to a version
/// does not change how it orders against any other.
pub proof fn version_order_ignores_trailing_zero(a: Seq<char>, b: Seq<char>)
    ensures
        version_order(a + ".0"@, b) == version_order(a, b),
        version_order(b, a + ".0"@) == version_order(b, a),
{
    reveal_strlit(".0");
    let dot = a.push('.');
    let a0 = a + ".0"@;
    assert(a0 =~= dot.push('0'));
    assert(dot.drop_last() =~= a);
    assert(a0.drop_last() =~= dot);
    assert(dot_pieces(dot) == dot_pieces(a).push(Seq::<char>::empty()));
    assert(dot_pieces(a0) =~= dot_pieces(a).push(seq!['0']));
    let zero = seq!['0'];
    assert(zero.drop_last() =~= Seq::<char>::empty());
    assert(leading_digits(zero.drop_last()).len() == 0);
    assert(is_digit('0'));
    assert(leading_digits(zero) == zero);
    assert(decimal_value(zero) == 0) by {
        assert(decimal_value(zero.drop_last()) == 0);
    }
    assert(piece_number(zero) == Some(0u64));
    assert(dot_pieces(a0).drop_last() =~= dot_pieces(a));
    assert(version_segments(a0) == version_segments(a).push(0));
    lemma_compare_ignores_trailing_zero(version_segments(a), version_segments(b), 0);
    version_order_antisymmetric(b, a0);
    version_order_antisymmetric(b, a);
}

} // verus!
