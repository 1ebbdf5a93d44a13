//! Small verified operations on strings: the naming conventions of object
//! keys, and a comparison whose running time does not depend on where two
//! strings differ.

use vstd::prelude::*;
use vstd::string::StringExecFns;

verus! {

/// The path separator of object keys.
pub const SEPARATOR: char = '/';

/// Whether `s` ends in the path separator.
pub open spec fn ends_with_separator(s: Seq<char>) -> bool {
    s.len() > 0 && s.last() == SEPARATOR
}

/// The position just past the last separator of `s`; 0 where `s` holds none.
pub open spec fn segment_start(s: Seq<char>) -> int
    decreases s.len(),
{
    if s.len() == 0 {
        0
    } else if s.last() == SEPARATOR {
        s.len() as int
    } else {
        segment_start(s.drop_last())
    }
}

/// What follows the last separator of `s`: all of `s` where it holds none,
/// nothing where it ends in one.
pub open spec fn last_segment(s: Seq<char>) -> Seq<char> {
    s.skip(segment_start(s))
}

/// `segment_start` marks the one place that splits `s` into a part that is
/// empty or ends in a separator and a part that holds no separator.
pub proof fn lemma_segment_start(s: Seq<char>)
    ensures
        0 <= segment_start(s) <= s.len(),
        segment_start(s) == 0 || s[segment_start(s) - 1] == SEPARATOR,
        forall|j: int| segment_start(s) <= j < s.len() ==> s[j] != SEPARATOR,
    decreases s.len(),
{
    if s.len() > 0 && s.last() != SEPARATOR {
        let front = s.drop_last();
        lemma_segment_start(front);
        assert forall|j: int| segment_start(s) <= j < s.len() implies s[j] != SEPARATOR by {
            if j < front.len() {
                assert(front[j] == s[j]);
            }
        }
    }
}

/// The last segment holds no separator, and `s` is what precedes it followed
/// by it.
pub proof fn lemma_last_segment(s: Seq<char>)
    ensures
        !last_segment(s).contains(SEPARATOR),
        s.take(segment_start(s)) + last_segment(s) == s,
        last_segment(s).len() <= s.len(),
        ends_with_separator(s) ==> last_segment(s).len() == 0,
{
    lemma_segment_start(s);
    assert(s.take(segment_start(s)) + s.skip(segment_start(s)) =~= s);
}

/// Tells whether the last character of `s` is the path separator.
pub fn has_trailing_separator(s: &str) -> (r: bool)
    ensures
        r == ends_with_separator(s@),
{
    let n: usize = s.unicode_len();
    if n == 0 {
        false
    } else {
        s.get_char(n - 1) == SEPARATOR
    }
}

/// Copies out what follows the last separator of `s`.
pub fn final_segment(s: &str) -> (r: String)
    ensures
        r@ == last_segment(s@),
{
    let n: usize = s.unicode_len();
    let mut start: usize = 0;
    let mut seen: usize = 0;
    for c in it: s.chars()
        invariant
            it.seq() == s@,
            n == s@.len(),
            seen == it.index(),
            start == segment_start(s@.take(seen as int)),
            start <= seen,
    {
        proof {
            let upto = s@.take(seen + 1);
            assert(upto.last() == c);
            assert(upto.drop_last() =~= s@.take(seen as int));
        }
        seen = seen + 1;
        if c == SEPARATOR {
            start = seen;
        }
    }
    proof {
        assert(s@.take(seen as int) =~= s@);
        assert(s@.subrange(start as int, n as int) =~= s@.skip(start as int));
    }
    s.substring_char(start, n).to_owned()
}

/// `a` followed by `b`.
pub fn joined(a: &str, b: &str) -> (r: String)
    ensures
        r@ == a@ + b@,
{
    let mut out: String = a.to_owned();
    out.append(b);
    out
}

/// Whether `x` and `y` agree on their first `upto` bytes.
spec fn same_prefix(x: Seq<u8>, y: Seq<u8>, upto: int) -> bool {
    forall|j: int| 0 <= j < upto ==> x[j] == y[j]
}

/// Folding the "xor" of two bytes into the differences seen so far leaves 0
/// exactly where there was none before and the two bytes are equal.
proof fn lemma_fold_difference(acc: u8, a: u8, b: u8)
    ensures
        (acc | (a ^ b)) == 0 <==> (acc == 0 && a == b),
{
    assert((acc | (a ^ b)) == 0 <==> (acc == 0 && a == b)) by (bit_vector);
}

/// Compares two strings. Strings of one length are compared byte by byte to
/// the end, wherever they first differ, so that the time taken tells nothing
/// of the place.
pub fn constant_time_eq(a: &str, b: &str) -> (same: bool)
    ensures
        same == (a@ == b@),
{
    let x: &[u8] = a.as_bytes();
    let y: &[u8] = b.as_bytes();
    proof {
        vstd::utf8::encode_utf8_decode_utf8(a@);
        vstd::utf8::encode_utf8_decode_utf8(b@);
    }
    if x.len() != y.len() {
        return false;
    }
    let mut difference: u8 = 0;
    let mut i: usize = 0;
    while i < x.len()
        invariant
            x@.len() == y@.len(),
            i <= x@.len(),
            difference == 0 <==> same_prefix(x@, y@, i as int),
        decreases x@.len() - i,
    {
        proof {
            lemma_fold_difference(difference, x@[i as int], y@[i as int]);
        }
        difference = difference | (x[i] ^ y[i]);
        i = i + 1;
    }
    proof {
        if difference == 0 {
            assert(x@ =~= y@);
        }
    }
    difference == 0
}

} // verus!
