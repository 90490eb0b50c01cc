//! Reading a guess out of a line of text: surrounding whitespace is trimmed
//! and what is left is read as a decimal `u32`, as `str::trim` followed by
//! `str::parse::<u32>` would.
use vstd::prelude::*;

verus! {

/// The characters that `char::is_whitespace` accepts (Unicode `White_Space`).
pub open spec fn is_space(c: char) -> bool {
    ('\u{9}' <= c && c <= '\u{d}') || c == ' ' || c == '\u{85}' || c == '\u{a0}'
        || c == '\u{1680}' || ('\u{2000}' <= c && c <= '\u{200a}') || c == '\u{2028}'
        || c == '\u{2029}' || c == '\u{202f}' || c == '\u{205f}' || c == '\u{3000}'
}

/// `s` without its leading whitespace.
pub open spec fn trim_start(s: Seq<char>) -> Seq<char>
    decreases s.len(),
{
    if s.len() > 0 && is_space(s[0]) {
        trim_start(s.drop_first())
    } else {
        s
    }
}

/// `s` without its trailing whitespace.
pub open spec fn trim_end(s: Seq<char>) -> Seq<char>
    decreases s.len(),
{
    if s.len() > 0 && is_space(s.last()) {
        trim_end(s.drop_last())
    } else {
        s
    }
}

/// `s` without whitespace on either side.
pub open spec fn trim(s: Seq<char>) -> Seq<char> {
    trim_end(trim_start(s))
}

pub open spec fn is_digit(c: char) -> bool {
    '0' <= c && c <= '9'
}

pub open spec fn all_digits(s: Seq<char>) -> bool {
    forall|i: int| 0 <= i < s.len() ==> #[trigger] is_digit(s[i])
}

pub open spec fn digit_value(c: char) -> nat {
    (c as nat - '0' as nat) as nat
}

/// The number that the decimal digits `s` write, most significant first.
pub open spec fn digits_value(s: Seq<char>) -> nat
    decreases s.len(),
{
    if s.len() == 0 {
        0
    } else {
        digits_value(s.drop_last()) * 10 + digit_value(s.last())
    }
}

/// The digits of an unsigned number: one leading `+` is allowed.
pub open spec fn unsigned_digits(s: Seq<char>) -> Seq<char> {
    if s.len() > 0 && s[0] == '+' {
        s.drop_first()
    } else {
        s
    }
}

/// What reading `s` as a decimal `u32` gives: at least one digit, nothing
/// else but an optional leading `+`, and a value that fits.
pub open spec fn parse_u32(s: Seq<char>) -> Option<u32> {
    let d = unsigned_digits(s);
    if d.len() > 0 && all_digits(d) && digits_value(d) <= u32::MAX {
        Some(digits_value(d) as u32)
    } else {
        None
    }
}

/// What a line of input holds as a guess, if anything.
pub open spec fn guess_of(line: Seq<char>) -> Option<u32> {
    parse_u32(trim(line))
}

proof fn lemma_value_grows(s: Seq<char>, k: int)
    requires
        0 <= k <= s.len(),
        all_digits(s),
    ensures
        digits_value(s.subrange(0, k)) <= digits_value(s),
    decreases s.len() - k,
{
    if k < s.len() {
        lemma_value_grows(s, k + 1);
        assert(s.subrange(0, k + 1).drop_last() =~= s.subrange(0, k));
    } else {
        assert(s.subrange(0, k) =~= s);
    }
}

/// The bounds `(lo, hi)` of `s` with surrounding whitespace left out.
pub fn trim_bounds(s: &str) -> (r: (usize, usize))
    ensures
        r.0 <= r.1 <= s@.len(),
        s@.subrange(r.0 as int, r.1 as int) == trim(s@),
{
    let n = s.unicode_len();
    let mut lo: usize = 0;
    assert(s@.subrange(0, n as int) =~= s@);
    while lo < n && is_whitespace(s.get_char(lo))
        invariant
            n == s@.len(),
            lo <= n,
            trim_start(s@) == trim_start(s@.subrange(lo as int, n as int)),
        decreases n - lo,
    {
        proof {
            let t = s@.subrange(lo as int, n as int);
            assert(t.drop_first() =~= s@.subrange(lo + 1, n as int));
        }
        lo = lo + 1;
    }
    proof {
        assert(trim_start(s@) == s@.subrange(lo as int, n as int));
    }
    let mut hi: usize = n;
    while hi > lo && is_whitespace(s.get_char(hi - 1))
        invariant
            n == s@.len(),
            lo <= hi <= n,
            trim(s@) == trim_end(s@.subrange(lo as int, hi as int)),
        decreases hi - lo,
    {
        proof {
            let t = s@.subrange(lo as int, hi as int);
            assert(t.drop_last() =~= s@.subrange(lo as int, hi - 1));
        }
        hi = hi - 1;
    }
    (lo, hi)
}

/// Whether `c` is whitespace in the sense of `char::is_whitespace`.
pub fn is_whitespace(c: char) -> (r: bool)
    ensures
        r == is_space(c),
{
    ('\u{9}' <= c && c <= '\u{d}') || c == ' ' || c == '\u{85}' || c == '\u{a0}'
        || c == '\u{1680}' || ('\u{2000}' <= c && c <= '\u{200a}') || c == '\u{2028}'
        || c == '\u{2029}' || c == '\u{202f}' || c == '\u{205f}' || c == '\u{3000}'
}

/// Reads the characters `lo..hi` of `s` as a decimal `u32`.
fn parse_u32_range(s: &str, lo: usize, hi: usize) -> (r: Option<u32>)
    requires
        lo <= hi <= s@.len(),
    ensures
        r == parse_u32(s@.subrange(lo as int, hi as int)),
{
    let ghost t = s@.subrange(lo as int, hi as int);
    let mut start = lo;
    if lo < hi && s.get_char(lo) == '+' {
        start = lo + 1;
    }
    let ghost d = s@.subrange(start as int, hi as int);
    assert(d =~= unsigned_digits(t));
    if start == hi {
        return None;
    }
    let mut acc: u64 = 0;
    let mut i: usize = start;
    while i < hi
        invariant
            lo <= start <= i <= hi <= s@.len(),
            d == s@.subrange(start as int, hi as int),
            d == unsigned_digits(t),
            t == s@.subrange(lo as int, hi as int),
            all_digits(s@.subrange(start as int, i as int)),
            acc == digits_value(s@.subrange(start as int, i as int)),
            acc <= u32::MAX,
        decreases hi - i,
    {
        let c = s.get_char(i);
        let ghost p = s@.subrange(start as int, i as int + 1);
        assert(p.drop_last() =~= s@.subrange(start as int, i as int));
        if !('0' <= c && c <= '9') {
            assert(!is_digit(d[i - start]));
            return None;
        }
        let v = acc * 10 + (c as u64 - '0' as u64);
        assert(all_digits(p));
        if v > u32::MAX as u64 {
            proof {
                if all_digits(d) {
                    assert(p =~= d.subrange(0, i - start + 1));
                    lemma_value_grows(d, i - start + 1);
                }
            }
            return None;
        }
        acc = v;
        i = i + 1;
    }
    assert(s@.subrange(start as int, i as int) =~= d);
    Some(acc as u32)
}

/// Reads a guess from a line of input: trims surrounding whitespace and reads
/// the rest as a decimal `u32`; `None` where that fails.
pub fn parse_guess(line: &str) -> (r: Option<u32>)
    ensures
        r == guess_of(line@),
{
    let (lo, hi) = trim_bounds(line);
    parse_u32_range(line, lo, hi)
}

} // verus!
