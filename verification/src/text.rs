//! Character-level helpers: whitespace trimming, exact region comparison and
//! unsigned-integer parsing, specified over the character sequences that
//! strings denote.

use vstd::prelude::*;

verus! {

/// Whitespace characters removed when a label is trimmed: the ASCII blanks.
pub open spec fn is_space(c: char) -> bool {
    c == ' ' || c == '\t' || c == '\n' || c == '\r' || c == '\u{000b}' || c == '\u{000c}'
}

/// `s` with every leading whitespace character removed.
pub open spec fn trim_front(s: Seq<char>) -> Seq<char>
    decreases s.len(),
{
    if s.len() > 0 && is_space(s[0]) {
        trim_front(s.drop_first())
    } else {
        s
    }
}

/// `s` with every trailing whitespace character removed.
pub open spec fn trim_back(s: Seq<char>) -> Seq<char>
    decreases s.len(),
{
    if s.len() > 0 && is_space(s[s.len() - 1]) {
        trim_back(s.drop_last())
    } else {
        s
    }
}

/// `s` with leading and trailing whitespace removed.
pub open spec fn trimmed(s: Seq<char>) -> Seq<char> {
    trim_back(trim_front(s))
}

/// Decimal digit test.
pub open spec fn is_digit(c: char) -> bool {
    '0' <= c && c <= '9'
}

/// Numeric value of a decimal digit.
pub open spec fn digit_val(c: char) -> int {
    c as int - '0' as int
}

/// Whether every character of `s` is a decimal digit.
pub open spec fn all_digits(s: Seq<char>) -> bool {
    forall|k: int| 0 <= k < s.len() ==> is_digit(s[k])
}

/// Value of a string of decimal digits, most significant first.
pub open spec fn digits_val(s: Seq<char>) -> int
    decreases s.len(),
{
    if s.len() == 0 {
        0
    } else {
        digits_val(s.drop_last()) * 10 + digit_val(s[s.len() - 1])
    }
}

/// The number denoted by `s` in the syntax `u32` parsing accepts: an optional
/// leading `+`, then one or more decimal digits, with a value that fits.
pub open spec fn parse_u32_spec(s: Seq<char>) -> Option<u32> {
    let digits = if s.len() > 0 && s[0] == '+' {
        s.drop_first()
    } else {
        s
    };
    if digits.len() > 0 && all_digits(digits) && digits_val(digits) <= u32::MAX as int {
        Some(digits_val(digits) as u32)
    } else {
        None
    }
}

/// Exec test matching [`is_space`].
pub fn is_space_char(c: char) -> (r: bool)
    ensures
        r == is_space(c),
{
    c == ' ' || c == '\t' || c == '\n' || c == '\r' || c == '\u{000b}' || c == '\u{000c}'
}

/// Removing leading whitespace skips any all-whitespace prefix.
proof fn lemma_trim_front_skip(s: Seq<char>, i: int)
    requires
        0 <= i <= s.len(),
        forall|k: int| 0 <= k < i ==> is_space(s[k]),
    ensures
        trim_front(s) == trim_front(s.subrange(i, s.len() as int)),
    decreases i,
{
    if i > 0 {
        let s1 = s.drop_first();
        assert(s1 =~= s.subrange(1, s.len() as int));
        lemma_trim_front_skip(s1, i - 1);
        assert(s1.subrange(i - 1, s1.len() as int) =~= s.subrange(i, s.len() as int));
    } else {
        assert(s.subrange(0, s.len() as int) =~= s);
    }
}

/// Removing trailing whitespace skips any all-whitespace suffix.
proof fn lemma_trim_back_skip(s: Seq<char>, j: int)
    requires
        0 <= j <= s.len(),
        forall|k: int| j <= k < s.len() ==> is_space(s[k]),
    ensures
        trim_back(s) == trim_back(s.subrange(0, j)),
    decreases s.len() - j,
{
    if j < s.len() {
        let s1 = s.drop_last();
        assert(s1 =~= s.subrange(0, s.len() - 1));
        lemma_trim_back_skip(s1, j);
        assert(s1.subrange(0, j) =~= s.subrange(0, j));
    } else {
        assert(s.subrange(0, s.len() as int) =~= s);
    }
}

/// Finds the bounds of the trimmed region of `s`: the characters outside
/// `[r.0, r.1)` are whitespace and the region itself is `trimmed(s@)`.
pub fn trim_bounds(s: &str) -> (r: (usize, usize))
    ensures
        r.0 <= r.1 <= s@.len(),
        s@.subrange(r.0 as int, r.1 as int) == trimmed(s@),
{
    let n = s.unicode_len();
    let mut lo: usize = 0;
    loop
        invariant
            lo <= n,
            n as int == s@.len(),
            forall|k: int| 0 <= k < lo ==> is_space(s@[k]),
        ensures
            lo <= n,
            forall|k: int| 0 <= k < lo ==> is_space(s@[k]),
            lo == n || !is_space(s@[lo as int]),
        decreases n - lo,
    {
        if lo < n {
            if is_space_char(s.get_char(lo)) {
                lo = lo + 1;
            } else {
                break;
            }
        } else {
            break;
        }
    }
    let mut hi: usize = n;
    loop
        invariant
            lo <= hi <= n,
            n as int == s@.len(),
            forall|k: int| hi <= k < n ==> is_space(s@[k]),
        ensures
            lo <= hi <= n,
            forall|k: int| hi <= k < n ==> is_space(s@[k]),
            hi == lo || !is_space(s@[hi - 1]),
        decreases hi,
    {
        if hi > lo {
            if is_space_char(s.get_char(hi - 1)) {
                hi = hi - 1;
            } else {
                break;
            }
        } else {
            break;
        }
    }
    proof {
        lemma_trim_front_skip(s@, lo as int);
        let t = s@.subrange(lo as int, s@.len() as int);
        assert(trim_front(s@) == t);
        lemma_trim_back_skip(t, hi - lo);
        assert(t.subrange(0, hi - lo) =~= s@.subrange(lo as int, hi as int));
        assert(trim_back(t) == trim_back(s@.subrange(lo as int, hi as int)));
        let u = s@.subrange(lo as int, hi as int);
        assert(trim_back(u) == u);
    }
    (lo, hi)
}

/// Compares the region `[lo, hi)` of `s` with the whole of `lit`.
pub fn region_matches(s: &str, lo: usize, hi: usize, lit: &str) -> (r: bool)
    requires
        lo <= hi <= s@.len(),
    ensures
        r == (s@.subrange(lo as int, hi as int) == lit@),
{
    let m = lit.unicode_len();
    if hi - lo != m {
        proof {
            assert(s@.subrange(lo as int, hi as int).len() != lit@.len());
        }
        return false;
    }
    let mut i: usize = 0;
    loop
        invariant
            i <= m,
            lo <= hi <= s@.len(),
            hi - lo == m,
            m as int == lit@.len(),
            forall|k: int| 0 <= k < i ==> s@[lo + k] == lit@[k],
        ensures
            i == m,
            forall|k: int| 0 <= k < m ==> s@[lo + k] == lit@[k],
        decreases m - i,
    {
        if i < m {
            let a = s.get_char(lo + i);
            let b = lit.get_char(i);
            if a != b {
                proof {
                    assert(s@.subrange(lo as int, hi as int)[i as int] != lit@[i as int]);
                }
                return false;
            }
            i = i + 1;
        } else {
            break;
        }
    }
    proof {
        assert(s@.subrange(lo as int, hi as int) =~= lit@);
    }
    true
}

/// Digit strings denote nonnegative values.
proof fn lemma_digits_val_nonneg(s: Seq<char>)
    requires
        all_digits(s),
    ensures
        digits_val(s) >= 0,
    decreases s.len(),
{
    if s.len() > 0 {
        lemma_digits_val_nonneg(s.drop_last());
        let v = digits_val(s.drop_last());
        assert(v * 10 >= 0) by (nonlinear_arith)
            requires
                v >= 0;
    }
}

/// A prefix of a digit string never denotes more than the whole string.
proof fn lemma_digits_val_prefix(s: Seq<char>, i: int)
    requires
        all_digits(s),
        0 <= i <= s.len(),
    ensures
        digits_val(s.subrange(0, i)) <= digits_val(s),
    decreases s.len() - i,
{
    if i < s.len() {
        lemma_digits_val_prefix(s, i + 1);
        let p = s.subrange(0, i);
        let q = s.subrange(0, i + 1);
        assert(q.drop_last() =~= p);
        assert(all_digits(p));
        lemma_digits_val_nonneg(p);
        let v = digits_val(p);
        assert(v * 10 >= v) by (nonlinear_arith)
            requires
                v >= 0;
    } else {
        assert(s.subrange(0, i) =~= s);
    }
}

/// Parses an unsigned 32-bit integer: an optional leading `+`, then decimal
/// digits; `None` on empty input, a stray character, or overflow.
pub fn parse_u32(s: &str) -> (r: Option<u32>)
    ensures
        r == parse_u32_spec(s@),
{
    let n = s.unicode_len();
    let start: usize = if n > 0 && s.get_char(0) == '+' {
        1
    } else {
        0
    };
    if start == n {
        return None;
    }
    let ghost digits = if s@.len() > 0 && s@[0] == '+' {
        s@.drop_first()
    } else {
        s@
    };
    proof {
        assert(digits =~= s@.subrange(start as int, n as int));
    }
    let mut acc: u64 = 0;
    let mut i: usize = start;
    loop
        invariant
            start <= i <= n,
            start == 0 || start == 1,
            n as int == s@.len(),
            start == 1 ==> s@.len() > 0 && s@[0] == '+',
            start == 0 ==> !(s@.len() > 0 && s@[0] == '+'),
            digits == s@.subrange(start as int, n as int),
            all_digits(digits.subrange(0, i - start)),
            acc as int == digits_val(digits.subrange(0, i - start)),
            acc <= u32::MAX as u64,
        ensures
            i == n,
            all_digits(digits),
            acc as int == digits_val(digits),
            acc <= u32::MAX as u64,
        decreases n - i,
    {
        if i < n {
            let c = s.get_char(i);
            if !('0' <= c && c <= '9') {
                proof {
                    assert(digits =~= (if s@.len() > 0 && s@[0] == '+' {
                        s@.drop_first()
                    } else {
                        s@
                    }));
                    assert(digits[i - start] == s@[i as int]);
                    assert(!is_digit(digits[i - start]));
                    assert(!all_digits(digits));
                }
                return None;
            }
            let d: u64 = (c as u32 - '0' as u32) as u64;
            let next: u64 = acc * 10 + d;
            proof {
                let p = digits.subrange(0, i - start);
                let q = digits.subrange(0, i + 1 - start);
                assert(q.drop_last() =~= p);
                assert(q[q.len() - 1] == s@[i as int]);
            }
            if next > u32::MAX as u64 {
                proof {
                    assert(digits =~= (if s@.len() > 0 && s@[0] == '+' {
                        s@.drop_first()
                    } else {
                        s@
                    }));
                    let p = digits.subrange(0, i - start);
                    let q = digits.subrange(0, i + 1 - start);
                    assert(digits_val(q) == digits_val(p) * 10 + digit_val(s@[i as int]));
                    assert(d as int == digit_val(s@[i as int]));
                    assert(digits_val(q) == next as int);
                    if all_digits(digits) {
                        lemma_digits_val_prefix(digits, i + 1 - start);
                        assert(digits_val(digits) >= digits_val(q));
                    }
                }
                return None;
            }
            acc = next;
            i = i + 1;
        } else {
            proof {
                assert(digits.subrange(0, i - start) =~= digits);
            }
            break;
        }
    }
    Some(acc as u32)
}

} // verus!
