//! Numbers in text: the integers an Item Text carries, and the rolled values printed into mod lines.
//!
//! A rolled value is held as an integer number of **thousandths** (`12` is `12000`, `3.3` is
//! `3300`). Every value the game prints has at most two decimal places, so this is exact. A number
//! with more than three decimal places is refused rather than rounded: as a band bound it is
//! malformed data, and in a mod line it is not read as a value, so the line is unrecognised.
//! Magnitudes are capped at [`MILLI_CAP`], far above any roll. Comparing a value against a band is
//! then plain integer comparison.

use vstd::prelude::*;

use crate::search::{
    first_where, lemma_first_where, lemma_first_where_is, lemma_first_where_none,
};
use crate::text::{chars_of, dec, dec_int, digit_char, digit_to_char, digit_value, is_ascii_digit, is_digit, push_dec};

verus! {

/// The largest magnitude a value in thousandths is held at.
pub const MILLI_CAP: u64 = 1_000_000_000_000_000;

/// The largest integer part a value keeps before it is capped.
pub const INT_CAP: u64 = 1_000_000_000_000;

/// The decimal value of a run of digits.
pub open spec fn digits_val(s: Seq<char>) -> nat
    decreases s.len(),
{
    if s.len() == 0 {
        0
    } else {
        digits_val(s.drop_last()) * 10 + digit_value(s.last())
    }
}

/// Every character is an ASCII digit.
pub open spec fn all_digits(s: Seq<char>) -> bool {
    forall|i: int| 0 <= i < s.len() ==> is_digit(#[trigger] s[i])
}

/// The smaller of two integers.
pub open spec fn min_int(a: int, b: int) -> int {
    if a <= b {
        a
    } else {
        b
    }
}

/// `min(digits(s[lo..hi]), cap)`, for a run that is all digits.
pub fn digits_capped(s: &[char], lo: usize, hi: usize, cap: u64) -> (r: u64)
    requires
        lo <= hi <= s@.len(),
        all_digits(s@.subrange(lo as int, hi as int)),
        cap <= 1_000_000_000_000_000_000,
    ensures
        r == min_int(digits_val(s@.subrange(lo as int, hi as int)) as int, cap as int),
{
    let mut acc: u64 = 0;
    let mut i = lo;
    while i < hi
        invariant
            lo <= i <= hi <= s@.len(),
            all_digits(s@.subrange(lo as int, hi as int)),
            cap <= 1_000_000_000_000_000_000,
            acc == min_int(digits_val(s@.subrange(lo as int, i as int)) as int, cap as int),
        decreases hi - i,
    {
        let c = s[i];
        assert(s@.subrange(lo as int, hi as int)[i - lo] == c);
        let d = (c as u64) - ('0' as u64);
        assert(s@.subrange(lo as int, i + 1).drop_last() =~= s@.subrange(lo as int, i as int));
        let next = acc * 10 + d;
        acc = if next < cap {
            next
        } else {
            cap
        };
        i = i + 1;
    }
    acc
}

/// Where the run of digits starting at `i` ends.
pub open spec fn digits_end(s: Seq<char>, i: int) -> int {
    match first_where(s.len() - i, |k: int| !is_digit(s[i + k])) {
        Some(k) => i + k,
        None => s.len() as int,
    }
}

pub proof fn lemma_digits_end(s: Seq<char>, i: int)
    requires
        0 <= i <= s.len(),
    ensures
        i <= digits_end(s, i) <= s.len(),
        all_digits(s.subrange(i, digits_end(s, i))),
        digits_end(s, i) < s.len() ==> !is_digit(s[digits_end(s, i)]),
{
    let p = |k: int| !is_digit(s[i + k]);
    lemma_first_where(s.len() - i, p);
    let e = digits_end(s, i);
    assert forall|j: int| 0 <= j < e - i implies is_digit(#[trigger] s.subrange(i, e)[j]) by {
        assert(!p(j));
    }
}

/// Find where the run of digits starting at `i` ends.
pub fn scan_digits(s: &[char], i: usize) -> (e: usize)
    requires
        i <= s@.len(),
    ensures
        e == digits_end(s@, i as int),
{
    let ghost p = |k: int| !is_digit(s@[i + k]);
    let mut e = i;
    while e < s.len() && is_ascii_digit(s[e])
        invariant
            i <= e <= s@.len(),
            p == (|k: int| !is_digit(s@[i + k])),
            forall|k: int| 0 <= k < e - i ==> !#[trigger] p(k),
        decreases s@.len() - e,
    {
        assert(!p(e - i));
        e = e + 1;
    }
    proof {
        if e < s@.len() {
            lemma_first_where_is(s@.len() - i, p, e - i);
        } else {
            lemma_first_where_none(s@.len() - i, p);
        }
    }
    e
}

// ── Unsigned integers, as `str::parse` reads them ──────────────────────────────────────────────

/// What `str::parse::<uN>` accepts: an optional `+`, then one or more ASCII digits.
pub open spec fn unsigned_text(s: Seq<char>) -> Option<nat> {
    let d = if s.len() > 0 && s[0] == '+' {
        s.drop_first()
    } else {
        s
    };
    if d.len() > 0 && all_digits(d) {
        Some(digits_val(d))
    } else {
        None
    }
}

/// `str::parse::<u32>`: the value, when the text is a number that fits.
pub open spec fn parse_u32_spec(s: Seq<char>) -> Option<u32> {
    match unsigned_text(s) {
        Some(n) => if n <= u32::MAX {
            Some(n as u32)
        } else {
            None
        },
        None => None,
    }
}

/// `str::parse::<u8>`: the value, when the text is a number that fits.
pub open spec fn parse_u8_spec(s: Seq<char>) -> Option<u8> {
    match unsigned_text(s) {
        Some(n) => if n <= u8::MAX {
            Some(n as u8)
        } else {
            None
        },
        None => None,
    }
}

/// The value of an unsigned decimal text, capped just above `limit`.
fn parse_unsigned(s: &[char], limit: u64) -> (r: Option<u64>)
    requires
        limit <= u32::MAX,
    ensures
        match unsigned_text(s@) {
            Some(n) => if n <= limit {
                r == Some(n as u64)
            } else {
                r is None
            },
            None => r is None,
        },
{
    let start: usize = if s.len() > 0 && s[0] == '+' {
        1
    } else {
        0
    };
    let e = scan_digits(s, start);
    proof {
        lemma_digits_end(s@, start as int);
        let d = if s@.len() > 0 && s@[0] == '+' {
            s@.drop_first()
        } else {
            s@
        };
        assert(d =~= s@.subrange(start as int, s@.len() as int));
        if e < s@.len() {
            assert(d[e - start] == s@[e as int]);
        }
    }
    if start == s.len() || e < s.len() {
        return None;
    }
    let v = digits_capped(s, start, e, limit + 1);
    if v <= limit {
        Some(v)
    } else {
        None
    }
}

/// `str::parse::<u32>` over characters.
pub fn parse_u32(s: &[char]) -> (r: Option<u32>)
    ensures
        r == parse_u32_spec(s@),
{
    match parse_unsigned(s, 0xffff_ffff) {
        Some(v) => Some(v as u32),
        None => None,
    }
}

/// `str::parse::<u8>` over characters.
pub fn parse_u8(s: &[char]) -> (r: Option<u8>)
    ensures
        r == parse_u8_spec(s@),
{
    match parse_unsigned(s, 0xff) {
        Some(v) => Some(v as u8),
        None => None,
    }
}

// ── Rolled values ──────────────────────────────────────────────────────────────────────────────

/// The digit at `i` of a fraction, or zero past its end.
pub open spec fn frac_digit(f: Seq<char>, i: int) -> nat {
    if i < f.len() {
        digit_value(f[i])
    } else {
        0
    }
}

/// The first three digits of a fraction, in thousandths.
pub open spec fn frac_milli(f: Seq<char>) -> nat {
    frac_digit(f, 0) * 100 + frac_digit(f, 1) * 10 + frac_digit(f, 2)
}

/// The magnitude of `int.frac` in thousandths, capped at [`MILLI_CAP`].
pub open spec fn magnitude_milli(int_part: Seq<char>, frac: Seq<char>) -> int {
    min_int((digits_val(int_part) * 1000 + frac_milli(frac)) as int, MILLI_CAP as int)
}

/// The magnitude of the number whose integer digits are `s[a..b]` and fraction digits `s[c..d]`.
pub fn magnitude(s: &[char], a: usize, b: usize, c: usize, d: usize) -> (m: i64)
    requires
        a <= b <= s@.len(),
        c <= d <= s@.len(),
        all_digits(s@.subrange(a as int, b as int)),
        all_digits(s@.subrange(c as int, d as int)),
    ensures
        m == magnitude_milli(s@.subrange(a as int, b as int), s@.subrange(c as int, d as int)),
        0 <= m <= MILLI_CAP,
{
    let int_part = digits_capped(s, a, b, INT_CAP);
    let ghost f = s@.subrange(c as int, d as int);
    let mut frac: u64 = 0;
    let mut k: usize = 0;
    while k < 3
        invariant
            k <= 3,
            c <= d <= s@.len(),
            f == s@.subrange(c as int, d as int),
            all_digits(f),
            frac == (if k == 0 {
                0
            } else if k == 1 {
                frac_digit(f, 0)
            } else if k == 2 {
                frac_digit(f, 0) * 10 + frac_digit(f, 1)
            } else {
                frac_digit(f, 0) * 100 + frac_digit(f, 1) * 10 + frac_digit(f, 2)
            }),
        decreases 3 - k,
    {
        let digit: u64 = if k < d - c {
            assert(f[k as int] == s@[c + k]);
            (s[c + k] as u64) - ('0' as u64)
        } else {
            0
        };
        frac = frac * 10 + digit;
        k = k + 1;
    }
    let total = int_part * 1000 + frac;
    if total < MILLI_CAP {
        total as i64
    } else {
        MILLI_CAP as i64
    }
}

/// What a standalone number reads as: an optional sign, digits, and an optional fraction of one to
/// three digits. A number with more decimal places cannot be held in thousandths and is refused.
pub open spec fn decimal_text(s: Seq<char>) -> Option<int> {
    let neg = s.len() > 0 && s[0] == '-';
    let signed = s.len() > 0 && (s[0] == '-' || s[0] == '+');
    let ds: int = if signed {
        1
    } else {
        0
    };
    let de = digits_end(s, ds);
    if de == ds {
        None
    } else if de == s.len() {
        let m = magnitude_milli(s.subrange(ds, de), Seq::empty());
        Some(if neg {
            -m
        } else {
            m
        })
    } else if s[de] == '.' && digits_end(s, de + 1) == s.len() && s.len() > de + 1 && s.len() - de
        - 1 <= 3 {
        let m = magnitude_milli(s.subrange(ds, de), s.subrange(de + 1, s.len() as int));
        Some(if neg {
            -m
        } else {
            m
        })
    } else {
        None
    }
}

/// Read a number such as `12`, `-3` or `3.3` into thousandths; `None` for anything else, a number
/// with more than three decimal places included.
///
/// This is how a band bound from the tier data reaches the pool: the same reading the parser gives a
/// rolled value, so a value and a bound printed the same way compare equal.
pub fn parse_milli(text: &str) -> (r: Option<i64>)
    ensures
        r matches Some(v) ==> decimal_text(text@) == Some(v as int),
        r is None ==> decimal_text(text@) is None,
{
    let s = chars_of(text);
    let neg = s.len() > 0 && s[0] == '-';
    let signed = s.len() > 0 && (s[0] == '-' || s[0] == '+');
    let ds: usize = if signed {
        1
    } else {
        0
    };
    let de = scan_digits(&s, ds);
    proof {
        lemma_digits_end(s@, ds as int);
    }
    if de == ds {
        return None;
    }
    if de == s.len() {
        let m = magnitude(&s, ds, de, 0, 0);
        proof {
            assert(s@.subrange(0, 0) =~= Seq::<char>::empty());
        }
        return Some(
            if neg {
                -m
            } else {
                m
            },
        );
    }
    if s[de] == '.' {
        let fe = scan_digits(&s, de + 1);
        proof {
            lemma_digits_end(s@, de + 1);
        }
        if fe == s.len() && s.len() > de + 1 && s.len() - de - 1 <= 3 {
            let m = magnitude(&s, ds, de, de + 1, fe);
            return Some(
                if neg {
                    -m
                } else {
                    m
                },
            );
        }
    }
    None
}

// ── Rendering ──────────────────────────────────────────────────────────────────────────────────

/// The fraction digits of a value in thousandths, without trailing zeros.
pub open spec fn frac_text(f: nat) -> Seq<char> {
    if f == 0 {
        Seq::empty()
    } else if f % 100 == 0 {
        seq!['.', digit_char(f / 100)]
    } else if f % 10 == 0 {
        seq!['.', digit_char(f / 100), digit_char((f / 10) % 10)]
    } else {
        seq!['.', digit_char(f / 100), digit_char((f / 10) % 10), digit_char(f % 10)]
    }
}

/// A value in thousandths as the game would print it: `12`, `-3`, `11.6`.
pub open spec fn milli_text(v: int) -> Seq<char> {
    let m: nat = if v < 0 {
        (-v) as nat
    } else {
        v as nat
    };
    let sign = if v < 0 {
        seq!['-']
    } else {
        Seq::empty()
    };
    sign + dec(m / 1000) + frac_text(m % 1000)
}

/// Append a value in thousandths as the game would print it.
pub fn push_milli(s: &mut String, v: i64)
    ensures
        final(s)@ == old(s)@ + milli_text(v as int),
{
    let m: u64 = if v == i64::MIN {
        9_223_372_036_854_775_808u64
    } else if v < 0 {
        (-v) as u64
    } else {
        v as u64
    };
    if v < 0 {
        s.push('-');
    }
    push_dec(s, m / 1000);
    let f = m % 1000;
    if f != 0 {
        s.push('.');
        s.push(digit_to_char(f / 100));
        if f % 100 != 0 {
            s.push(digit_to_char((f / 10) % 10));
            if f % 10 != 0 {
                s.push(digit_to_char(f % 10));
            }
        }
    }
    assert(s@ =~= old(s)@ + milli_text(v as int));
}

/// Append a signed integer in decimal.
pub fn push_int(s: &mut String, v: i64)
    ensures
        final(s)@ == old(s)@ + dec_int(v as int),
{
    if v < 0 {
        s.push('-');
        let m: u64 = if v == i64::MIN {
            9_223_372_036_854_775_808u64
        } else {
            (-v) as u64
        };
        push_dec(s, m);
    } else {
        push_dec(s, v as u64);
    }
    assert(s@ =~= old(s)@ + dec_int(v as int));
}

} // verus!
