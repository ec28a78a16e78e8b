//! Character-level text handling: the pieces the Item Text parser and the message builders share.
//!
//! Text is modelled as `Seq<char>`, the view Verus gives both `str` and `String`. Everything here
//! is stated over that model, so the parser's contracts can be read without knowing how a `Vec` of
//! characters was walked.

use vstd::prelude::*;
use vstd::std_specs::iter::IteratorSpec;

use crate::search::{first_where, lemma_first_where, lemma_first_where_is, lemma_first_where_none};

verus! {

/// `String::push` appends one character.
pub assume_specification[ String::push ](s: &mut String, ch: char)
    ensures
        final(s)@ == old(s)@.push(ch),
;

// ── Classification ─────────────────────────────────────────────────────────────────────────────

/// Unicode `White_Space`, which is what `char::is_whitespace` and therefore `str::trim` test.
pub open spec fn is_ws(c: char) -> bool {
    ||| ('\u{9}' <= c && c <= '\u{d}')
    ||| c == ' '
    ||| c == '\u{85}'
    ||| c == '\u{a0}'
    ||| c == '\u{1680}'
    ||| ('\u{2000}' <= c && c <= '\u{200a}')
    ||| c == '\u{2028}'
    ||| c == '\u{2029}'
    ||| c == '\u{202f}'
    ||| c == '\u{205f}'
    ||| c == '\u{3000}'
}

/// Is this character Unicode whitespace?
pub fn is_whitespace(c: char) -> (b: bool)
    ensures
        b == is_ws(c),
{
    ('\u{9}' <= c && c <= '\u{d}') || c == ' ' || c == '\u{85}' || c == '\u{a0}' || c
        == '\u{1680}' || ('\u{2000}' <= c && c <= '\u{200a}') || c == '\u{2028}' || c
        == '\u{2029}' || c == '\u{202f}' || c == '\u{205f}' || c == '\u{3000}'
}

/// An ASCII decimal digit.
pub open spec fn is_digit(c: char) -> bool {
    '0' <= c && c <= '9'
}

/// An ASCII letter or digit.
pub open spec fn is_alnum(c: char) -> bool {
    ||| is_digit(c)
    ||| ('a' <= c && c <= 'z')
    ||| ('A' <= c && c <= 'Z')
}

/// The value of an ASCII digit.
pub open spec fn digit_value(c: char) -> nat {
    (c as int - '0' as int) as nat
}

/// The character for a digit value below ten.
pub open spec fn digit_char(d: nat) -> char {
    (d + '0' as nat) as char
}

pub fn is_ascii_digit(c: char) -> (b: bool)
    ensures
        b == is_digit(c),
{
    '0' <= c && c <= '9'
}

pub fn is_ascii_alphanumeric(c: char) -> (b: bool)
    ensures
        b == is_alnum(c),
{
    ('0' <= c && c <= '9') || ('a' <= c && c <= 'z') || ('A' <= c && c <= 'Z')
}

// ── Trimming ───────────────────────────────────────────────────────────────────────────────────

/// `s` without its trailing whitespace.
pub open spec fn trim_end(s: Seq<char>) -> Seq<char>
    decreases s.len(),
{
    if s.len() > 0 && is_ws(s.last()) {
        trim_end(s.drop_last())
    } else {
        s
    }
}

/// `s` without its leading whitespace.
pub open spec fn trim_start(s: Seq<char>) -> Seq<char>
    decreases s.len(),
{
    if s.len() > 0 && is_ws(s[0]) {
        trim_start(s.drop_first())
    } else {
        s
    }
}

/// `s` without whitespace at either end, as `str::trim` gives it.
pub open spec fn trim(s: Seq<char>) -> Seq<char> {
    trim_start(trim_end(s))
}

/// Where the text left after dropping trailing whitespace ends.
pub open spec fn trim_end_len(s: Seq<char>) -> int
    decreases s.len(),
{
    if s.len() > 0 && is_ws(s.last()) {
        trim_end_len(s.drop_last())
    } else {
        s.len() as int
    }
}

/// Where the text left after dropping leading whitespace starts.
pub open spec fn trim_start_skip(s: Seq<char>) -> int
    decreases s.len(),
{
    if s.len() > 0 && is_ws(s[0]) {
        1 + trim_start_skip(s.drop_first())
    } else {
        0
    }
}

pub proof fn lemma_trim_end_take(s: Seq<char>)
    ensures
        0 <= trim_end_len(s) <= s.len(),
        trim_end(s) == s.take(trim_end_len(s)),
        forall|i: int| trim_end_len(s) <= i < s.len() ==> is_ws(#[trigger] s[i]),
        trim_end_len(s) > 0 ==> !is_ws(s[trim_end_len(s) - 1]),
    decreases s.len(),
{
    if s.len() > 0 && is_ws(s.last()) {
        lemma_trim_end_take(s.drop_last());
        assert(s.drop_last().take(trim_end_len(s.drop_last())) =~= s.take(trim_end_len(s)));
        assert forall|i: int| trim_end_len(s) <= i < s.len() implies is_ws(#[trigger] s[i]) by {
            if i < s.len() - 1 {
                assert(s[i] == s.drop_last()[i]);
            }
        }
    } else {
        assert(s.take(s.len() as int) =~= s);
    }
}

pub proof fn lemma_trim_start_skip(s: Seq<char>)
    ensures
        0 <= trim_start_skip(s) <= s.len(),
        trim_start(s) == s.skip(trim_start_skip(s)),
        forall|i: int| 0 <= i < trim_start_skip(s) ==> is_ws(#[trigger] s[i]),
        trim_start_skip(s) < s.len() ==> !is_ws(s[trim_start_skip(s)]),
    decreases s.len(),
{
    if s.len() > 0 && is_ws(s[0]) {
        lemma_trim_start_skip(s.drop_first());
        assert(s.drop_first().skip(trim_start_skip(s.drop_first())) =~= s.skip(
            trim_start_skip(s),
        ));
        assert forall|i: int| 0 <= i < trim_start_skip(s) implies is_ws(#[trigger] s[i]) by {
            if i > 0 {
                assert(s[i] == s.drop_first()[i - 1]);
            }
        }
    } else {
        assert(s.skip(0) =~= s);
    }
}

/// The end of `s[..end]` once trailing whitespace is dropped.
fn trimmed_end(s: &[char], end: usize) -> (e: usize)
    requires
        end <= s@.len(),
    ensures
        e == trim_end_len(s@.take(end as int)),
{
    let ghost t = s@.take(end as int);
    proof {
        lemma_trim_end_take(t);
    }
    let mut e = end;
    while e > 0 && is_whitespace(s[e - 1])
        invariant
            e <= end <= s@.len(),
            t == s@.take(end as int),
            trim_end_len(t) <= e,
            forall|i: int| e <= i < end ==> is_ws(#[trigger] s@[i]),
            0 <= trim_end_len(t) <= t.len(),
            forall|i: int| trim_end_len(t) <= i < t.len() ==> is_ws(#[trigger] t[i]),
            trim_end_len(t) > 0 ==> !is_ws(t[trim_end_len(t) - 1]),
        decreases e,
    {
        assert(t[e - 1] == s@[e - 1]);
        e = e - 1;
    }
    proof {
        if e > trim_end_len(t) {
            assert(t[e - 1] == s@[e - 1]);
        }
    }
    e
}

/// The start of `s[start..end]` once leading whitespace is dropped.
fn trimmed_start(s: &[char], start: usize, end: usize) -> (b: usize)
    requires
        start <= end <= s@.len(),
    ensures
        b == start + trim_start_skip(s@.subrange(start as int, end as int)),
{
    let ghost t = s@.subrange(start as int, end as int);
    proof {
        lemma_trim_start_skip(t);
    }
    let mut b = start;
    while b < end && is_whitespace(s[b])
        invariant
            start <= b <= end <= s@.len(),
            t == s@.subrange(start as int, end as int),
            b - start <= trim_start_skip(t),
            0 <= trim_start_skip(t) <= t.len(),
            forall|i: int| 0 <= i < trim_start_skip(t) ==> is_ws(#[trigger] t[i]),
            trim_start_skip(t) < t.len() ==> !is_ws(t[trim_start_skip(t)]),
        decreases end - b,
    {
        assert(t[b - start] == s@[b as int]);
        b = b + 1;
    }
    proof {
        if b < end {
            assert(t[b - start] == s@[b as int]);
        }
    }
    b
}

/// A copy of `s[start..end]`.
pub fn copy_range(s: &[char], start: usize, end: usize) -> (r: Vec<char>)
    requires
        start <= end <= s@.len(),
    ensures
        r@ == s@.subrange(start as int, end as int),
{
    let mut r: Vec<char> = Vec::new();
    let mut i = start;
    while i < end
        invariant
            start <= i <= end <= s@.len(),
            r@ == s@.subrange(start as int, i as int),
        decreases end - i,
    {
        r.push(s[i]);
        i = i + 1;
        assert(r@ =~= s@.subrange(start as int, i as int));
    }
    r
}

/// `s` with trailing whitespace dropped.
pub fn trim_end_vec(s: &[char]) -> (r: Vec<char>)
    ensures
        r@ == trim_end(s@),
{
    let e = trimmed_end(s, s.len());
    proof {
        assert(s@.take(s@.len() as int) =~= s@);
        lemma_trim_end_take(s@);
    }
    copy_range(s, 0, e)
}

/// `s` with whitespace dropped at both ends.
pub fn trim_vec(s: &[char]) -> (r: Vec<char>)
    ensures
        r@ == trim(s@),
{
    let e = trimmed_end(s, s.len());
    proof {
        assert(s@.take(s@.len() as int) =~= s@);
        lemma_trim_end_take(s@);
        assert(trim_end(s@) =~= s@.subrange(0, e as int));
    }
    let b = trimmed_start(s, 0, e);
    proof {
        lemma_trim_start_skip(trim_end(s@));
        assert(trim(s@) =~= s@.subrange(b as int, e as int));
    }
    copy_range(s, b, e)
}


// ── Searching ──────────────────────────────────────────────────────────────────────────────────

/// `s` begins with `p`.
pub open spec fn has_prefix(s: Seq<char>, p: Seq<char>) -> bool {
    p.len() <= s.len() && s.take(p.len() as int) == p
}

/// `p` occurs in `s` at `i`.
pub open spec fn occurs_at(s: Seq<char>, p: Seq<char>, i: int) -> bool {
    0 <= i && i + p.len() <= s.len() && s.subrange(i, i + p.len()) == p
}

/// The positions where `p` occurs in `s`.
pub open spec fn occurs(s: Seq<char>, p: Seq<char>) -> spec_fn(int) -> bool {
    |i: int| occurs_at(s, p, i)
}

/// The positions holding `c`.
pub open spec fn holds_char(s: Seq<char>, c: char) -> spec_fn(int) -> bool {
    |i: int| s[i] == c
}

/// Where `p` first occurs in `s`.
pub open spec fn find_sub(s: Seq<char>, p: Seq<char>) -> Option<int> {
    first_where(s.len() - p.len() + 1, occurs(s, p))
}

/// Where `c` first occurs in `s`.
pub open spec fn find_char(s: Seq<char>, c: char) -> Option<int> {
    first_where(s.len() as int, holds_char(s, c))
}

/// Does `p` occur anywhere in `s`?
pub open spec fn contains_sub(s: Seq<char>, p: Seq<char>) -> bool {
    find_sub(s, p) is Some
}

/// Does `s[at..]` begin with `p`?
pub fn matches_at(s: &[char], at: usize, p: &[char]) -> (b: bool)
    requires
        at <= s@.len(),
    ensures
        b == occurs_at(s@, p@, at as int),
        b == has_prefix(s@.skip(at as int), p@),
{
    let n = s.len();
    if p.len() > n - at {
        return false;
    }
    let mut i: usize = 0;
    while i < p.len()
        invariant
            n == s@.len(),
            i <= p@.len(),
            at + p@.len() <= s@.len(),
            forall|j: int| 0 <= j < i ==> s@[at + j] == p@[j],
        decreases p@.len() - i,
    {
        if s[at + i] != p[i] {
            assert(s@.subrange(at as int, at + p@.len())[i as int] != p@[i as int]);
            assert(s@.skip(at as int).take(p@.len() as int)[i as int] != p@[i as int]);
            return false;
        }
        i = i + 1;
    }
    assert(s@.subrange(at as int, at + p@.len()) =~= p@);
    assert(s@.skip(at as int).take(p@.len() as int) =~= p@);
    true
}

/// Does `s` begin with `p`?
pub fn starts_with(s: &[char], p: &[char]) -> (b: bool)
    ensures
        b == has_prefix(s@, p@),
{
    let b = matches_at(s, 0, p);
    assert(s@.skip(0) =~= s@);
    b
}

/// Where `c` first occurs in `s`.
pub fn position_of(s: &[char], c: char) -> (r: Option<usize>)
    ensures
        match r {
            Some(i) => find_char(s@, c) == Some(i as int) && i < s@.len() && s@[i as int] == c,
            None => find_char(s@, c) is None,
        },
{
    let ghost q = holds_char(s@, c);
    let mut i: usize = 0;
    while i < s.len()
        invariant
            i <= s@.len(),
            q == holds_char(s@, c),
            forall|j: int| 0 <= j < i ==> !#[trigger] q(j),
        decreases s@.len() - i,
    {
        if s[i] == c {
            proof {
                lemma_first_where_is(s@.len() as int, q, i as int);
            }
            return Some(i);
        }
        assert(!q(i as int));
        i = i + 1;
    }
    proof {
        lemma_first_where_none(s@.len() as int, q);
    }
    None
}

/// Where `p` first occurs in `s`.
pub fn position_of_sub(s: &[char], p: &[char]) -> (r: Option<usize>)
    ensures
        match r {
            Some(i) => find_sub(s@, p@) == Some(i as int) && occurs_at(s@, p@, i as int),
            None => find_sub(s@, p@) is None,
        },
{
    let ghost q = occurs(s@, p@);
    let ghost n = s@.len() - p@.len() + 1;
    if p.len() > s.len() {
        proof {
            lemma_first_where_none(n, q);
        }
        return None;
    }
    if p.len() == 0 {
        proof {
            assert(s@.subrange(0, 0) =~= p@);
            assert(q(0));
            lemma_first_where_is(n, q, 0);
        }
        return Some(0);
    }
    let len = s.len();
    let last = len - p.len();
    let mut i: usize = 0;
    while i <= last
        invariant
            i <= last + 1,
            last == s@.len() - p@.len(),
            n == last + 1,
            q == occurs(s@, p@),
            len == s@.len(),
            last < len,
            forall|j: int| 0 <= j < i ==> !#[trigger] q(j),
        decreases last + 1 - i,
    {
        if matches_at(s, i, p) {
            proof {
                lemma_first_where_is(n, q, i as int);
            }
            return Some(i);
        }
        assert(!q(i as int));
        i = i + 1;
    }
    proof {
        lemma_first_where_none(n, q);
    }
    None
}

// ── Splitting ──────────────────────────────────────────────────────────────────────────────────

/// `s` split at every `sep`, as `str::split` does: `n` separators give `n + 1` pieces.
pub open spec fn split_on(s: Seq<char>, sep: char) -> Seq<Seq<char>>
    decreases s.len(),
{
    if s.len() == 0 {
        seq![Seq::empty()]
    } else {
        let prev = split_on(s.drop_last(), sep);
        if s.last() == sep {
            prev.push(Seq::empty())
        } else {
            prev.update(prev.len() - 1, prev.last().push(s.last()))
        }
    }
}

pub proof fn lemma_split_on_len(s: Seq<char>, sep: char)
    ensures
        split_on(s, sep).len() >= 1,
    decreases s.len(),
{
    if s.len() > 0 {
        lemma_split_on_len(s.drop_last(), sep);
    }
}

/// The characters of each piece.
pub open spec fn pieces_view(v: Seq<Vec<char>>) -> Seq<Seq<char>> {
    v.map_values(|x: Vec<char>| x@)
}

/// Split `s` at every `sep`.
pub fn split_chars(s: &[char], sep: char) -> (r: Vec<Vec<char>>)
    ensures
        pieces_view(r@) == split_on(s@, sep),
{
    let mut r: Vec<Vec<char>> = Vec::new();
    r.push(Vec::new());
    let mut i: usize = 0;
    proof {
        assert(s@.take(0) =~= Seq::<char>::empty());
        assert(pieces_view(r@) =~= split_on(s@.take(0), sep));
    }
    while i < s.len()
        invariant
            i <= s@.len(),
            r@.len() >= 1,
            pieces_view(r@) == split_on(s@.take(i as int), sep),
        decreases s@.len() - i,
    {
        let c = s[i];
        let ghost before = pieces_view(r@);
        proof {
            assert(s@.take(i + 1).drop_last() =~= s@.take(i as int));
        }
        if c == sep {
            r.push(Vec::new());
            assert(pieces_view(r@) =~= before.push(Seq::empty()));
        } else {
            let last = r.len() - 1;
            let mut piece = r.remove(last);
            piece.push(c);
            r.push(piece);
            assert(pieces_view(r@) =~= before.update(before.len() - 1, before.last().push(c)));
        }
        i = i + 1;
    }
    proof {
        assert(s@.take(s@.len() as int) =~= s@);
    }
    r
}

// ── Conversions ────────────────────────────────────────────────────────────────────────────────

/// The characters of a string slice.
pub fn chars_of(s: &str) -> (v: Vec<char>)
    ensures
        v@ == s@,
{
    broadcast use vstd::string::group_string_axioms;

    let mut v: Vec<char> = Vec::new();
    let mut it = s.chars();
    loop
        invariant
            it.remaining() == s@.skip(v@.len() as int),
            v@ == s@.take(v@.len() as int),
            v@.len() <= s@.len(),
            it.obeys_prophetic_iter_laws(),
        ensures
            v@ == s@,
        decreases s@.len() - v@.len(),
    {
        let ghost before = it;
        match it.next() {
            Some(c) => {
                assert(before.remaining().len() > 0);
                v.push(c);
                assert(s@.skip((v@.len() - 1) as int)[0] == s@[(v@.len() - 1) as int]);
                assert(v@ =~= s@.take(v@.len() as int));
                assert(it.remaining() =~= s@.skip(v@.len() as int));
            },
            None => {
                assert(s@.skip(v@.len() as int).len() == 0);
                assert(v@ =~= s@);
                break ;
            },
        }
    }
    v
}

/// A `String` holding these characters.
pub fn string_of(s: &[char]) -> (r: String)
    ensures
        r@ == s@,
{
    let mut r = String::new();
    let mut i: usize = 0;
    while i < s.len()
        invariant
            i <= s@.len(),
            r@ == s@.take(i as int),
        decreases s@.len() - i,
    {
        r.push(s[i]);
        i = i + 1;
        assert(r@ =~= s@.take(i as int));
    }
    assert(s@.take(s@.len() as int) =~= s@);
    r
}

// ── Quoting ────────────────────────────────────────────────────────────────────────────────────

/// What `{:?}` prints for a string: Rust's quoted and escaped form of it.
pub uninterp spec fn debug_quoted(s: Seq<char>) -> Seq<char>;

/// The string as `{:?}` prints it. `core::fmt`'s `Debug` for `str`; its result depends on the text
/// alone, and which characters it escapes is left to that implementation.
#[verifier::external_body]
pub(crate) fn debug_quoted_string(s: &str) -> (r: String)
    ensures
        r@ == debug_quoted(s@),
{
    format!("{:?}", s)
}

// ── Decimal rendering ──────────────────────────────────────────────────────────────────────────

/// The decimal digits of `n`, most significant first, with no leading zeros.
pub open spec fn dec(n: nat) -> Seq<char>
    decreases n,
{
    if n < 10 {
        seq![digit_char(n)]
    } else {
        dec(n / 10).push(digit_char(n % 10))
    }
}

/// A signed integer in decimal, with a leading `-` when negative.
pub open spec fn dec_int(i: int) -> Seq<char> {
    if i < 0 {
        seq!['-'] + dec((-i) as nat)
    } else {
        dec(i as nat)
    }
}

/// The character for a digit value below ten.
pub fn digit_to_char(d: u64) -> (c: char)
    requires
        d < 10,
    ensures
        c == digit_char(d as nat),
        is_digit(c),
{
    match d {
        0 => '0',
        1 => '1',
        2 => '2',
        3 => '3',
        4 => '4',
        5 => '5',
        6 => '6',
        7 => '7',
        8 => '8',
        _ => '9',
    }
}

/// Append `n` in decimal.
pub fn push_dec(s: &mut String, n: u64)
    ensures
        final(s)@ == old(s)@ + dec(n as nat),
    decreases n,
{
    if n >= 10 {
        push_dec(s, n / 10);
    }
    s.push(digit_to_char(n % 10));
    assert(s@ =~= old(s)@ + dec(n as nat));
}

} // verus!
