//! Reading an Item Text with Advanced Mod Descriptions on and off.
//!
//! With the setting on, the game adds an annotation line above each mod and prints each rolled
//! value's tier band right after it: `20(20-23)`. With it off, both are gone. Mods are grouped by
//! the Mod Group their lines belong to, never by the annotation, and a value is read the same with
//! or without its band, so the two forms read alike in everything but the annotation.

use vstd::prelude::*;

use crate::item::{
    annotation_of, bounds_end, is_description, is_trailer, lemma_bounds_end, lemma_number_end,
    lemma_scan_end, norm_from, normalised, number_end, scan_at, section_index, sign_len,
    too_precise, value_end, ModView,
};
use crate::number::{digits_end, lemma_digits_end};
use crate::text::{is_alnum, is_digit};

verus! {

// ── Inline bounds ──────────────────────────────────────────────────────────────────────────────

/// A line from position `i` on, with the inline `(lo-hi)` bounds after each rolled value removed.
pub open spec fn strip_from(s: Seq<char>, i: int) -> Seq<char>
    decreases s.len() - i,
{
    if i < 0 || i >= s.len() {
        Seq::empty()
    } else {
        match scan_at(s, i) {
            Some((v, e)) => {
                proof {
                    lemma_scan_end(s, i);
                }
                s.subrange(i, value_end(s, i)) + strip_from(s, e)
            },
            None => seq![s[i]] + strip_from(s, i + 1),
        }
    }
}

/// A mod line as the game prints it with Advanced Mod Descriptions off: `20(20-23) to 26(26-32)`
/// becomes `20 to 26`.
pub open spec fn strip_bounds(line: Seq<char>) -> Seq<char> {
    strip_from(line, 0)
}

/// A character that cannot join the value before removed bounds: no digit, sign, point or `(`.
pub open spec fn safe_after_bounds(c: char) -> bool {
    !is_digit(c) && c != '+' && c != '-' && c != '.' && c != '('
}

/// From position `i` on, each rolled value followed by a `(` is followed by its bounds, and the
/// bounds by a character that cannot join the value once they are gone, as in `+24(22-25)%`.
pub open spec fn bounds_ok_from(s: Seq<char>, i: int) -> bool
    decreases s.len() - i,
{
    if i < 0 || i >= s.len() {
        true
    } else {
        match scan_at(s, i) {
            Some((v, e)) => {
                proof {
                    lemma_scan_end(s, i);
                }
                let fe = value_end(s, i);
                &&& (fe < s.len() && s[fe] == '(') ==> (fe < e < s.len() && safe_after_bounds(s[e]))
                &&& bounds_ok_from(s, e)
            },
            None => bounds_ok_from(s, i + 1),
        }
    }
}

proof fn lemma_digits_end_at(s: Seq<char>, i: int, j: int)
    requires
        0 <= i <= j <= s.len(),
        forall|m: int| i <= m < j ==> is_digit(#[trigger] s[m]),
        j == s.len() || !is_digit(s[j]),
    ensures
        digits_end(s, i) == j,
{
    lemma_digits_end(s, i);
    let d = digits_end(s, i);
    if d < j {
        assert(is_digit(s[d]));
    }
    if d > j {
        assert(s.subrange(i, d)[j - i] == s[j]);
    }
}

/// A value's pieces: where its digits start and end, and where it ends before its bounds.
proof fn lemma_value_shape(s: Seq<char>, i: int)
    requires
        0 <= i < s.len(),
        scan_at(s, i) is Some,
    ensures
        ({
            let ds = i + sign_len(s, i);
            let de = digits_end(s, ds);
            let fe = value_end(s, i);
            &&& ds < de <= fe <= s.len()
            &&& fe == number_end(s, ds)
            &&& forall|m: int| ds <= m < de ==> is_digit(#[trigger] s[m])
            &&& de < s.len() ==> !is_digit(s[de])
            &&& fe > de ==> (s[de] == '.' && digits_end(s, de + 1) == fe)
            &&& fe == de ==> !(de < s.len() && s[de] == '.' && digits_end(s, de + 1) > de + 1)
            &&& fe > de ==> forall|m: int| de + 1 <= m < fe ==> is_digit(#[trigger] s[m])
            &&& fe < s.len() ==> !is_digit(s[fe])
            &&& scan_at(s, i).unwrap().1 == bounds_end(s, fe)
            &&& fe <= scan_at(s, i).unwrap().1 <= s.len()
        }),
{
    let ds = i + sign_len(s, i);
    lemma_digits_end(s, ds);
    lemma_number_end(s, ds);
    let de = digits_end(s, ds);
    let fe = number_end(s, ds);
    assert forall|m: int| ds <= m < de implies is_digit(#[trigger] s[m]) by {
        assert(s.subrange(ds, de)[m - ds] == s[m]);
    }
    if de < s.len() {
        lemma_digits_end(s, de + 1);
    }
    if fe > de {
        assert forall|m: int| de + 1 <= m < fe implies is_digit(#[trigger] s[m]) by {
            assert(s.subrange(de + 1, fe)[m - de - 1] == s[m]);
        }
    }
    lemma_bounds_end(s, fe);
}

proof fn lemma_strip_first(s: Seq<char>, i: int)
    requires
        0 <= i < s.len(),
    ensures
        strip_from(s, i).len() > 0,
        strip_from(s, i)[0] == s[i],
{
    match scan_at(s, i) {
        Some((v, e)) => {
            lemma_value_shape(s, i);
        },
        None => {},
    }
}

/// Removing bounds never touches a line's last character when every value's bounds are followed
/// by something.
proof fn lemma_strip_last(s: Seq<char>, i: int)
    requires
        0 <= i < s.len(),
        bounds_ok_from(s, i),
    ensures
        strip_from(s, i).len() > 0,
        strip_from(s, i).last() == s.last(),
    decreases s.len() - i,
{
    match scan_at(s, i) {
        Some((v, e)) => {
            lemma_value_shape(s, i);
            let fe = value_end(s, i);
            if e < s.len() {
                lemma_strip_last(s, e);
            } else {
                assert(fe == e) by {
                    if fe < s.len() && s[fe] == '(' {
                    } else {
                    }
                }
                assert(strip_from(s, e) =~= Seq::<char>::empty());
            }
        },
        None => {
            if i + 1 < s.len() {
                lemma_strip_last(s, i + 1);
            }
        },
    }
}

/// Where a value of the line stands in the stripped line: copied up to where it ends, and followed
/// by what follows its bounds.
proof fn lemma_strip_copy(s: Seq<char>, t: Seq<char>, i: int, k: int)
    requires
        0 <= i < s.len(),
        0 <= k <= t.len(),
        t.skip(k) == strip_from(s, i),
        scan_at(s, i) is Some,
    ensures
        ({
            let fe = value_end(s, i);
            let e = scan_at(s, i).unwrap().1;
            let n = k + (fe - i);
            &&& n <= t.len()
            &&& forall|m: int| k <= m < n ==> #[trigger] t[m] == s[m - k + i]
            &&& t.skip(n) == strip_from(s, e)
            &&& e < s.len() ==> (n < t.len() && t[n] == s[e])
            &&& e >= s.len() ==> n == t.len()
        }),
{
    lemma_value_shape(s, i);
    let fe = value_end(s, i);
    let e = scan_at(s, i).unwrap().1;
    let a = s.subrange(i, fe);
    let b = strip_from(s, e);
    assert(strip_from(s, i) == a + b);
    let n = k + (fe - i);
    assert(t.skip(k).len() == a.len() + b.len());
    assert forall|m: int| k <= m < n implies #[trigger] t[m] == s[m - k + i] by {
        assert(t.skip(k)[m - k] == (a + b)[m - k]);
    }
    assert(t.skip(n) =~= b) by {
        assert forall|j: int| 0 <= j < t.skip(n).len() implies #[trigger] t.skip(n)[j] == b[j] by {
            assert(t.skip(k)[fe - i + j] == (a + b)[fe - i + j]);
        }
    }
    if e < s.len() {
        lemma_strip_first(s, e);
        assert(t[n] == t.skip(n)[0]);
    }
}

/// After a value with no fraction and no bounds, a `.` in the stripped line is followed by what
/// followed it in the line.
proof fn lemma_strip_point(s: Seq<char>, t: Seq<char>, fe: int, n: int)
    requires
        0 <= fe < s.len(),
        0 <= n <= t.len(),
        t.skip(n) == strip_from(s, fe),
        s[fe] == '.',
        digits_end(s, fe + 1) == fe + 1,
    ensures
        digits_end(t, n + 1) == n + 1,
{
    assert(scan_at(s, fe) is None);
    assert(strip_from(s, fe) == seq![s[fe]] + strip_from(s, fe + 1));
    if fe + 1 < s.len() {
        lemma_strip_first(s, fe + 1);
        assert(t.skip(n)[1] == t[n + 1]);
        lemma_digits_end(s, fe + 1);
    } else {
        assert(strip_from(s, fe + 1) =~= Seq::<char>::empty());
        assert(t.skip(n).len() == 1);
    }
    lemma_digits_end_at(t, n + 1, n + 1);
}

/// The digits and fraction of a value, read from the stripped line.
proof fn lemma_strip_number(s: Seq<char>, t: Seq<char>, i: int, k: int)
    requires
        0 <= i < s.len(),
        0 <= k <= t.len(),
        t.skip(k) == strip_from(s, i),
        bounds_ok_from(s, i),
        scan_at(s, i) is Some,
    ensures
        ({
            let sl = sign_len(s, i);
            let ds = i + sl;
            let de = digits_end(s, ds);
            let fe = value_end(s, i);
            let dt = k + (de - i);
            let n = k + (fe - i);
            &&& sign_len(t, k) == sl
            &&& digits_end(t, k + sl) == dt
            &&& number_end(t, k + sl) == n
            &&& t.subrange(k + sl, dt) == s.subrange(ds, de)
            &&& n > dt ==> t.subrange(dt + 1, n) == s.subrange(de + 1, fe)
            &&& (n == t.len() || t[n] != '(')
        }),
{
    lemma_value_shape(s, i);
    lemma_strip_copy(s, t, i, k);
    let sl = sign_len(s, i);
    let ds = i + sl;
    let de = digits_end(s, ds);
    let fe = value_end(s, i);
    let e = scan_at(s, i).unwrap().1;
    let n = k + (fe - i);
    let dt = k + (de - i);
    assert(!(fe < s.len() && s[fe] == '(') ==> e == fe);
    assert(t[k] == s[i]);
    assert forall|m: int| k + sl <= m < dt implies is_digit(#[trigger] t[m]) by {
        assert(t[m] == s[m - k + i]);
    }
    assert(n == t.len() || !is_digit(t[n]));
    assert(n == t.len() || t[n] != '(');
    if de < fe {
        assert(t[dt] == s[de]);
        lemma_digits_end_at(t, k + sl, dt);
        assert forall|m: int| dt + 1 <= m < n implies is_digit(#[trigger] t[m]) by {
            assert(t[m] == s[m - k + i]);
        }
        lemma_digits_end_at(t, dt + 1, n);
        assert(t[dt] == '.');
        assert(number_end(t, k + sl) == n);
        assert(t.subrange(dt + 1, n) =~= s.subrange(de + 1, fe)) by {
            assert forall|j: int| 0 <= j < n - dt - 1 implies #[trigger] t.subrange(dt + 1, n)[j]
                == s.subrange(de + 1, fe)[j] by {
                assert(t[dt + 1 + j] == s[dt + 1 + j - k + i]);
            }
        }
    } else {
        lemma_digits_end_at(t, k + sl, dt);
        if n < t.len() && t[n] == '.' {
            assert(e == fe);
            lemma_digits_end(s, fe + 1);
            lemma_strip_point(s, t, fe, n);
        }
        assert(number_end(t, k + sl) == n);
    }
    assert(t.subrange(k + sl, dt) =~= s.subrange(ds, de)) by {
        assert forall|j: int| 0 <= j < de - ds implies #[trigger] t.subrange(k + sl, dt)[j] == s.subrange(
            ds,
            de,
        )[j] by {
            assert(t[k + sl + j] == s[k + sl + j - k + i]);
        }
    }
}

/// A value of the line is scanned from the stripped line alike, ending where its bounds were.
proof fn lemma_strip_scan_value(s: Seq<char>, t: Seq<char>, i: int, k: int)
    requires
        0 <= i < s.len(),
        0 <= k <= t.len(),
        t.skip(k) == strip_from(s, i),
        bounds_ok_from(s, i),
        scan_at(s, i) is Some,
        k > 0 ==> !is_alnum(t[k - 1]),
    ensures
        scan_at(t, k) == Some((scan_at(s, i).unwrap().0, k + (value_end(s, i) - i))),
{
    lemma_value_shape(s, i);
    lemma_strip_number(s, t, i, k);
    lemma_strip_copy(s, t, i, k);
    let sl = sign_len(s, i);
    let ds = i + sl;
    let de = digits_end(s, ds);
    let fe = value_end(s, i);
    let n = k + (fe - i);
    let dt = k + (de - i);
    assert(t[k] == s[i]);
    assert(bounds_end(t, n) == n);
    let frac_s = if fe > de {
        s.subrange(de + 1, fe)
    } else {
        Seq::empty()
    };
    let frac_t = if n > dt {
        t.subrange(dt + 1, n)
    } else {
        Seq::empty()
    };
    assert(frac_s == frac_t);
    assert(dt != k + sl);
}

/// The reading of a line from `i` on, compared with the reading of its stripped form from `k` on,
/// where the stripped form from `k` is `strip_from(s, i)`.
proof fn lemma_strip_norm(s: Seq<char>, t: Seq<char>, i: int, k: int)
    requires
        0 <= i <= s.len(),
        0 <= k <= t.len(),
        t.skip(k) == strip_from(s, i),
        bounds_ok_from(s, i),
        i == 0 <==> k == 0,
        i > 0 ==> (is_alnum(t[k - 1]) == is_alnum(s[i - 1]) || (i < s.len() && !is_digit(s[i])
            && s[i] != '+' && s[i] != '-')),
    ensures
        norm_from(t, k) == norm_from(s, i),
    decreases s.len() - i,
{
    if i == s.len() {
        assert(t.skip(k).len() == 0);
        return;
    }
    lemma_strip_first(s, i);
    assert(t[k] == t.skip(k)[0]);
    match scan_at(s, i) {
        Some((v, e)) => {
            lemma_value_shape(s, i);
            lemma_strip_copy(s, t, i, k);
            let fe = value_end(s, i);
            let n = k + (fe - i);
            assert(sign_len(s, i) == 1 ==> s[i] == '+' || s[i] == '-');
            assert(sign_len(s, i) == 0 ==> is_digit(s[i]));
            lemma_strip_scan_value(s, t, i, k);
            lemma_strip_number(s, t, i, k);
            assert(too_precise(t, k) == too_precise(s, i));
            assert(t.subrange(k, n) =~= s.subrange(i, fe)) by {
                assert forall|j: int| 0 <= j < n - k implies #[trigger] t.subrange(k, n)[j]
                    == s.subrange(i, fe)[j] by {
                    assert(t[k + j] == s[k + j - k + i]);
                }
            }
            assert(!(fe < s.len() && s[fe] == '(') ==> e == fe);
            if e == fe {
                assert(t[n - 1] == s[n - 1 - k + i]);
            }
            lemma_strip_norm(s, t, e, n);
        },
        None => {
            assert(strip_from(s, i) == seq![s[i]] + strip_from(s, i + 1));
            assert(t.skip(k + 1) =~= strip_from(s, i + 1)) by {
                assert forall|j: int| 0 <= j < t.skip(k + 1).len() implies #[trigger] t.skip(k + 1)[j]
                    == strip_from(s, i + 1)[j] by {
                    assert(t.skip(k)[1 + j] == (seq![s[i]] + strip_from(s, i + 1))[1 + j]);
                }
            }
            if i + 1 < s.len() {
                lemma_strip_first(s, i + 1);
                assert(t[k + 1] == t.skip(k + 1)[0]);
            } else {
                assert(t.skip(k + 1).len() == 0);
            }
            let ds = i + sign_len(s, i);
            lemma_digits_end(s, ds);
            if !(i > 0 && is_alnum(s[i - 1])) || (i < s.len() && !is_digit(s[i]) && s[i] != '+'
                && s[i] != '-') {
                assert(digits_end(s, ds) == ds);
                if ds < s.len() {
                    assert(!is_digit(s[ds]));
                }
                lemma_digits_end_at(t, k + sign_len(t, k), k + sign_len(t, k));
            }
            assert(scan_at(t, k) is None);
            lemma_strip_norm(s, t, i + 1, k + 1);
        },
    }
}

/// A line is read the same with its inline bounds removed: the same match string, the same values.
pub proof fn lemma_strip_keeps_reading(line: Seq<char>)
    requires
        bounds_ok_from(line, 0),
    ensures
        normalised(strip_bounds(line)) == normalised(line),
{
    assert(strip_bounds(line).skip(0) =~= strip_bounds(line));
    lemma_strip_norm(line, strip_bounds(line), 0, 0);
}

// ── Sections ───────────────────────────────────────────────────────────────────────────────────

/// A line that reads alike in both forms: a line opening with `{` is an annotation, and each
/// value's bounds are placed as the game places them.
pub open spec fn plain_safe(line: Seq<char>) -> bool {
    &&& (line.len() > 0 && line[0] == '{') ==> annotation_of(line) is Some
    &&& bounds_ok_from(line, 0)
}

/// An explicit-mod section as the game prints it with Advanced Mod Descriptions off: no annotation
/// lines, and no inline bounds.
pub open spec fn plain_section(lines: Seq<Seq<char>>) -> Seq<Seq<char>>
    decreases lines.len(),
{
    if lines.len() == 0 {
        Seq::empty()
    } else {
        let p = plain_section(lines.drop_last());
        if annotation_of(lines.last()) is Some {
            p
        } else {
            p.push(strip_bounds(lines.last()))
        }
    }
}

/// Two readings of a section's mods agree in everything a Verdict is computed from: the same
/// groups, in the same slots, from the same match strings and the same values.
pub open spec fn same_mods(a: Seq<ModView>, b: Seq<ModView>) -> bool {
    &&& a.len() == b.len()
    &&& forall|j: int|
        0 <= j < a.len() ==> {
            &&& (#[trigger] a[j]).group_id == b[j].group_id
            &&& a[j].generation == b[j].generation
            &&& a[j].match_strings == b[j].match_strings
            &&& a[j].values == b[j].values
        }
}

/// A line that is no annotation reads the same stripped: still no annotation, a description
/// exactly when it was one, and the same match string and values.
pub(crate) proof fn lemma_plain_line(line: Seq<char>)
    requires
        plain_safe(line),
        annotation_of(line) is None,
    ensures
        annotation_of(strip_bounds(line)) is None,
        is_description(strip_bounds(line)) == is_description(line),
        normalised(strip_bounds(line)) == normalised(line),
{
    lemma_strip_keeps_reading(line);
    if line.len() == 0 {
        assert(strip_bounds(line) =~= Seq::<char>::empty());
    } else {
        lemma_strip_first(line, 0);
        lemma_strip_last(line, 0);
    }
}

// ── Whole Item Texts ───────────────────────────────────────────────────────────────────────────

/// An Item Text's sections as the game prints them with Advanced Mod Descriptions off: the
/// explicit-mod section (the one after the section holding `Item Level:`) without its annotation
/// lines and inline bounds, every other section as it was.
pub open spec fn sections_without_descriptions(secs: Seq<Seq<Seq<char>>>) -> Seq<Seq<Seq<char>>> {
    match section_index(secs, "Item Level:"@) {
        Some(si) => if si + 1 < secs.len() {
            secs.update(si + 1, plain_section(secs[si + 1]))
        } else {
            secs
        },
        None => secs,
    }
}

/// The explicit-mod section reads alike in both forms: each of its lines is [`plain_safe`], and it
/// is taken for the trailer in one form exactly when in the other.
pub open spec fn descriptions_removable(secs: Seq<Seq<Seq<char>>>) -> bool {
    match section_index(secs, "Item Level:"@) {
        Some(si) => si + 1 < secs.len() ==> {
            &&& forall|j: int| 0 <= j < secs[si + 1].len() ==> plain_safe(#[trigger] secs[si + 1][j])
            &&& is_trailer(plain_section(secs[si + 1])) == is_trailer(secs[si + 1])
        },
        None => true,
    }
}


} // verus!
