//! Version parsing and comparison.
//!
//! A version string is cleaned (whitespace trimmed, any leading `v`/`V`
//! markers stripped) and split on `.`; each segment contributes the numeric
//! value of its leading decimal digits.  Comparison is numeric, segment by
//! segment, with the shorter sequence implicitly padded with zeros.

use vstd::prelude::*;
use crate::strutil::{
    chars_of, chars_eq, is_digit_char, digit_val, digits_val, lemma_digits_val_monotone, trim_ws,
    trim_chars, find_char_from, lemma_find_char_range, is_digit_exec,
};
use core::cmp::Ordering;

verus! {

/// `s` without its leading `v` and `V` characters.
pub open spec fn strip_v_prefix(s: Seq<char>) -> Seq<char>
    decreases s.len(),
{
    if s.len() > 0 && (s[0] == 'v' || s[0] == 'V') {
        strip_v_prefix(s.drop_first())
    } else {
        s
    }
}

/// The cleaned form a version string is parsed from: trimmed, then with the
/// leading `v`/`V` markers stripped.
pub open spec fn cleaned(s: Seq<char>) -> Seq<char> {
    strip_v_prefix(trim_ws(s))
}

/// The longest prefix of `s` made of decimal digits.
pub open spec fn digits_prefix(s: Seq<char>) -> Seq<char>
    decreases s.len(),
{
    if s.len() > 0 && is_digit_char(s[0]) {
        seq![s[0]] + digits_prefix(s.drop_first())
    } else {
        Seq::empty()
    }
}

/// The position of the first `.` in `s` at or after `i`, or `s.len()` if
/// there is none.
pub open spec fn find_dot(s: Seq<char>, i: int) -> int {
    find_char_from(s, '.', i)
}

/// The numeric value of one dot-separated segment: the value of its leading
/// digits, provided there is at least one and the value fits in `u64`.
pub open spec fn seg_parse(seg: Seq<char>) -> Option<u64> {
    let ds = digits_prefix(seg);
    if ds.len() == 0 {
        None
    } else if digits_val(ds) > u64::MAX {
        None
    } else {
        Some(digits_val(ds) as u64)
    }
}

/// The segment values of `s` from position `p` on, or `None` if any segment
/// fails to parse.
pub open spec fn parse_from(s: Seq<char>, p: int) -> Option<Seq<u64>>
    decreases s.len() - p,
    via parse_from_decreases
{
    if p < 0 || p > s.len() {
        None
    } else {
        let d = find_dot(s, p);
        match seg_parse(s.subrange(p, d)) {
            None => None,
            Some(v) => if d >= s.len() {
                Some(seq![v])
            } else {
                match parse_from(s, d + 1) {
                    None => None,
                    Some(rest) => Some(seq![v] + rest),
                }
            },
        }
    }
}

#[via_fn]
proof fn parse_from_decreases(s: Seq<char>, p: int) {
    if 0 <= p <= s.len() {
        lemma_find_dot_range(s, p);
    }
}

/// `find_dot` stays between its starting point and the end of the string,
/// and lands on a dot unless it reaches the end.
pub proof fn lemma_find_dot_range(s: Seq<char>, i: int)
    requires
        0 <= i <= s.len(),
    ensures
        i <= find_dot(s, i) <= s.len(),
        forall|k: int| i <= k < find_dot(s, i) ==> s[k] != '.',
        find_dot(s, i) < s.len() ==> s[find_dot(s, i)] == '.',
{
    lemma_find_char_range(s, '.', i);
}

/// What `parse_version_numbers` yields on a version string.
pub open spec fn spec_parse_version(s: Seq<char>) -> Option<Seq<u64>> {
    parse_from(cleaned(s), 0)
}

/// The padded segment: a missing trailing position reads as zero.
pub open spec fn seg_at(v: Seq<u64>, i: int) -> u64 {
    if 0 <= i < v.len() {
        v[i]
    } else {
        0
    }
}

/// Numeric comparison of two segment sequences from position `i` on, each
/// padded with zeros to the longer length.
pub open spec fn cmp_segments_from(a: Seq<u64>, b: Seq<u64>, i: int) -> Ordering
    decreases (if a.len() > b.len() {
        a.len() as int
    } else {
        b.len() as int
    }) - i,
{
    let m = if a.len() > b.len() {
        a.len() as int
    } else {
        b.len() as int
    };
    if i < 0 || i >= m {
        Ordering::Equal
    } else if seg_at(a, i) < seg_at(b, i) {
        Ordering::Less
    } else if seg_at(a, i) > seg_at(b, i) {
        Ordering::Greater
    } else {
        cmp_segments_from(a, b, i + 1)
    }
}

/// Numeric comparison of two segment sequences with zero padding.
pub open spec fn cmp_segments(a: Seq<u64>, b: Seq<u64>) -> Ordering {
    cmp_segments_from(a, b, 0)
}

/// What `compare_versions` yields on two version strings.
pub open spec fn spec_compare_versions(left: Seq<char>, right: Seq<char>) -> Option<Ordering> {
    match (spec_parse_version(left), spec_parse_version(right)) {
        (Some(a), Some(b)) => Some(cmp_segments(a, b)),
        _ => None,
    }
}

/// The guard that keeps a date-style identifier (`20…-…`) from being read
/// as newer than a semantic version: it fires when `latest` (after the
/// `v`/`V` prefix) starts with `20` and contains a hyphen while `current`
/// does not start with `20`.
pub open spec fn date_scheme_guard(latest: Seq<char>, current: Seq<char>) -> bool {
    let l = strip_v_prefix(latest);
    let c = strip_v_prefix(current);
    l.len() >= 2 && l[0] == '2' && l[1] == '0' && l.contains('-') && !(c.len() >= 2 && c[0] == '2'
        && c[1] == '0')
}

/// What `is_newer_version` yields on two version strings.
pub open spec fn spec_is_newer(latest: Seq<char>, current: Seq<char>) -> bool {
    if date_scheme_guard(latest, current) {
        false
    } else {
        match spec_compare_versions(latest, current) {
            Some(o) => o == Ordering::Greater,
            None => strip_v_prefix(latest) != strip_v_prefix(current),
        }
    }
}

/// The cleaned characters of a version string: trimmed of whitespace, with
/// leading `v`/`V` markers removed.
pub(crate) fn clean_version_chars(s: &str) -> (r: Vec<char>)
    ensures
        r@ == cleaned(s@),
{
    let t = trim_chars(s);
    let ghost tv = t@;
    let n = t.len();
    let mut lo: usize = 0;
    proof {
        assert(tv.skip(0) =~= tv);
    }
    while lo < n && (t[lo] == 'v' || t[lo] == 'V')
        invariant
            lo <= n,
            n == t@.len(),
            t@ == tv,
            tv == trim_ws(s@),
            strip_v_prefix(tv) == strip_v_prefix(tv.skip(lo as int)),
        decreases n - lo,
    {
        proof {
            assert(tv.skip(lo as int)[0] == tv[lo as int]);
            assert(tv.skip(lo as int).drop_first() =~= tv.skip(lo as int + 1));
        }
        lo = lo + 1;
    }
    proof {
        if lo < n {
            assert(tv.skip(lo as int)[0] == tv[lo as int]);
        }
        assert(strip_v_prefix(tv.skip(lo as int)) == tv.skip(lo as int));
    }
    let mut r: Vec<char> = Vec::new();
    let mut i: usize = lo;
    while i < n
        invariant
            lo <= i <= n,
            n == t@.len(),
            t@ == tv,
            r@ =~= tv.subrange(lo as int, i as int),
        decreases n - i,
    {
        r.push(t[i]);
        i = i + 1;
    }
    proof {
        assert(r@ =~= tv.skip(lo as int));
    }
    r
}

/// Every character of a digits prefix is a digit.
proof fn lemma_digits_prefix_digits(s: Seq<char>)
    ensures
        forall|t: int|
            0 <= t < digits_prefix(s).len() ==> is_digit_char(#[trigger] digits_prefix(s)[t]),
    decreases s.len(),
{
    if s.len() > 0 && is_digit_char(s[0]) {
        lemma_digits_prefix_digits(s.drop_first());
        assert forall|t: int| 0 <= t < digits_prefix(s).len() implies is_digit_char(
            #[trigger] digits_prefix(s)[t],
        ) by {
            if t > 0 {
                assert(digits_prefix(s)[t] == digits_prefix(s.drop_first())[t - 1]);
            }
        }
    }
}

/// Parse one segment `cs[p..d)`: the value of its leading digits.
fn parse_segment(cs: &Vec<char>, p: usize, d: usize) -> (r: Option<u64>)
    requires
        p <= d <= cs@.len(),
    ensures
        r == seg_parse(cs@.subrange(p as int, d as int)),
{
    let ghost seg = cs@.subrange(p as int, d as int);
    proof {
        assert(seg.take(0) + digits_prefix(seg.skip(0)) =~= digits_prefix(seg)) by {
            assert(seg.skip(0) =~= seg);
            assert(seg.take(0) + digits_prefix(seg) =~= digits_prefix(seg));
        }
        assert(digits_val(seg.take(0)) == 0);
    }
    let mut value: u64 = 0;
    let mut k: usize = p;
    while k < d && is_digit_exec(cs[k])
        invariant
            p <= k <= d <= cs@.len(),
            seg == cs@.subrange(p as int, d as int),
            digits_prefix(seg) == seg.take(k as int - p as int) + digits_prefix(
                seg.skip(k as int - p as int),
            ),
            k < d ==> seg.skip(k as int - p as int)[0] == cs@[k as int],
            value == digits_val(seg.take(k as int - p as int)),
        decreases d - k,
    {
        let c = cs[k];
        let dv: u64 = (c as u32 - 48) as u64;
        let ghost kp = k as int - p as int;
        proof {
            assert(seg[kp] == cs@[k as int]);
            assert(is_digit_char(seg[kp]));
            assert(dv as int == digit_val(seg[kp]));
            // unfold the digits prefix one step
            assert(seg.skip(kp)[0] == seg[kp]);
            assert(seg.skip(kp).drop_first() =~= seg.skip(kp + 1));
            assert(digits_prefix(seg.skip(kp)) == seq![seg[kp]] + digits_prefix(seg.skip(kp + 1)));
            assert(seg.take(kp + 1).drop_last() =~= seg.take(kp));
            assert(seg.take(kp + 1).last() == seg[kp]);
            assert(digits_val(seg.take(kp + 1)) == digits_val(seg.take(kp)) * 10 + digit_val(
                seg[kp],
            ));
        }
        let next: Option<u64> = match value.checked_mul(10) {
            Some(x) => x.checked_add(dv),
            None => None,
        };
        match next {
            None => {
                // the segment's digits overflow a u64, so parsing fails
                proof {
                    assert(digits_val(seg.take(kp + 1)) > u64::MAX);
                    assert(digits_prefix(seg).take(kp + 1) =~= seg.take(kp + 1));
                    assert(kp + 1 <= digits_prefix(seg).len());
                    lemma_digits_prefix_digits(seg);
                    lemma_digits_val_monotone(digits_prefix(seg), kp + 1);
                    assert(digits_val(digits_prefix(seg)) > u64::MAX);
                }
                return None;
            },
            Some(y) => {
                value = y;
            },
        }
        proof {
            assert(digits_prefix(seg) == seg.take(kp + 1) + digits_prefix(seg.skip(kp + 1))) by {
                assert(seg.take(kp) + (seq![seg[kp]] + digits_prefix(seg.skip(kp + 1))) =~= seg.take(
                    kp + 1,
                ) + digits_prefix(seg.skip(kp + 1)));
            }
            if k + 1 < d {
                assert(seg.skip(kp + 1)[0] == seg[kp + 1]);
                assert(seg[kp + 1] == cs@[k + 1 as int]);
            }
        }
        k = k + 1;
    }
    proof {
        if k < d {
            assert(!is_digit_char(seg.skip(k as int - p as int)[0]));
        }
        assert(digits_prefix(seg.skip(k as int - p as int)) =~= Seq::<char>::empty());
        assert(digits_prefix(seg) =~= seg.take(k as int - p as int));
    }
    if k == p {
        proof {
            assert(digits_prefix(seg).len() == 0);
        }
        None
    } else {
        proof {
            assert(digits_prefix(seg).len() == k as int - p as int);
            assert(digits_val(digits_prefix(seg)) == value);
        }
        Some(value)
    }
}

/// Parse a version string into its numeric segments.
///
/// The string is trimmed, a leading `v`/`V` prefix is stripped, and each
/// dot-separated segment contributes the value of its leading digits.
/// Returns `None` when any segment has no leading digit (in particular when
/// the cleaned string is empty) or a segment's value does not fit in `u64`.
pub fn parse_version_numbers(version: &str) -> (r: Option<Vec<u64>>)
    ensures
        r matches Some(v) ==> spec_parse_version(version@) == Some(v@),
        r is None ==> spec_parse_version(version@) is None,
{
    let cs = clean_version_chars(version);
    let ghost s = cs@;
    let n = cs.len();
    let mut out: Vec<u64> = Vec::new();
    let mut p: usize = 0;
    loop
        invariant
            p <= n,
            n == s.len(),
            cs@ == s,
            s == cleaned(version@),
            parse_from(s, 0) == (match parse_from(s, p as int) {
                None => None::<Seq<u64>>,
                Some(rest) => Some(out@ + rest),
            }),
        decreases n - p,
    {
        let mut d: usize = p;
        while d < n && !(cs[d] == '.')
            invariant
                p <= d <= n,
                n == s.len(),
                cs@ == s,
                find_dot(s, p as int) == find_dot(s, d as int),
            decreases n - d,
        {
            proof {
                assert(find_dot(s, d as int) == find_dot(s, d as int + 1));
            }
            d = d + 1;
        }
        proof {
            assert(find_dot(s, d as int) == d);
        }
        let seg = parse_segment(&cs, p, d);
        match seg {
            None => {
                proof {
                    assert(parse_from(s, p as int) is None);
                }
                return None;
            },
            Some(v) => {
                let ghost old_out = out@;
                out.push(v);
                if d == n {
                    proof {
                        assert(parse_from(s, p as int) == Some(seq![v]));
                        assert(old_out + seq![v] =~= out@);
                    }
                    return Some(out);
                }
                proof {
                    if parse_from(s, d as int + 1) is Some {
                        let rest = parse_from(s, d as int + 1)->Some_0;
                        assert(old_out + (seq![v] + rest) =~= out@ + rest);
                    }
                }
                p = d + 1;
            },
        }
    }
}

/// Compare two version strings numerically, segment by segment, with the
/// shorter sequence padded with zeros.  Returns `None` exactly when either
/// string fails to parse.
pub fn compare_versions(left: &str, right: &str) -> (r: Option<Ordering>)
    ensures
        r == spec_compare_versions(left@, right@),
{
    let lv = match parse_version_numbers(left) {
        Some(v) => v,
        None => {
            return None;
        },
    };
    let rv = match parse_version_numbers(right) {
        Some(v) => v,
        None => {
            return None;
        },
    };
    let max_len = if lv.len() > rv.len() {
        lv.len()
    } else {
        rv.len()
    };
    let mut idx: usize = 0;
    while idx < max_len
        invariant
            idx <= max_len,
            max_len == (if lv@.len() > rv@.len() {
                lv@.len()
            } else {
                rv@.len()
            }),
            spec_parse_version(left@) == Some(lv@),
            spec_parse_version(right@) == Some(rv@),
            cmp_segments(lv@, rv@) == cmp_segments_from(lv@, rv@, idx as int),
        decreases max_len - idx,
    {
        let l = if idx < lv.len() {
            lv[idx]
        } else {
            0
        };
        let r2 = if idx < rv.len() {
            rv[idx]
        } else {
            0
        };
        proof {
            assert(l == seg_at(lv@, idx as int));
            assert(r2 == seg_at(rv@, idx as int));
        }
        if l < r2 {
            proof {
                assert(cmp_segments_from(lv@, rv@, idx as int) == Ordering::Less);
            }
            return Some(Ordering::Less);
        }
        if l > r2 {
            proof {
                assert(cmp_segments_from(lv@, rv@, idx as int) == Ordering::Greater);
            }
            return Some(Ordering::Greater);
        }
        proof {
            assert(cmp_segments_from(lv@, rv@, idx as int) == cmp_segments_from(
                lv@,
                rv@,
                idx as int + 1,
            ));
        }
        idx = idx + 1;
    }
    proof {
        assert(cmp_segments_from(lv@, rv@, idx as int) == Ordering::Equal);
    }
    Some(Ordering::Equal)
}

fn strip_v_chars(s: &str) -> (r: Vec<char>)
    ensures
        r@ == strip_v_prefix(s@),
{
    let cs = chars_of(s);
    let n = cs.len();
    let mut lo: usize = 0;
    proof {
        assert(s@.skip(0) =~= s@);
    }
    while lo < n && (cs[lo] == 'v' || cs[lo] == 'V')
        invariant
            lo <= n,
            n == cs@.len(),
            cs@ == s@,
            strip_v_prefix(s@) == strip_v_prefix(s@.skip(lo as int)),
        decreases n - lo,
    {
        proof {
            assert(s@.skip(lo as int)[0] == s@[lo as int]);
            assert(s@.skip(lo as int).drop_first() =~= s@.skip(lo as int + 1));
        }
        lo = lo + 1;
    }
    proof {
        if lo < n {
            assert(s@.skip(lo as int)[0] == s@[lo as int]);
        }
        assert(strip_v_prefix(s@.skip(lo as int)) == s@.skip(lo as int));
    }
    let mut r: Vec<char> = Vec::new();
    let mut i: usize = lo;
    while i < n
        invariant
            lo <= i <= n,
            n == cs@.len(),
            cs@ == s@,
            r@ =~= s@.subrange(lo as int, i as int),
        decreases n - i,
    {
        r.push(cs[i]);
        i = i + 1;
    }
    proof {
        assert(r@ =~= s@.skip(lo as int));
    }
    r
}

fn contains_hyphen(cs: &Vec<char>) -> (r: bool)
    ensures
        r == cs@.contains('-'),
{
    let n = cs.len();
    let mut i: usize = 0;
    while i < n
        invariant
            i <= n,
            n == cs@.len(),
            forall|j: int| 0 <= j < i ==> cs@[j] != '-',
        decreases n - i,
    {
        if cs[i] == '-' {
            return true;
        }
        i = i + 1;
    }
    proof {
        assert(!cs@.contains('-'));
    }
    false
}

/// Is `latest` strictly newer than `current`?
///
/// A date-style `latest` (`20…` with a hyphen) is never newer than a
/// non-date `current`: the two schemes are incomparable.  Otherwise the two
/// strings are compared numerically; when either fails to parse, the
/// comparison falls back to plain inequality of the `v`/`V`-stripped
/// strings.
pub fn is_newer_version(latest: &str, current: &str) -> (r: bool)
    ensures
        r == spec_is_newer(latest@, current@),
        date_scheme_guard(latest@, current@) ==> !r,
        !date_scheme_guard(latest@, current@) && spec_compare_versions(latest@, current@) is None
            ==> r == (strip_v_prefix(latest@) != strip_v_prefix(current@)),
{
    let lt = strip_v_chars(latest);
    let ct = strip_v_chars(current);
    let latest_is_date = lt.len() >= 2 && lt[0] == '2' && lt[1] == '0' && contains_hyphen(&lt);
    let current_is_date = ct.len() >= 2 && ct[0] == '2' && ct[1] == '0';
    if latest_is_date && !current_is_date {
        return false;
    }
    match compare_versions(latest, current) {
        Some(o) => match o {
            Ordering::Greater => true,
            _ => false,
        },
        None => !chars_eq(&lt, &ct),
    }
}

proof fn lemma_cmp_segments_antisym(a: Seq<u64>, b: Seq<u64>, i: int)
    ensures
        cmp_segments_from(a, b, i) == Ordering::Less <==> cmp_segments_from(b, a, i)
            == Ordering::Greater,
        cmp_segments_from(a, b, i) == Ordering::Equal <==> cmp_segments_from(b, a, i)
            == Ordering::Equal,
    decreases (if a.len() > b.len() {
        a.len() as int
    } else {
        b.len() as int
    }) - i,
{
    let m = if a.len() > b.len() {
        a.len() as int
    } else {
        b.len() as int
    };
    if 0 <= i < m && seg_at(a, i) == seg_at(b, i) {
        lemma_cmp_segments_antisym(a, b, i + 1);
    }
}

/// `compare_versions` is antisymmetric: swapping the two version strings
/// swaps `Less` and `Greater` and preserves `Equal`.  Stated for all pairs
/// of parseable version strings.
pub proof fn lemma_compare_versions_antisymmetric(a: Seq<char>, b: Seq<char>)
    requires
        spec_parse_version(a) is Some,
        spec_parse_version(b) is Some,
    ensures
        spec_compare_versions(a, b) == Some(Ordering::Less) <==> spec_compare_versions(b, a)
            == Some(Ordering::Greater),
        spec_compare_versions(a, b) == Some(Ordering::Equal) <==> spec_compare_versions(b, a)
            == Some(Ordering::Equal),
{
    let va = spec_parse_version(a)->Some_0;
    let vb = spec_parse_version(b)->Some_0;
    lemma_cmp_segments_antisym(va, vb, 0);
}

proof fn lemma_cmp_segments_push_zero_from(a: Seq<u64>, b: Seq<u64>, i: int)
    ensures
        cmp_segments_from(a.push(0), b, i) == cmp_segments_from(a, b, i),
    decreases (if a.len() + 1 > b.len() {
        a.len() as int + 1
    } else {
        b.len() as int
    }) - i,
{
    let m = if a.len() + 1 > b.len() {
        a.len() as int + 1
    } else {
        b.len() as int
    };
    if 0 <= i < m {
        assert(seg_at(a.push(0), i) == seg_at(a, i));
        if seg_at(a, i) == seg_at(b, i) {
            lemma_cmp_segments_push_zero_from(a, b, i + 1);
        }
    }
}

/// Comparison is consistent with zero padding: appending a trailing zero
/// segment to either sequence leaves the comparison unchanged (so `1.0`
/// and `1.0.0` compare as `Equal`).
pub proof fn lemma_cmp_segments_zero_padding(a: Seq<u64>, b: Seq<u64>)
    ensures
        cmp_segments(a.push(0), b) == cmp_segments(a, b),
        cmp_segments(a, b.push(0)) == cmp_segments(a, b),
{
    lemma_cmp_segments_push_zero_from(a, b, 0);
    // padding on the right-hand side reduces to the left-hand case through
    // antisymmetry, once the result is known to be one of the three orderings
    lemma_cmp_segments_antisym(a, b, 0);
    lemma_cmp_segments_antisym(a, b.push(0), 0);
    lemma_cmp_segments_push_zero_from(b, a, 0);
    lemma_cmp_total(a, b.push(0), 0);
    lemma_cmp_total(a, b, 0);
}

proof fn lemma_cmp_segments_refl(a: Seq<u64>, i: int)
    ensures
        cmp_segments_from(a, a, i) == Ordering::Equal,
    decreases a.len() - i,
{
    if 0 <= i < a.len() {
        lemma_cmp_segments_refl(a, i + 1);
    }
}

/// No version string is newer than itself: whether it parses, falls back
/// to raw comparison, or trips the date-scheme guard, `is_newer_version`
/// on two copies of one string is false.
pub proof fn lemma_is_newer_irreflexive(s: Seq<char>)
    ensures
        !spec_is_newer(s, s),
{
    if !date_scheme_guard(s, s) {
        match spec_compare_versions(s, s) {
            Some(_) => {
                let v = spec_parse_version(s)->Some_0;
                lemma_cmp_segments_refl(v, 0);
            },
            None => {},
        }
    }
}

proof fn lemma_cmp_total(a: Seq<u64>, b: Seq<u64>, i: int)
    ensures
        cmp_segments_from(a, b, i) == Ordering::Less || cmp_segments_from(a, b, i)
            == Ordering::Equal || cmp_segments_from(a, b, i) == Ordering::Greater,
    decreases (if a.len() > b.len() {
        a.len() as int
    } else {
        b.len() as int
    }) - i,
{
    let m = if a.len() > b.len() {
        a.len() as int
    } else {
        b.len() as int
    };
    if 0 <= i < m && seg_at(a, i) == seg_at(b, i) {
        lemma_cmp_total(a, b, i + 1);
    }
}

} // verus!
