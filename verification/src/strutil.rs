//! Small verified helpers for working with strings as sequences of
//! characters, shared by the version, checksum and command modules.

use vstd::prelude::*;
use vstd::string::StrSliceExecFns;
use vstd::string::StringExecFns;

verus! {

/// ASCII whitespace, the whitespace this crate's trimming recognises.
pub open spec fn is_ascii_ws(c: char) -> bool {
    c == ' ' || c == '\t' || c == '\n' || c == '\r' || c == '\u{b}' || c == '\u{c}'
}

/// Decimal digit.
pub open spec fn is_digit_char(c: char) -> bool {
    48 <= c as int && c as int <= 57
}

/// The numeric value of a decimal digit character.
pub open spec fn digit_val(c: char) -> int {
    c as int - 48
}

/// The number written by a sequence of decimal digits.
pub open spec fn digits_val(ds: Seq<char>) -> nat
    decreases ds.len(),
{
    if ds.len() == 0 {
        0
    } else {
        (digits_val(ds.drop_last()) * 10 + digit_val(ds.last())) as nat
    }
}

/// What a string of decimal digits denotes: the digits' value, provided the
/// string is non-empty, all digits, and the value fits in `u64`.
pub open spec fn spec_parse_dec(s: Seq<char>) -> Option<u64> {
    if s.len() > 0 && (forall|i: int| 0 <= i < s.len() ==> is_digit_char(#[trigger] s[i]))
        && digits_val(s) <= u64::MAX {
        Some(digits_val(s) as u64)
    } else {
        None
    }
}

/// Any prefix of a digit string writes a number no larger than the whole.
pub proof fn lemma_digits_val_monotone(ds: Seq<char>, i: int)
    requires
        0 <= i <= ds.len(),
        forall|t: int| 0 <= t < ds.len() ==> is_digit_char(#[trigger] ds[t]),
    ensures
        digits_val(ds.take(i)) <= digits_val(ds),
    decreases ds.len() - i,
{
    if i < ds.len() {
        lemma_digits_val_monotone(ds, i + 1);
        let a = ds.take(i);
        let b = ds.take(i + 1);
        assert(b.drop_last() =~= a);
        assert(b.last() == ds[i]);
        assert(digits_val(b) == digits_val(a) * 10 + digit_val(ds[i]));
        assert(digits_val(a) * 10 >= digits_val(a)) by (nonlinear_arith);
    } else {
        assert(ds.take(i) =~= ds);
    }
}

/// The character's code with an ASCII upper-case letter folded to lower case.
pub open spec fn lower_code(c: char) -> int {
    if 65 <= c as int && c as int <= 90 {
        c as int + 32
    } else {
        c as int
    }
}

/// Character-wise ASCII-case-insensitive equality of two sequences.
pub open spec fn seq_eq_ic(a: Seq<char>, b: Seq<char>) -> bool {
    a.len() == b.len() && forall|i: int| 0 <= i < a.len() ==> lower_code(a[i]) == lower_code(b[i])
}

/// `n` occurs as a contiguous subsequence of `h`.
pub open spec fn contains_seq(h: Seq<char>, n: Seq<char>) -> bool {
    exists|i: int| 0 <= i && i + n.len() <= h.len() && #[trigger] h.subrange(i, i + n.len()) == n
}

/// `s` without leading ASCII whitespace.
pub open spec fn trim_start_ws(s: Seq<char>) -> Seq<char>
    decreases s.len(),
{
    if s.len() > 0 && is_ascii_ws(s[0]) {
        trim_start_ws(s.drop_first())
    } else {
        s
    }
}

/// `s` without trailing ASCII whitespace.
pub open spec fn trim_end_ws(s: Seq<char>) -> Seq<char>
    decreases s.len(),
{
    if s.len() > 0 && is_ascii_ws(s.last()) {
        trim_end_ws(s.drop_last())
    } else {
        s
    }
}

/// `s` trimmed of ASCII whitespace on both ends.
pub open spec fn trim_ws(s: Seq<char>) -> Seq<char> {
    trim_end_ws(trim_start_ws(s))
}

/// The position of the first `c` in `s` at or after `i`, or `s.len()` if
/// there is none.
pub open spec fn find_char_from(s: Seq<char>, c: char, i: int) -> int
    decreases s.len() - i,
{
    if i < 0 {
        0
    } else if i >= s.len() {
        s.len() as int
    } else if s[i] == c {
        i
    } else {
        find_char_from(s, c, i + 1)
    }
}

/// `find_char_from` stays between its starting point and the end of the
/// string, and lands on `c` unless it reaches the end.
pub proof fn lemma_find_char_range(s: Seq<char>, c: char, i: int)
    requires
        0 <= i <= s.len(),
    ensures
        i <= find_char_from(s, c, i) <= s.len(),
        forall|k: int| i <= k < find_char_from(s, c, i) ==> s[k] != c,
        find_char_from(s, c, i) < s.len() ==> s[find_char_from(s, c, i)] == c,
    decreases s.len() - i,
{
    if i < s.len() && s[i] != c {
        lemma_find_char_range(s, c, i + 1);
    }
}

/// The pieces of `s` between occurrences of `c`, from position `p` on.
pub open spec fn split_char_from(s: Seq<char>, c: char, p: int) -> Seq<Seq<char>>
    decreases s.len() - p,
    via split_char_from_decreases
{
    if p < 0 || p > s.len() {
        Seq::empty()
    } else {
        let d = find_char_from(s, c, p);
        if d >= s.len() {
            seq![s.subrange(p, s.len() as int)]
        } else {
            seq![s.subrange(p, d)] + split_char_from(s, c, d + 1)
        }
    }
}

#[via_fn]
proof fn split_char_from_decreases(s: Seq<char>, c: char, p: int) {
    if 0 <= p <= s.len() {
        lemma_find_char_range(s, c, p);
    }
}

/// The pieces of `s` between occurrences of `c`; splitting the empty string
/// yields one empty piece, as `str::split` does.
pub open spec fn split_char(s: Seq<char>, c: char) -> Seq<Seq<char>> {
    split_char_from(s, c, 0)
}

/// What follows the last occurrence of `c` in `s`; the whole of `s` when
/// `c` does not occur.
pub open spec fn after_last_char(s: Seq<char>, c: char) -> Seq<char>
    decreases s.len(),
{
    if s.len() == 0 {
        s
    } else if s.last() == c {
        Seq::empty()
    } else {
        after_last_char(s.drop_last(), c).push(s.last())
    }
}

/// The view of an optional string.
pub open spec fn opt_str_view(o: Option<String>) -> Option<Seq<char>> {
    match o {
        Some(s) => Some(s@),
        None => None,
    }
}

/// The characters of `s`, as a vector.
pub fn chars_of(s: &str) -> (r: Vec<char>)
    ensures
        r@ == s@,
{
    let n = s.unicode_len();
    let mut r: Vec<char> = Vec::new();
    let mut i: usize = 0;
    while i < n
        invariant
            i <= n,
            n == s@.len(),
            r@ == s@.take(i as int),
        decreases n - i,
    {
        let c = s.get_char(i);
        r.push(c);
        proof {
            assert(s@.take(i + 1 as int) =~= s@.take(i as int).push(s@[i as int]));
        }
        i = i + 1;
    }
    proof {
        assert(s@.take(n as int) =~= s@);
    }
    r
}

/// Relies on `String::from_iter` over `char`s: the resulting string holds
/// exactly the given characters, in order.
#[verifier::external_body]
pub fn string_from_chars(v: &Vec<char>) -> (r: String)
    ensures
        r@ == v@,
{
    v.iter().collect()
}

/// Equality of two character vectors.
pub fn chars_eq(a: &Vec<char>, b: &Vec<char>) -> (r: bool)
    ensures
        r == (a@ == b@),
{
    if a.len() != b.len() {
        proof {
            assert(a@ != b@);
        }
        return false;
    }
    let n = a.len();
    let mut i: usize = 0;
    while i < n
        invariant
            i <= n,
            n == a@.len(),
            n == b@.len(),
            forall|j: int| 0 <= j < i ==> a@[j] == b@[j],
        decreases n - i,
    {
        if a[i] != b[i] {
            return false;
        }
        i = i + 1;
    }
    proof {
        assert(a@ =~= b@);
    }
    true
}

/// String equality through character views.
pub fn str_eq_str(a: &str, b: &str) -> (r: bool)
    ensures
        r == (a@ == b@),
{
    let av = chars_of(a);
    let bv = chars_of(b);
    chars_eq(&av, &bv)
}

/// ASCII-case-insensitive equality of two strings.
pub fn eq_ignore_case(a: &str, b: &str) -> (r: bool)
    ensures
        r == seq_eq_ic(a@, b@),
{
    let av = chars_of(a);
    let bv = chars_of(b);
    if av.len() != bv.len() {
        return false;
    }
    let n = av.len();
    let mut i: usize = 0;
    while i < n
        invariant
            i <= n,
            n == av@.len(),
            n == bv@.len(),
            av@ == a@,
            bv@ == b@,
            forall|j: int| 0 <= j < i ==> lower_code(a@[j]) == lower_code(b@[j]),
        decreases n - i,
    {
        let ca = lower_u32(av[i]);
        let cb = lower_u32(bv[i]);
        if ca != cb {
            return false;
        }
        i = i + 1;
    }
    true
}

/// The folded character code, as an executable value.
pub fn lower_u32(c: char) -> (r: u32)
    ensures
        r as int == lower_code(c),
{
    let u = c as u32;
    if 65 <= u && u <= 90 {
        u + 32
    } else {
        u
    }
}

/// Naive substring search: does `needle` occur in `hay`?
pub fn contains_str(hay: &str, needle: &str) -> (r: bool)
    ensures
        r == contains_seq(hay@, needle@),
{
    let h = chars_of(hay);
    let n = chars_of(needle);
    let hl = h.len();
    let nl = n.len();
    if nl > hl {
        proof {
            assert(!contains_seq(hay@, needle@));
        }
        return false;
    }
    let mut i: usize = 0;
    while i <= hl - nl
        invariant
            h@ == hay@,
            n@ == needle@,
            nl == needle@.len(),
            hl == hay@.len(),
            nl <= hl,
            i <= hl - nl + 1,
            forall|k: int| 0 <= k < i ==> #[trigger] hay@.subrange(k, k + nl as int) != needle@,
        decreases hl - nl + 1 - i,
    {
        let mut j: usize = 0;
        while j < nl && h[i + j] == n[j]
            invariant
                i + nl <= hl,
                h@ == hay@,
                n@ == needle@,
                nl == needle@.len(),
                hl == hay@.len(),
                j <= nl,
                forall|t: int| 0 <= t < j ==> hay@[i + t] == needle@[t],
            decreases nl - j,
        {
            j = j + 1;
        }
        if j == nl {
            proof {
                assert(hay@.subrange(i as int, i + nl as int) =~= needle@);
            }
            return true;
        }
        proof {
            assert(hay@[i + j] != needle@[j as int]);
            assert(hay@.subrange(i as int, i + nl as int) != needle@) by {
                assert(hay@.subrange(i as int, i + nl as int)[j as int] == hay@[i + j]);
            }
        }
        i = i + 1;
    }
    proof {
        assert forall|k: int| 0 <= k && k + needle@.len() <= hay@.len() implies #[trigger] hay@.subrange(
            k,
            k + needle@.len(),
        ) != needle@ by {
            assert(k < i);
        }
    }
    false
}

/// `n` occurs as a contiguous subsequence of `h`, up to ASCII case.
pub open spec fn contains_seq_ic(h: Seq<char>, n: Seq<char>) -> bool {
    exists|i: int|
        0 <= i && i + n.len() <= h.len() && seq_eq_ic(#[trigger] h.subrange(i, i + n.len()), n)
}

/// Naive ASCII-case-insensitive substring search.
pub fn contains_str_ic(hay: &str, needle: &str) -> (r: bool)
    ensures
        r == contains_seq_ic(hay@, needle@),
{
    let h = chars_of(hay);
    let n = chars_of(needle);
    let hl = h.len();
    let nl = n.len();
    if nl > hl {
        proof {
            assert(!contains_seq_ic(hay@, needle@));
        }
        return false;
    }
    let mut i: usize = 0;
    while i <= hl - nl
        invariant
            h@ == hay@,
            n@ == needle@,
            nl == needle@.len(),
            hl == hay@.len(),
            nl <= hl,
            i <= hl - nl + 1,
            forall|k: int|
                0 <= k < i ==> !seq_eq_ic(#[trigger] hay@.subrange(k, k + nl as int), needle@),
        decreases hl - nl + 1 - i,
    {
        let mut j: usize = 0;
        while j < nl && lower_u32(h[i + j]) == lower_u32(n[j])
            invariant
                i + nl <= hl,
                h@ == hay@,
                n@ == needle@,
                nl == needle@.len(),
                hl == hay@.len(),
                j <= nl,
                forall|t: int| 0 <= t < j ==> lower_code(hay@[i + t]) == lower_code(needle@[t]),
            decreases nl - j,
        {
            j = j + 1;
        }
        if j == nl {
            proof {
                let sub = hay@.subrange(i as int, i + nl as int);
                assert forall|t: int| 0 <= t < nl implies lower_code(#[trigger] sub[t])
                    == lower_code(needle@[t]) by {
                    assert(sub[t] == hay@[i + t]);
                }
                assert(seq_eq_ic(sub, needle@));
            }
            return true;
        }
        proof {
            assert(lower_code(hay@[i + j]) != lower_code(needle@[j as int]));
            assert(!seq_eq_ic(hay@.subrange(i as int, i + nl as int), needle@)) by {
                assert(hay@.subrange(i as int, i + nl as int)[j as int] == hay@[i + j]);
            }
        }
        i = i + 1;
    }
    proof {
        assert forall|k: int| 0 <= k && k + needle@.len() <= hay@.len() implies !seq_eq_ic(
            #[trigger] hay@.subrange(k, k + needle@.len()),
            needle@,
        ) by {
            assert(k < i);
        }
    }
    false
}

pub fn is_ws_char(c: char) -> (r: bool)
    ensures
        r == is_ascii_ws(c),
{
    c == ' ' || c == '\t' || c == '\n' || c == '\r' || c == '\u{b}' || c == '\u{c}'
}

pub fn is_digit_exec(c: char) -> (r: bool)
    ensures
        r == is_digit_char(c),
{
    let u = c as u32;
    48 <= u && u <= 57
}

/// The characters of `s` with ASCII whitespace trimmed from both ends.
pub fn trim_chars(s: &str) -> (r: Vec<char>)
    ensures
        r@ == trim_ws(s@),
{
    let cs = chars_of(s);
    let n = cs.len();
    let mut lo: usize = 0;
    let mut hi: usize = n;
    proof {
        assert(s@.skip(0) =~= s@);
    }
    while lo < hi && is_ws_char(cs[lo])
        invariant
            lo <= hi,
            hi == n,
            n == cs@.len(),
            cs@ == s@,
            trim_start_ws(s@) == trim_start_ws(s@.skip(lo as int)),
        decreases hi - lo,
    {
        proof {
            assert(s@.skip(lo as int)[0] == s@[lo as int]);
            assert(s@.skip(lo as int).drop_first() =~= s@.skip(lo as int + 1));
        }
        lo = lo + 1;
    }
    proof {
        if lo < n {
            assert(s@.skip(lo as int)[0] == s@[lo as int]);
        }
        assert(trim_start_ws(s@.skip(lo as int)) == s@.skip(lo as int));
        assert(s@.skip(lo as int).take(n - lo as int) =~= s@.skip(lo as int));
    }
    while hi > lo && is_ws_char(cs[hi - 1])
        invariant
            lo <= hi <= n,
            n == cs@.len(),
            cs@ == s@,
            trim_ws(s@) == trim_end_ws(s@.skip(lo as int).take(hi - lo as int)),
        decreases hi,
    {
        proof {
            let cur = s@.skip(lo as int).take(hi - lo as int);
            assert(cur.last() == s@[hi - 1 as int]);
            assert(cur.drop_last() =~= s@.skip(lo as int).take(hi - 1 - lo as int));
        }
        hi = hi - 1;
    }
    proof {
        let cur = s@.skip(lo as int).take(hi - lo as int);
        if hi > lo {
            assert(cur.last() == s@[hi - 1 as int]);
        }
        assert(trim_end_ws(cur) == cur);
    }
    let mut r: Vec<char> = Vec::new();
    let mut i: usize = lo;
    while i < hi
        invariant
            lo <= i <= hi <= n,
            n == cs@.len(),
            cs@ == s@,
            r@ =~= s@.subrange(lo as int, i as int),
        decreases hi - i,
    {
        r.push(cs[i]);
        i = i + 1;
    }
    proof {
        assert(r@ =~= s@.skip(lo as int).take(hi - lo as int));
    }
    r
}

/// `s` with ASCII whitespace trimmed from both ends, as a string.
pub fn trim_str(s: &str) -> (r: String)
    ensures
        r@ == trim_ws(s@),
{
    let t = trim_chars(s);
    string_from_chars(&t)
}

/// The concatenation of two strings.
pub fn concat_str(a: &str, b: &str) -> (r: String)
    ensures
        r@ == a@ + b@,
{
    let mut r = a.to_owned();
    r.append(b);
    r
}

/// The pieces of `s` between occurrences of `sep`, as `str::split` yields
/// them (the empty string gives one empty piece).
pub fn split_str(s: &str, sep: char) -> (r: Vec<String>)
    ensures
        r.deep_view() == split_char(s@, sep),
{
    let cs = chars_of(s);
    let n = cs.len();
    let mut r: Vec<String> = Vec::new();
    let mut p: usize = 0;
    proof {
        assert(r.deep_view() + split_char_from(s@, sep, 0) =~= split_char(s@, sep));
    }
    loop
        invariant
            p <= n,
            n == s@.len(),
            cs@ == s@,
            split_char(s@, sep) == r.deep_view() + split_char_from(s@, sep, p as int),
        decreases n - p,
    {
        let mut d: usize = p;
        while d < n && !(cs[d] == sep)
            invariant
                p <= d <= n,
                n == s@.len(),
                cs@ == s@,
                find_char_from(s@, sep, p as int) == find_char_from(s@, sep, d as int),
            decreases n - d,
        {
            proof {
                assert(find_char_from(s@, sep, d as int) == find_char_from(s@, sep, d as int + 1));
            }
            d = d + 1;
        }
        proof {
            assert(find_char_from(s@, sep, d as int) == d);
        }
        let mut piece: Vec<char> = Vec::new();
        let mut i: usize = p;
        while i < d
            invariant
                p <= i <= d <= n,
                n == cs@.len(),
                cs@ == s@,
                piece@ =~= s@.subrange(p as int, i as int),
            decreases d - i,
        {
            piece.push(cs[i]);
            i = i + 1;
        }
        let ps = string_from_chars(&piece);
        let ghost old_views = r.deep_view();
        r.push(ps);
        proof {
            assert(r.deep_view() =~= old_views.push(s@.subrange(p as int, d as int)));
        }
        if d == n {
            proof {
                assert(split_char_from(s@, sep, p as int) =~= seq![
                    s@.subrange(p as int, n as int),
                ]);
                assert(old_views + seq![s@.subrange(p as int, n as int)] =~= r.deep_view());
            }
            return r;
        }
        proof {
            let rest = split_char_from(s@, sep, d as int + 1);
            assert(split_char_from(s@, sep, p as int) == seq![s@.subrange(p as int, d as int)]
                + rest);
            assert(old_views + (seq![s@.subrange(p as int, d as int)] + rest) =~= r.deep_view()
                + rest);
        }
        p = d + 1;
    }
}

proof fn lemma_after_last_suffix(s: Seq<char>, c: char, j: int)
    requires
        0 <= j <= s.len(),
        forall|t: int| j <= t < s.len() ==> s[t] != c,
        j > 0 ==> s[j - 1] == c,
    ensures
        after_last_char(s, c) == s.skip(j),
    decreases s.len(),
{
    if s.len() == 0 {
        assert(s.skip(0) =~= s);
    } else if j == s.len() {
        assert(s.last() == c);
        assert(s.skip(j) =~= Seq::<char>::empty());
    } else {
        assert(s.last() != c);
        lemma_after_last_suffix(s.drop_last(), c, j);
        assert(s.drop_last().skip(j).push(s.last()) =~= s.skip(j));
    }
}

/// What follows the last occurrence of `sep` in `s`; the whole of `s` when
/// `sep` does not occur (as `s.rsplit(sep).next()` yields it).
pub fn after_last_str(s: &str, sep: char) -> (r: String)
    ensures
        r@ == after_last_char(s@, sep),
{
    let cs = chars_of(s);
    let n = cs.len();
    let mut j: usize = n;
    while j > 0 && !(cs[j - 1] == sep)
        invariant
            j <= n,
            n == cs@.len(),
            cs@ == s@,
            forall|t: int| j <= t < n ==> s@[t] != sep,
        decreases j,
    {
        j = j - 1;
    }
    proof {
        lemma_after_last_suffix(s@, sep, j as int);
    }
    let mut out: Vec<char> = Vec::new();
    let mut i: usize = j;
    while i < n
        invariant
            j <= i <= n,
            n == cs@.len(),
            cs@ == s@,
            out@ =~= s@.subrange(j as int, i as int),
        decreases n - i,
    {
        out.push(cs[i]);
        i = i + 1;
    }
    proof {
        assert(out@ =~= s@.skip(j as int));
    }
    string_from_chars(&out)
}

/// Parse a string of decimal digits; `None` when the string is empty, holds
/// a non-digit, or overflows `u64`.
pub fn parse_dec_chars(cs: &Vec<char>) -> (r: Option<u64>)
    ensures
        r == spec_parse_dec(cs@),
{
    let n = cs.len();
    if n == 0 {
        return None;
    }
    let mut value: u64 = 0;
    let mut k: usize = 0;
    proof {
        assert(digits_val(cs@.take(0)) == 0);
    }
    while k < n
        invariant
            k <= n,
            n == cs@.len(),
            forall|t: int| 0 <= t < k ==> is_digit_char(#[trigger] cs@[t]),
            value == digits_val(cs@.take(k as int)),
        decreases n - k,
    {
        let c = cs[k];
        if !is_digit_exec(c) {
            proof {
                assert(!is_digit_char(cs@[k as int]));
            }
            return None;
        }
        let dv: u64 = (c as u32 - 48) as u64;
        proof {
            assert(dv as int == digit_val(cs@[k as int]));
            assert(cs@.take(k as int + 1).drop_last() =~= cs@.take(k as int));
            assert(cs@.take(k as int + 1).last() == cs@[k as int]);
            assert(digits_val(cs@.take(k as int + 1)) == digits_val(cs@.take(k as int)) * 10
                + digit_val(cs@[k as int]));
        }
        let next: Option<u64> = match value.checked_mul(10) {
            Some(x) => x.checked_add(dv),
            None => None,
        };
        match next {
            None => {
                // the digits overflow a u64, so the whole string does too
                proof {
                    assert(digits_val(cs@.take(k as int + 1)) > u64::MAX);
                    if forall|t: int| 0 <= t < cs@.len() ==> is_digit_char(#[trigger] cs@[t]) {
                        lemma_digits_val_monotone(cs@, k as int + 1);
                        assert(digits_val(cs@) > u64::MAX);
                    }
                }
                return None;
            },
            Some(y) => {
                value = y;
            },
        }
        k = k + 1;
    }
    proof {
        assert(cs@.take(n as int) =~= cs@);
    }
    Some(value)
}

fn digit_to_char(d: u64) -> (c: char)
    requires
        d < 10,
    ensures
        is_digit_char(c),
        digit_val(c) == d,
{
    match d {
        0 => '0',
        1 => '1',
        2 => '2',
        3 => '3',
        4 => '4',
        5 => '5',
        6 => '6',
        7 => '7',
        8 => '8',
        _ => '9',
    }
}

fn push_dec(n: u64, out: &mut Vec<char>)
    ensures
        final(out)@.len() > old(out)@.len(),
        final(out)@.take(old(out)@.len() as int) == old(out)@,
        ({
            let suf = final(out)@.skip(old(out)@.len() as int);
            &&& forall|i: int| 0 <= i < suf.len() ==> is_digit_char(#[trigger] suf[i])
            &&& digits_val(suf) == n
            &&& (n > 0 ==> suf[0] != '0')
            &&& (n == 0 ==> suf =~= seq!['0'])
        }),
    decreases n,
{
    let ghost base = out@.len() as int;
    if n < 10 {
        let c = digit_to_char(n);
        out.push(c);
        proof {
            let suf = out@.skip(base);
            assert(suf =~= seq![c]);
            assert(seq![c].drop_last() =~= Seq::<char>::empty());
            assert(seq![c].last() == c);
            assert(digits_val(Seq::<char>::empty()) == 0);
            assert(digits_val(seq![c]) == digit_val(c));
            assert(out@.take(base) =~= old(out)@);
            if n > 0 {
                assert(c != '0') by {
                    assert(digit_val(c) == n);
                    assert(digit_val('0') == 0);
                }
            }
        }
    } else {
        push_dec(n / 10, out);
        let ghost mid = out@;
        let c = digit_to_char(n % 10);
        out.push(c);
        proof {
            let suf = out@.skip(base);
            let suf0 = mid.skip(base);
            assert(suf.drop_last() =~= suf0);
            assert(suf.last() == c);
            assert(digits_val(suf) == digits_val(suf0) * 10 + digit_val(c));
            assert(digits_val(suf0) == n / 10);
            assert(n / 10 * 10 + n % 10 == n);
            assert(suf[0] == suf0[0]);
            assert(n / 10 > 0);
            assert(out@.take(base) =~= mid.take(base));
            assert(forall|i: int| 0 <= i < suf.len() - 1 ==> suf[i] == suf0[i]);
        }
    }
}

/// The decimal representation of `n`: non-empty, all digits, denoting `n`,
/// with no leading zero.
pub fn u64_to_string(n: u64) -> (r: String)
    ensures
        r@.len() > 0,
        forall|i: int| 0 <= i < r@.len() ==> is_digit_char(#[trigger] r@[i]),
        digits_val(r@) == n,
        n > 0 ==> r@[0] != '0',
        n == 0 ==> r@ =~= seq!['0'],
{
    let mut out: Vec<char> = Vec::new();
    push_dec(n, &mut out);
    proof {
        assert(out@.skip(0) =~= out@);
    }
    string_from_chars(&out)
}

} // verus!
