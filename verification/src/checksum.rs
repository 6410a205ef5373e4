//! Checksum verification for downloaded update archives.
//!
//! A checksum sidecar is plain text whose first whitespace-delimited token
//! is a SHA-256 digest: exactly 64 hexadecimal characters.  Anything else is
//! rejected before any digest comparison.  The artifact's own digest is
//! computed outside this crate; the comparison here is ASCII-case-insensitive.

use vstd::prelude::*;
use crate::strutil::{
    chars_of, is_ascii_ws, is_digit_char, trim_start_ws, seq_eq_ic, is_ws_char, string_from_chars,
    eq_ignore_case,
};

verus! {

/// The longest prefix of `s` free of ASCII whitespace.
pub open spec fn take_until_ws(s: Seq<char>) -> Seq<char>
    decreases s.len(),
{
    if s.len() > 0 && !is_ascii_ws(s[0]) {
        seq![s[0]] + take_until_ws(s.drop_first())
    } else {
        Seq::empty()
    }
}

/// The first whitespace-delimited token of `s`; empty when `s` is blank.
pub open spec fn first_token(s: Seq<char>) -> Seq<char> {
    take_until_ws(trim_start_ws(s))
}

/// A hexadecimal digit, either case.
pub open spec fn is_hex_char(c: char) -> bool {
    is_digit_char(c) || (97 <= c as int && c as int <= 102) || (65 <= c as int && c as int <= 70)
}

/// A well-formed SHA-256 digest: exactly 64 hexadecimal characters.
pub open spec fn valid_sha256_digest(d: Seq<char>) -> bool {
    d.len() == 64 && forall|i: int| 0 <= i < d.len() ==> is_hex_char(#[trigger] d[i])
}

/// Why checksum verification failed.
#[derive(Debug, Clone)]
pub enum ChecksumError {
    /// The checksum sidecar held no token at all.
    EmptyChecksumFile,
    /// The first token of the sidecar is not a 64-character hex digest.
    InvalidDigest { digest: String },
    /// The digest-computation output held no token.
    EmptyDigestOutput,
    /// The two digests differ.
    Mismatch { expected: String, actual: String },
}

fn is_hex_exec(c: char) -> (r: bool)
    ensures
        r == is_hex_char(c),
{
    let u = c as u32;
    (48 <= u && u <= 57) || (97 <= u && u <= 102) || (65 <= u && u <= 70)
}

/// The first whitespace-delimited token of `s`, as characters.
fn first_token_chars(s: &str) -> (r: Vec<char>)
    ensures
        r@ == first_token(s@),
{
    let cs = chars_of(s);
    let n = cs.len();
    let mut lo: usize = 0;
    proof {
        assert(s@.skip(0) =~= s@);
    }
    while lo < n && is_ws_char(cs[lo])
        invariant
            lo <= n,
            n == cs@.len(),
            cs@ == s@,
            trim_start_ws(s@) == trim_start_ws(s@.skip(lo as int)),
        decreases n - lo,
    {
        proof {
            assert(s@.skip(lo as int)[0] == s@[lo as int]);
            assert(s@.skip(lo as int).drop_first() =~= s@.skip(lo as int + 1));
        }
        lo = lo + 1;
    }
    proof {
        if lo < n {
            assert(s@.skip(lo as int)[0] == s@[lo as int]);
        }
        assert(trim_start_ws(s@.skip(lo as int)) == s@.skip(lo as int));
    }
    let ghost t = s@.skip(lo as int);
    let mut hi: usize = lo;
    proof {
        assert(t.skip(0) =~= t);
        assert(t.take(0) + take_until_ws(t) =~= take_until_ws(t));
    }
    while hi < n && !is_ws_char(cs[hi])
        invariant
            lo <= hi <= n,
            n == cs@.len(),
            cs@ == s@,
            t == s@.skip(lo as int),
            take_until_ws(t) == t.take(hi - lo as int) + take_until_ws(t.skip(hi - lo as int)),
            forall|j: int| lo <= j < hi ==> !is_ascii_ws(s@[j]),
        decreases n - hi,
    {
        proof {
            let k = hi as int - lo as int;
            assert(t.skip(k)[0] == s@[hi as int]);
            assert(t.skip(k).drop_first() =~= t.skip(k + 1));
            assert(take_until_ws(t.skip(k)) == seq![t.skip(k)[0]] + take_until_ws(t.skip(k + 1)));
            assert(t.take(k) + (seq![t[k]] + take_until_ws(t.skip(k + 1))) =~= t.take(k + 1)
                + take_until_ws(t.skip(k + 1)));
        }
        hi = hi + 1;
    }
    proof {
        let k = hi as int - lo as int;
        if hi < n {
            assert(t.skip(k)[0] == s@[hi as int]);
        }
        assert(take_until_ws(t.skip(k)) =~= Seq::<char>::empty());
        assert(take_until_ws(t) =~= t.take(k));
    }
    let mut r: Vec<char> = Vec::new();
    let mut i: usize = lo;
    while i < hi
        invariant
            lo <= i <= hi <= n,
            n == cs@.len(),
            cs@ == s@,
            r@ =~= s@.subrange(lo as int, i as int),
        decreases hi - i,
    {
        r.push(cs[i]);
        i = i + 1;
    }
    proof {
        assert(r@ =~= s@.skip(lo as int).take(hi - lo as int));
    }
    r
}

/// Extract the expected digest from a checksum sidecar's text: its first
/// whitespace-delimited token, which must be a 64-character hex digest.
pub fn parse_expected_digest(checksum_text: &str) -> (r: Result<String, ChecksumError>)
    ensures
        ({
            let t = first_token(checksum_text@);
            &&& (r matches Ok(d) ==> d@ == t && valid_sha256_digest(t))
            &&& (t.len() == 0 ==> r matches Err(ChecksumError::EmptyChecksumFile))
            &&& (t.len() > 0 && !valid_sha256_digest(t) ==> (r matches Err(
                ChecksumError::InvalidDigest { digest }) && digest@ == t))
            &&& (t.len() > 0 && valid_sha256_digest(t) ==> r is Ok)
        }),
{
    let tok = first_token_chars(checksum_text);
    if tok.len() == 0 {
        return Err(ChecksumError::EmptyChecksumFile);
    }
    let n = tok.len();
    let mut all_hex = n == 64;
    let mut i: usize = 0;
    while i < n && all_hex
        invariant
            i <= n,
            n == tok@.len(),
            all_hex ==> n == 64,
            all_hex == (n == 64 && forall|j: int| 0 <= j < i ==> is_hex_char(#[trigger] tok@[j])),
        decreases n - i,
    {
        if !is_hex_exec(tok[i]) {
            all_hex = false;
        }
        i = i + 1;
    }
    let s = string_from_chars(&tok);
    if all_hex {
        proof {
            assert(valid_sha256_digest(tok@));
        }
        Ok(s)
    } else {
        proof {
            assert(!valid_sha256_digest(tok@));
        }
        Err(ChecksumError::InvalidDigest { digest: s })
    }
}

/// Verify a SHA-256 checksum: `checksum_text` is the sidecar's raw text,
/// `digest_output` the raw output of the digest computation over the
/// artifact (its first token is the computed digest).
///
/// Succeeds exactly when the sidecar's first token is a well-formed
/// 64-character hex digest, the digest output holds a token, and the two
/// tokens are equal up to ASCII case.
pub fn verify_sha256(checksum_text: &str, digest_output: &str) -> (r: Result<(), ChecksumError>)
    ensures
        ({
            let t = first_token(checksum_text@);
            let a = first_token(digest_output@);
            &&& (r is Ok <==> t.len() > 0 && valid_sha256_digest(t) && a.len() > 0 && seq_eq_ic(
                t,
                a,
            ))
            &&& (t.len() == 0 ==> r matches Err(ChecksumError::EmptyChecksumFile))
            &&& (t.len() > 0 && !valid_sha256_digest(t) ==> (r matches Err(
                ChecksumError::InvalidDigest { digest }) && digest@ == t))
            &&& (t.len() > 0 && valid_sha256_digest(t) && a.len() == 0 ==> r matches Err(
                ChecksumError::EmptyDigestOutput))
            &&& (t.len() > 0 && valid_sha256_digest(t) && a.len() > 0 && !seq_eq_ic(t, a) ==> (
            r matches Err(ChecksumError::Mismatch { expected, actual }) && expected@ == t
                && actual@ == a))
        }),
{
    let expected = match parse_expected_digest(checksum_text) {
        Ok(d) => d,
        Err(e) => {
            return Err(e);
        },
    };
    let actual_tok = first_token_chars(digest_output);
    if actual_tok.len() == 0 {
        return Err(ChecksumError::EmptyDigestOutput);
    }
    let actual = string_from_chars(&actual_tok);
    if eq_ignore_case(expected.as_str(), actual.as_str()) {
        Ok(())
    } else {
        Err(ChecksumError::Mismatch { expected, actual })
    }
}

} // verus!
