//! Identifier generation and validation.
//!
//! Generated identifiers are drawn from the ASCII alphanumeric alphabet, so
//! they are safe to embed in a filesystem path component by construction.
//! Caller-supplied identifiers do not come from the generator and must pass
//! [`validate_identifier`] before they are interpolated into a path.

use rand::RngExt;
use vstd::prelude::*;
use vstd::string::*;

verus! {

/// A character of the identifier alphabet: an ASCII letter or digit.
pub open spec fn is_id_char(c: char) -> bool {
    (48 <= c as u32 && c as u32 <= 57) || (65 <= c as u32 && c as u32 <= 90) || (97 <= c as u32
        && c as u32 <= 122)
}

/// A well-formed identifier: non-empty and alphanumeric throughout.
pub open spec fn id_valid(s: Seq<char>) -> bool {
    s.len() > 0 && forall|i: int| 0 <= i < s.len() ==> is_id_char(s[i])
}

/// Relies on rand's `Alphanumeric` distribution: every sample is one byte
/// of `A`-`Z`, `a`-`z` or `0`-`9`.
#[verifier::external_body]
fn sample_alphanumeric() -> (c: char)
    ensures
        is_id_char(c),
{
    let mut rng = rand::rng();
    rng.sample(rand::distr::Alphanumeric) as char
}

/// Produces a fresh identifier of the requested length, drawn from the
/// alphanumeric alphabet; uniqueness rests on the birthday bound over
/// length and alphabet.
pub fn random_string(length: usize) -> (s: String)
    ensures
        s@.len() == length,
        length > 0 ==> id_valid(s@),
        forall|i: int| 0 <= i < s@.len() ==> is_id_char(s@[i]),
{
    let mut s = String::new();
    let mut n: usize = 0;
    while n < length
        invariant
            n <= length,
            s@.len() == n,
            forall|i: int| 0 <= i < s@.len() ==> is_id_char(s@[i]),
        decreases length - n,
    {
        s.push(sample_alphanumeric());
        n = n + 1;
    }
    s
}

fn id_char_ok(c: char) -> (r: bool)
    ensures
        r == is_id_char(c),
{
    let n = c as u32;
    (48 <= n && n <= 57) || (65 <= n && n <= 90) || (97 <= n && n <= 122)
}

/// Checks a caller-supplied identifier against the identifier alphabet:
/// accepted exactly when it is non-empty and alphanumeric throughout.
pub fn validate_identifier(id: &str) -> (r: bool)
    ensures
        r == id_valid(id@),
{
    let len = id.unicode_len();
    if len == 0 {
        return false;
    }
    let mut i: usize = 0;
    while i < len
        invariant
            len == id@.len(),
            0 < len,
            i <= len,
            forall|j: int| 0 <= j < i ==> is_id_char(id@[j]),
        decreases len - i,
    {
        if !id_char_ok(id.get_char(i)) {
            return false;
        }
        i = i + 1;
    }
    true
}

/// Identifier safety: a well-formed identifier contains no path separator
/// and no dot, so it cannot name a parent directory or escape the spool
/// directory when used as a single path segment.
pub proof fn lemma_identifier_path_safe(s: Seq<char>)
    requires
        id_valid(s),
    ensures
        forall|i: int| 0 <= i < s.len() ==> s[i] != '/' && s[i] != '.' && s[i] != '\\',
{
    assert forall|i: int| 0 <= i < s.len() implies s[i] != '/' && s[i] != '.' && s[i]
        != '\\' by {
        assert(is_id_char(s[i]));
        assert('/' as u32 == 47 && '.' as u32 == 46 && '\\' as u32 == 92);
    }
}

} // verus!
