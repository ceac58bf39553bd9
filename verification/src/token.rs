//! Syntax of a provider credential ("token").
//!
//! A well-formed token is a numeric prefix of nine or ten digits, a colon,
//! and a suffix of exactly thirty-five characters drawn from ASCII letters,
//! digits, underscore and hyphen.

use vstd::prelude::*;

verus! {

/// An ASCII decimal digit.
pub open spec fn is_digit_char(c: char) -> bool {
    48 <= c as u32 && c as u32 <= 57
}

/// A character allowed in the token suffix: letter, digit, `_` or `-`.
pub open spec fn is_suffix_char(c: char) -> bool {
    ||| is_digit_char(c)
    ||| 65 <= c as u32 && c as u32 <= 90
    ||| 97 <= c as u32 && c as u32 <= 122
    ||| c == '_'
    ||| c == '-'
}

/// The token grammar: nine or ten digits, a colon, then exactly
/// thirty-five suffix characters.
pub open spec fn token_syntax_ok(s: Seq<char>) -> bool {
    &&& (s.len() == 45 || s.len() == 46)
    &&& s[s.len() - 36] == ':'
    &&& (forall|i: int| 0 <= i < s.len() - 36 ==> is_digit_char(#[trigger] s[i]))
    &&& (forall|i: int| s.len() - 36 < i < s.len() ==> is_suffix_char(#[trigger] s[i]))
}

/// Decides whether `s` is a syntactically well-formed credential token.
pub fn is_valid_token(s: &str) -> (r: bool)
    ensures
        r == token_syntax_ok(s@),
{
    let n = s.unicode_len();
    if n != 45 && n != 46 {
        return false;
    }
    let p = n - 36;
    if s.get_char(p) != ':' {
        return false;
    }
    let mut i: usize = 0;
    while i < p
        invariant
            n == s@.len(),
            (n == 45 || n == 46),
            p == n - 36,
            i <= p,
            forall|j: int| 0 <= j < i ==> is_digit_char(#[trigger] s@[j]),
        decreases p - i,
    {
        let u = s.get_char(i) as u32;
        if u < 48 || u > 57 {
            return false;
        }
        i = i + 1;
    }
    let mut k: usize = p + 1;
    while k < n
        invariant
            n == s@.len(),
            (n == 45 || n == 46),
            p == n - 36,
            p + 1 <= k <= n,
            forall|j: int| p < j < k ==> is_suffix_char(#[trigger] s@[j]),
        decreases n - k,
    {
        let c = s.get_char(k);
        let u = c as u32;
        let ok = (48 <= u && u <= 57) || (65 <= u && u <= 90) || (97 <= u && u <= 122) || c == '_'
            || c == '-';
        if !ok {
            return false;
        }
        k = k + 1;
    }
    true
}

} // verus!
