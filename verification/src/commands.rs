//! The command surface of every mirror.
//!
//! Incoming text in the resting dialogue state is parsed into a closed set
//! of commands.  Command words are matched case-insensitively; anything
//! that is not a command is ignored by the caller.

use vstd::prelude::*;

verus! {

/// A parsed command.
#[derive(Clone, Copy, Debug, PartialEq, Eq, Structural)]
pub enum Command {
    /// `/start`: register or reactivate the sender on this mirror.
    Start,
    /// `/createmirror`: prompt an admin for a new mirror credential.
    CreateMirror,
    /// `/notify`: prompt an admin for a message to broadcast.
    Notify,
    /// `/addadmin <user id>`: promote the given user to admin.
    AddAdmin(u64),
}

/// `a` equals `b` up to ASCII case, where `b` is already lower case.
pub open spec fn char_eq_ci(a: char, b: char) -> bool {
    a == b || (65 <= a as u32 && a as u32 <= 90 && a as u32 + 32 == b as u32)
}

/// `s` matches the lower-case word `lit` case-insensitively.
pub open spec fn matches_ci(s: Seq<char>, lit: Seq<char>) -> bool {
    s.len() == lit.len() && forall|i: int| 0 <= i < s.len() ==> char_eq_ci(#[trigger] s[i], lit[i])
}

/// Numeric value of an ASCII digit; zero for any other character.
pub open spec fn digit_val(c: char) -> nat {
    if is_digit(c) {
        (c as u32 - 48) as nat
    } else {
        0
    }
}

/// An ASCII decimal digit.
pub open spec fn is_digit(c: char) -> bool {
    48 <= c as u32 && c as u32 <= 57
}

/// Every character of `s` is an ASCII decimal digit.
pub open spec fn all_digits(s: Seq<char>) -> bool {
    forall|i: int| 0 <= i < s.len() ==> is_digit(#[trigger] s[i])
}

/// The number written in decimal by `s` (reading left to right).
pub open spec fn numeral_value(s: Seq<char>) -> nat
    decreases s.len(),
{
    if s.len() == 0 {
        0
    } else {
        numeral_value(s.drop_last()) * 10 + digit_val(s.last())
    }
}

/// `s` is a decimal numeral whose value fits in a `u64`.
pub open spec fn is_u64_numeral(s: Seq<char>) -> bool {
    s.len() > 0 && all_digits(s) && numeral_value(s) <= u64::MAX
}

/// Extending a numeral to the right never decreases its value.
proof fn lemma_numeral_prefix_le(s: Seq<char>, k: int)
    requires
        0 <= k <= s.len(),
    ensures
        numeral_value(s.take(k)) <= numeral_value(s),
    decreases s.len() - k,
{
    if k < s.len() {
        assert(s.take(k + 1).drop_last() =~= s.take(k));
        assert(numeral_value(s.take(k + 1)) == numeral_value(s.take(k)) * 10 + digit_val(
            s.take(k + 1).last(),
        ));
        lemma_numeral_prefix_le(s, k + 1);
    } else {
        assert(s.take(k) =~= s);
    }
}

/// Parses `s` as a decimal `u64`.
///
/// Returns the written value exactly when `s` is a nonempty all-digit
/// string whose value fits; `None` otherwise.
pub fn parse_u64(s: &str) -> (r: Option<u64>)
    ensures
        r == (if is_u64_numeral(s@) {
            Some(numeral_value(s@) as u64)
        } else {
            None::<u64>
        }),
{
    let n = s.unicode_len();
    if n == 0 {
        return None;
    }
    let mut acc: u64 = 0;
    let mut i: usize = 0;
    while i < n
        invariant
            n == s@.len(),
            0 < n,
            i <= n,
            all_digits(s@.take(i as int)),
            acc == numeral_value(s@.take(i as int)),
        decreases n - i,
    {
        let c = s.get_char(i);
        let u = c as u32;
        if u < 48 || u > 57 {
            return None;
        }
        let d = (u - 48) as u64;
        proof {
            assert(s@.take(i + 1).drop_last() =~= s@.take(i as int));
            assert(s@.take(i + 1).last() == s@[i as int]);
        }
        let step = match acc.checked_mul(10) {
            Some(m) => m.checked_add(d),
            None => None,
        };
        match step {
            Some(v) => {
                acc = v;
            },
            None => {
                proof {
                    assert(numeral_value(s@.take(i + 1)) > u64::MAX);
                    lemma_numeral_prefix_le(s@, i + 1);
                }
                return None;
            },
        }
        i = i + 1;
    }
    proof {
        assert(s@.take(n as int) =~= s@);
    }
    Some(acc)
}

/// What a given message text parses to, if anything.
pub open spec fn spec_parse_command(s: Seq<char>) -> Option<Command> {
    if matches_ci(s, "/start"@) {
        Some(Command::Start)
    } else if matches_ci(s, "/createmirror"@) {
        Some(Command::CreateMirror)
    } else if matches_ci(s, "/notify"@) {
        Some(Command::Notify)
    } else if s.len() >= 11 && matches_ci(s.take(9), "/addadmin"@) && s[9] == ' '
        && is_u64_numeral(s.skip(10)) {
        Some(Command::AddAdmin(numeral_value(s.skip(10)) as u64))
    } else {
        None
    }
}

/// Case-insensitive comparison of `s` against the lower-case word `lit`.
fn matches_ci_str(s: &str, lit: &str) -> (r: bool)
    ensures
        r == matches_ci(s@, lit@),
{
    let n = s.unicode_len();
    let m = lit.unicode_len();
    if n != m {
        return false;
    }
    let mut i: usize = 0;
    while i < n
        invariant
            n == s@.len(),
            m == lit@.len(),
            n == m,
            i <= n,
            forall|j: int| 0 <= j < i ==> char_eq_ci(#[trigger] s@[j], lit@[j]),
        decreases n - i,
    {
        let a = s.get_char(i);
        let b = lit.get_char(i);
        let ua = a as u32;
        let ub = b as u32;
        let ok = a == b || (65 <= ua && ua <= 90 && ua + 32 == ub);
        if !ok {
            return false;
        }
        i = i + 1;
    }
    true
}

/// Parses one message text as a command.
///
/// Returns `None` for anything that is not a recognized command; such
/// text is ignored by the dialogue.
pub fn parse_command(text: &str) -> (r: Option<Command>)
    ensures
        r == spec_parse_command(text@),
{
    if matches_ci_str(text, "/start") {
        return Some(Command::Start);
    }
    if matches_ci_str(text, "/createmirror") {
        return Some(Command::CreateMirror);
    }
    if matches_ci_str(text, "/notify") {
        return Some(Command::Notify);
    }
    let n = text.unicode_len();
    if n >= 11 {
        let head = text.substring_char(0, 9);
        proof {
            assert(head@ =~= text@.take(9));
        }
        if matches_ci_str(head, "/addadmin") && text.get_char(9) == ' ' {
            let arg = text.substring_char(10, n);
            proof {
                assert(arg@ =~= text@.skip(10));
            }
            if let Some(v) = parse_u64(arg) {
                return Some(Command::AddAdmin(v));
            }
            return None;
        }
    }
    None
}

} // verus!
