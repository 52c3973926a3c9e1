//! NEAR account names.

use vstd::prelude::*;

verus! {

/// A separator between the parts of an account name.
pub open spec fn is_separator(c: char) -> bool {
    c == '-' || c == '_' || c == '.'
}

/// A character that an account name may hold: a lowercase letter, a digit
/// or a separator.
pub open spec fn is_account_char(c: char) -> bool {
    ('a' <= c && c <= 'z') || ('0' <= c && c <= '9') || is_separator(c)
}

/// A valid NEAR account name: 2 to 64 characters, lowercase letters and
/// digits in runs joined by single separators (`-`, `_` or `.`), with no
/// separator first or last.
pub open spec fn valid_account_id(s: Seq<char>) -> bool {
    &&& 2 <= s.len() <= 64
    &&& forall|i: int| 0 <= i < s.len() ==> is_account_char(#[trigger] s[i])
    &&& !is_separator(s[0])
    &&& !is_separator(s.last())
    &&& forall|i: int| 0 <= i < s.len() - 1 ==> !(is_separator(#[trigger] s[i]) && is_separator(s[i + 1]))
}

/// `near_sdk::env::is_valid_account_id` on the bytes of `s`: the check that
/// parsing `s` into a `near_sdk::AccountId` makes. The contract restates the
/// rule of that function's source (length 2 to 64; lowercase letters,
/// digits and the separators `-`, `_`, `.`; no two separators in a row, none
/// first or last) over the characters of `s`; a character outside ASCII
/// fails it either way.
#[verifier::external_body]
pub(crate) fn is_valid_account_id(s: &str) -> (r: bool)
    ensures
        r == valid_account_id(s@),
{
    near_sdk::env::is_valid_account_id(s.as_bytes())
}

} // verus!
