//! Small texts that the contracts log.

use vstd::prelude::*;

verus! {

/// `prefix` followed by `value`.
pub(crate) fn labelled(prefix: &str, value: &str) -> (s: String)
    ensures
        s@ == prefix@ + value@,
{
    let mut s = prefix.to_string();
    s.append(value);
    s
}

} // verus!
