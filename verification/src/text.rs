//! Trimming of user-entered names, the one text operation the validators
//! rely on.

use vstd::prelude::*;
use vstd::string::StringExecFns;

verus! {

/// `s` with its leading and trailing whitespace removed.
pub uninterp spec fn trimmed(s: Seq<char>) -> Seq<char>;

/// Relies on str::trim: the slice without leading and trailing whitespace,
/// so trimming its result again changes nothing.
#[verifier::external_body]
pub(crate) fn trim_to_string(s: &str) -> (r: String)
    ensures
        r@ == trimmed(s@),
        trimmed(r@) == r@,
{
    String::from_str(s.trim())
}

} // verus!
