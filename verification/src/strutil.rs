use vstd::prelude::*;
use vstd::string::StringExecFns;

verus! {

/// Whether a string's characters equal the given literal's.
pub(crate) fn string_is(s: &String, lit: &str) -> (b: bool)
    ensures
        b == (s@ == lit@),
{
    let other = String::from_str(lit);
    s.eq(&other)
}

} // verus!
