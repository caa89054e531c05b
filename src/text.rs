//! Small string helpers shared by the modules.
use vstd::prelude::*;
use vstd::string::StringExecFns;

verus! {

/// Whether `s` holds exactly the characters of `lit`.
pub fn same_text(s: &String, lit: &str) -> (r: bool)
    ensures
        r == (s@ == lit@),
{
    let l = String::from_str(lit);
    *s == l
}

} // verus!
