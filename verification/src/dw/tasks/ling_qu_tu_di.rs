//! Apprentice experience: claims it once, when it can be claimed and a real apprentice
//! (not a suggested one) exists.
use vstd::prelude::*;

use crate::text::str_eq;

verus! {

/// Whether to claim the experience: `expflag` is `"1"` and some apprentice's flag is
/// `"0"` (a real apprentice).
pub fn claim_apprentice_exp(expflag: &str, flags: &Vec<String>) -> (r: bool)
    ensures
        r == (expflag@ == "1"@ && exists|i: int| 0 <= i < flags@.len() && (#[trigger] flags@[i])@ == "0"@),
{
    if !str_eq(expflag, "1") {
        return false;
    }
    let mut i: usize = 0;
    while i < flags.len()
        invariant
            i <= flags@.len(),
            expflag@ == "1"@,
            forall|j: int| 0 <= j < i ==> (#[trigger] flags@[j])@ != "0"@,
        decreases flags@.len() - i,
    {
        if str_eq(flags[i].as_str(), "0") {
            assert(flags@[i as int]@ == "0"@);
            return true;
        }
        i = i + 1;
    }
    false
}

} // verus!
