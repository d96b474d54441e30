//! The fighting almanac: claims the tortoise shell and divines.
use vstd::prelude::*;

use crate::text::str_eq;

verus! {

/// Whether to divine: a shell is held (`num` is not `"0"`) and today's fate is not read yet.
pub fn should_divine(num: &str, fate: &str) -> (r: bool)
    ensures
        r == (num@ != "0"@ && fate@.len() == 0),
{
    !str_eq(num, "0") && fate.is_empty()
}

} // verus!
