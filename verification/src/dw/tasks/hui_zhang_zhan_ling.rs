//! The badge pass: claims the daily gift.
use vstd::prelude::*;

use crate::text::{push_str, str_eq};

verus! {

/// What the badge page's `ret` says.
#[derive(Debug, Clone, Copy, PartialEq, Eq, Structural)]
pub enum BadgePage {
    /// `"0"`: go on.
    Open,
    /// `"-1"`: the event is not running; stop without a word.
    Closed,
    /// Anything else: log the code and stop.
    Refused,
}

/// The check of the badge page's `ret`.
pub fn badge_page(ret: &str) -> (r: BadgePage)
    ensures
        r == (if ret@ == "-1"@ {
            BadgePage::Closed
        } else if ret@ != "0"@ {
            BadgePage::Refused
        } else {
            BadgePage::Open
        }),
{
    if str_eq(ret, "-1") {
        BadgePage::Closed
    } else if !str_eq(ret, "0") {
        BadgePage::Refused
    } else {
        BadgePage::Open
    }
}

/// The line logged for a refused page: `ret=<code>`.
pub fn refusal_line(ret: &str) -> (r: String)
    ensures
        r@ == "ret="@ + ret@,
{
    let mut s = String::new();
    push_str(&mut s, "ret=");
    push_str(&mut s, ret);
    s
}

/// Whether the daily gift is still to be claimed (`gift_status` `"0"`).
pub fn gift_unclaimed(gift_status: &str) -> (r: bool)
    ensures
        r == (gift_status@ == "0"@),
{
    str_eq(gift_status, "0")
}

} // verus!
