//! Login gifts: claims the first login gift and the first top-up gift that can be claimed
//! (status 1; 2 is claimed, 3 locked).
use vstd::prelude::*;

use crate::text::str_eq;

verus! {

/// Whether the page is open: `"-102"` means the event is not running (stop without a
/// word), any other code but `"0"` is a refusal.
#[derive(Debug, Clone, Copy, PartialEq, Eq, Structural)]
pub enum GiftPage {
    Open,
    Closed,
    Refused,
}

/// The check of the gift page's `result`.
pub fn gift_page(result: &str) -> (r: GiftPage)
    ensures
        r == (if result@ == "-102"@ {
            GiftPage::Closed
        } else if result@ != "0"@ {
            GiftPage::Refused
        } else {
            GiftPage::Open
        }),
{
    if str_eq(result, "-102") {
        GiftPage::Closed
    } else if !str_eq(result, "0") {
        GiftPage::Refused
    } else {
        GiftPage::Open
    }
}

/// The index of the first gift that can be claimed (status 1).
pub fn first_claimable_gift(list: &Vec<u8>) -> (r: Option<usize>)
    ensures
        match r {
            Some(i) => i < list@.len() && list@[i as int] == 1 && forall|j: int| 0 <= j < i ==> list@[j] != 1,
            None => forall|j: int| 0 <= j < list@.len() ==> list@[j] != 1,
        },
{
    let mut i: usize = 0;
    while i < list.len()
        invariant
            i <= list@.len(),
            forall|j: int| 0 <= j < i ==> list@[j] != 1,
        decreases list@.len() - i,
    {
        if list[i] == 1 {
            return Some(i);
        }
        i = i + 1;
    }
    None
}

} // verus!
