//! The redeem code: redeemed on Thursdays through the WeChat entry.
use vstd::prelude::*;

use crate::text::push_str;

verus! {

/// The request that redeems `code`: `cmd=weixin&sub=1&cdkey=<code>`.
pub fn redeem_command(code: &str) -> (r: String)
    ensures
        r@ == "cmd=weixin&sub=1&cdkey="@ + code@,
{
    let mut s = String::new();
    push_str(&mut s, "cmd=weixin&sub=1&cdkey=");
    push_str(&mut s, code);
    s
}

} // verus!
