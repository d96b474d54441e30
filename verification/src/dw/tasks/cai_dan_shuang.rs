//! Guess odd or even: guesses odd, even, odd, even, odd until the game ends.
use vstd::prelude::*;

use crate::text::str_eq;

verus! {

/// Whether today's game is still to be played: not started (`status` `"0"`) and no guess
/// listed.
pub fn game_open(status: &str, guesses: usize) -> (r: bool)
    ensures
        r == (status@ == "0"@ && guesses == 0),
{
    str_eq(status, "0") && guesses == 0
}

/// The guesses, in order: odd (`"1"`), even (`"2"`), odd, even, odd.
pub fn guesses() -> (r: Vec<&'static str>)
    ensures
        r@.len() == 5,
        r@[0]@ == "1"@ && r@[2]@ == "1"@ && r@[4]@ == "1"@,
        r@[1]@ == "2"@ && r@[3]@ == "2"@,
{
    let mut v: Vec<&'static str> = Vec::new();
    v.push("1");
    v.push("2");
    v.push("1");
    v.push("2");
    v.push("1");
    v
}

/// Whether the game ended after a guess: the answer's `status` is `"1"`.
pub fn game_over(status: &str) -> (r: bool)
    ensures
        r == (status@ == "1"@),
{
    str_eq(status, "1")
}

} // verus!
