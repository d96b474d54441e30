//! The login shop: spends all points on the wanted good.
use vstd::prelude::*;

use crate::text::str_eq;

verus! {

/// A good of the shop.
#[derive(Debug, Clone)]
pub struct ShopGood {
    pub name: String,
    pub t: String,
}

/// What the login shop does.
#[derive(Debug, Clone, Copy, PartialEq, Eq, Structural)]
pub enum LoginShop {
    /// No points: nothing.
    NoScore,
    /// Exchange the good at this position, as many times as there are points.
    Exchange(usize),
    /// The wanted good is not offered: log it.
    NotFound,
}

/// The plan from the points and the goods: the first good named `want` takes all the
/// points.
pub fn login_shop(score: &str, goods: &Vec<ShopGood>, want: &str) -> (r: LoginShop)
    ensures
        score@ == "0"@ ==> r == LoginShop::NoScore,
        score@ != "0"@ ==> match r {
            LoginShop::Exchange(i) => i < goods@.len() && goods@[i as int].name@ == want@ && forall|j: int|
                0 <= j < i ==> (#[trigger] goods@[j]).name@ != want@,
            LoginShop::NotFound => forall|j: int| 0 <= j < goods@.len() ==> (#[trigger] goods@[j]).name@ != want@,
            LoginShop::NoScore => false,
        },
{
    if str_eq(score, "0") {
        return LoginShop::NoScore;
    }
    let mut i: usize = 0;
    while i < goods.len()
        invariant
            i <= goods@.len(),
            score@ != "0"@,
            forall|j: int| 0 <= j < i ==> (#[trigger] goods@[j]).name@ != want@,
        decreases goods@.len() - i,
    {
        if str_eq(goods[i].name.as_str(), want) {
            return LoginShop::Exchange(i);
        }
        i = i + 1;
    }
    LoginShop::NotFound
}

} // verus!
