//! Fight reports: after a fight, the report whose key matches the fight's id is logged.
use vstd::prelude::*;

use crate::text::str_eq;

verus! {

/// An entry of a report list: the key that identifies the fight, and its description.
#[derive(Debug, Clone)]
pub struct Report {
    pub key: String,
    pub desc: String,
}

/// The position of the first report whose key is `key`, if any.
pub fn find_report(reports: &Vec<Report>, key: &str) -> (r: Option<usize>)
    ensures
        match r {
            Some(i) => i < reports@.len() && reports@[i as int].key@ == key@ && forall|j: int|
                0 <= j < i ==> (#[trigger] reports@[j]).key@ != key@,
            None => forall|j: int| 0 <= j < reports@.len() ==> (#[trigger] reports@[j]).key@ != key@,
        },
{
    let mut i: usize = 0;
    while i < reports.len()
        invariant
            i <= reports@.len(),
            forall|j: int| 0 <= j < i ==> (#[trigger] reports@[j]).key@ != key@,
        decreases reports@.len() - i,
    {
        if str_eq(reports[i].key.as_str(), key) {
            return Some(i);
        }
        i = i + 1;
    }
    None
}

} // verus!
