//! The test group name: one per harness run, set once before the first
//! structured record is emitted and read-only thereafter. The slot is an
//! `Option<String>` owned by the caller.

use vstd::prelude::*;

verus! {

/// Records the test group name, once: if a name is already present, the
/// call leaves it unchanged.
pub fn set_test_group(slot: &mut Option<String>, name: &str)
    ensures
        (*old(slot)) is Some ==> *final(slot) == *old(slot),
        (*old(slot)) is None ==> (*final(slot) matches Some(g) && g@ == name@),
{
    if slot.is_none() {
        *slot = Some(String::from_str(name));
    }
}

/// Reads the test group name, if one has been recorded.
pub fn get_test_group<'a>(slot: &'a Option<String>) -> (r: Option<&'a str>)
    ensures
        match r {
            Some(s) => *slot matches Some(g) && g@ == s@,
            None => *slot is None,
        },
{
    match slot {
        Some(s) => Some(s.as_str()),
        None => None,
    }
}

} // verus!
