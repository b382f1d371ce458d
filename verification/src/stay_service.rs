//! Immutable stay existence records.

use vstd::prelude::*;
use crate::types::Stay;
use crate::store::{Store, StoreModel, wf};

verus! {

/// The stay with the given identifier, if it was ever created.
pub open spec fn stay_by_id(m: StoreModel, stay_id: u64) -> Option<Stay> {
    if stay_id < m.stays.len() {
        Some(m.stays[stay_id as int])
    } else {
        None
    }
}

/// Appends a new stay record with a fresh identifier.
pub fn add(
    s: &mut Store,
    creator_user_id: u64,
    attendee_user_id: u64,
    location_id: u64,
    now: u64,
) -> (r: Stay)
    requires
        wf(old(s)@),
    ensures
        wf(final(s)@),
        final(s)@ == (StoreModel { stays: old(s)@.stays.push(r), ..old(s)@ }),
        r == (Stay {
            stay_id: old(s)@.stays.len() as u64,
            creation_time: now,
            creator_user_id,
            attendee_user_id,
            location_id,
        }),
{
    let r = Stay {
        stay_id: s.stays.len() as u64,
        creation_time: now,
        creator_user_id,
        attendee_user_id,
        location_id,
    };
    s.stays.push(r);
    proof {
        assert(s@ =~= (StoreModel { stays: old(s)@.stays.push(r), ..old(s)@ }));
    }
    r
}

/// Looks a stay up by identifier.
pub fn get_by_stay_id(s: &Store, stay_id: u64) -> (r: Option<Stay>)
    requires
        wf(s@),
    ensures
        r == stay_by_id(s@, stay_id),
{
    if stay_id < s.stays.len() as u64 {
        Some(s.stays[stay_id as usize])
    } else {
        None
    }
}

} // verus!
