//! Immutable school existence records.

use vstd::prelude::*;
use crate::types::School;
use crate::store::{Store, StoreModel, wf};

verus! {

/// The school with the given identifier, if it was ever created.
pub open spec fn school_by_id(m: StoreModel, school_id: u64) -> Option<School> {
    if school_id < m.schools.len() {
        Some(m.schools[school_id as int])
    } else {
        None
    }
}

/// Appends a new school record with a fresh identifier.
pub fn add(s: &mut Store, creator_user_id: u64, whole: bool, now: u64) -> (r: School)
    requires
        wf(old(s)@),
    ensures
        wf(final(s)@),
        final(s)@ == (StoreModel { schools: old(s)@.schools.push(r), ..old(s)@ }),
        r == (School {
            school_id: old(s)@.schools.len() as u64,
            creation_time: now,
            creator_user_id,
            whole,
        }),
{
    let r = School {
        school_id: s.schools.len() as u64,
        creation_time: now,
        creator_user_id,
        whole,
    };
    s.schools.push(r);
    proof {
        assert(s@ =~= (StoreModel { schools: old(s)@.schools.push(r), ..old(s)@ }));
    }
    r
}

/// Looks a school up by identifier.
pub fn get_by_school_id(s: &Store, school_id: u64) -> (r: Option<School>)
    requires
        wf(s@),
    ensures
        r == school_by_id(s@, school_id),
{
    if school_id < s.schools.len() as u64 {
        Some(s.schools[school_id as usize])
    } else {
        None
    }
}

} // verus!
