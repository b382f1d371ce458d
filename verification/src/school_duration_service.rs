//! Immutable school duration existence records.

use vstd::prelude::*;
use crate::types::SchoolDuration;
use crate::store::{Store, StoreModel, wf};

verus! {

/// The school duration with the given identifier, if it was ever created.
pub open spec fn school_duration_by_id(m: StoreModel, school_duration_id: u64) -> Option<
    SchoolDuration,
> {
    if school_duration_id < m.school_durations.len() {
        Some(m.school_durations[school_duration_id as int])
    } else {
        None
    }
}

/// Appends a new school duration record with a fresh identifier.
pub fn add(s: &mut Store, creator_user_id: u64, school_id: u64, now: u64) -> (r: SchoolDuration)
    requires
        wf(old(s)@),
    ensures
        wf(final(s)@),
        final(s)@ == (StoreModel {
            school_durations: old(s)@.school_durations.push(r),
            ..old(s)@
        }),
        r == (SchoolDuration {
            school_duration_id: old(s)@.school_durations.len() as u64,
            creation_time: now,
            creator_user_id,
            school_id,
        }),
{
    let r = SchoolDuration {
        school_duration_id: s.school_durations.len() as u64,
        creation_time: now,
        creator_user_id,
        school_id,
    };
    s.school_durations.push(r);
    proof {
        assert(s@ =~= (StoreModel {
            school_durations: old(s)@.school_durations.push(r),
            ..old(s)@
        }));
    }
    r
}

/// Looks a school duration up by identifier.
pub fn get_by_school_duration_id(s: &Store, school_duration_id: u64) -> (r: Option<SchoolDuration>)
    requires
        wf(s@),
    ensures
        r == school_duration_by_id(s@, school_duration_id),
{
    if school_duration_id < s.school_durations.len() as u64 {
        Some(s.school_durations[school_duration_id as usize])
    } else {
        None
    }
}

} // verus!
