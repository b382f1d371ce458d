//! Versioned data of school durations.

use vstd::prelude::*;
use crate::types::SchoolDurationData;
use crate::store::{Store, StoreModel, wf};

verus! {

/// Appends a new data record for a school duration, making it the head.
pub fn add(
    s: &mut Store,
    creator_user_id: u64,
    school_duration_id: u64,
    day: u64,
    minute_start: u64,
    minute_end: u64,
    active: bool,
    now: u64,
) -> (r: SchoolDurationData)
    requires
        wf(old(s)@),
    ensures
        wf(final(s)@),
        final(s)@ == (StoreModel {
            school_duration_datas: old(s)@.school_duration_datas.push(r),
            ..old(s)@
        }),
        r == (SchoolDurationData {
            school_duration_data_id: old(s)@.school_duration_datas.len() as u64,
            creation_time: now,
            creator_user_id,
            school_duration_id,
            day,
            minute_start,
            minute_end,
            active,
        }),
{
    let r = SchoolDurationData {
        school_duration_data_id: s.school_duration_datas.len() as u64,
        creation_time: now,
        creator_user_id,
        school_duration_id,
        day,
        minute_start,
        minute_end,
        active,
    };
    s.school_duration_datas.push(r);
    proof {
        assert(s@ =~= (StoreModel {
            school_duration_datas: old(s)@.school_duration_datas.push(r),
            ..old(s)@
        }));
    }
    r
}

} // verus!
