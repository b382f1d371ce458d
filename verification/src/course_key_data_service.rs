//! Versioned active flags of course key definitions, keyed by token.

use vstd::prelude::*;
use crate::types::CourseKeyData;
use crate::store::{Store, StoreModel, wf, head_of};

verus! {

/// The current data record of a course key: the head of its chain.
pub open spec fn course_key_data_head(m: StoreModel, course_key_key: u64) -> Option<
    CourseKeyData,
> {
    head_of(m.course_key_datas, |d: CourseKeyData| d.course_key_key == course_key_key)
}

/// Appends a new data record for a course key, making it the key's head.
pub fn add(
    s: &mut Store,
    creator_user_id: u64,
    course_key_key: u64,
    active: bool,
    now: u64,
) -> (r: CourseKeyData)
    requires
        wf(old(s)@),
    ensures
        wf(final(s)@),
        final(s)@ == (StoreModel {
            course_key_datas: old(s)@.course_key_datas.push(r),
            ..old(s)@
        }),
        r == (CourseKeyData {
            course_key_data_id: old(s)@.course_key_datas.len() as u64,
            creation_time: now,
            creator_user_id,
            course_key_key,
            active,
        }),
{
    let r = CourseKeyData {
        course_key_data_id: s.course_key_datas.len() as u64,
        creation_time: now,
        creator_user_id,
        course_key_key,
        active,
    };
    s.course_key_datas.push(r);
    proof {
        assert(s@ =~= (StoreModel {
            course_key_datas: old(s)@.course_key_datas.push(r),
            ..old(s)@
        }));
    }
    r
}

/// Looks a course key data record up by its own identifier.
pub fn get_by_course_key_data_id(s: &Store, course_key_data_id: u64) -> (r: Option<CourseKeyData>)
    requires
        wf(s@),
    ensures
        r == if course_key_data_id < s@.course_key_datas.len() {
            Some(s@.course_key_datas[course_key_data_id as int])
        } else {
            None::<CourseKeyData>
        },
{
    if course_key_data_id < s.course_key_datas.len() as u64 {
        Some(s.course_key_datas[course_key_data_id as usize])
    } else {
        None
    }
}

} // verus!
