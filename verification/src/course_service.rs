//! Immutable course existence records.

use vstd::prelude::*;
use crate::types::Course;
use crate::store::{Store, StoreModel, wf};

verus! {

/// The course with the given identifier, if it was ever created.
pub open spec fn course_by_id(m: StoreModel, course_id: u64) -> Option<Course> {
    if course_id < m.courses.len() {
        Some(m.courses[course_id as int])
    } else {
        None
    }
}

/// Appends a new course record with a fresh identifier.
pub fn add(s: &mut Store, creator_user_id: u64, school_id: u64, now: u64) -> (r: Course)
    requires
        wf(old(s)@),
    ensures
        wf(final(s)@),
        final(s)@ == (StoreModel { courses: old(s)@.courses.push(r), ..old(s)@ }),
        r == (Course {
            course_id: old(s)@.courses.len() as u64,
            creation_time: now,
            creator_user_id,
            school_id,
        }),
{
    let r = Course {
        course_id: s.courses.len() as u64,
        creation_time: now,
        creator_user_id,
        school_id,
    };
    s.courses.push(r);
    proof {
        assert(s@ =~= (StoreModel { courses: old(s)@.courses.push(r), ..old(s)@ }));
    }
    r
}

/// Looks a course up by identifier.
pub fn get_by_course_id(s: &Store, course_id: u64) -> (r: Option<Course>)
    requires
        wf(s@),
    ensures
        r == course_by_id(s@, course_id),
{
    if course_id < s.courses.len() as u64 {
        Some(s.courses[course_id as usize])
    } else {
        None
    }
}

} // verus!
