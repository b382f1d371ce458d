//! Versioned descriptive data of courses; the chain is keyed by course.

use vstd::prelude::*;
use crate::types::CourseData;
use crate::store::{
    Store, StoreModel, wf, head_of, head_at, lemma_head_of_none, lemma_head_at_resolves,
    lemma_head_of_position, lemma_head_of_take_full, lemma_head_of_take_succ,
};

verus! {

/// The current data record of a course: the head of its version chain.
pub open spec fn course_data_head(m: StoreModel, course_id: u64) -> Option<CourseData> {
    head_of(m.course_datas, |d: CourseData| d.course_id == course_id)
}

/// A course is active when its current data record says so; a course with
/// no data record is not active.
pub open spec fn course_is_active(m: StoreModel, course_id: u64) -> bool {
    match course_data_head(m, course_id) {
        Some(d) => d.active,
        None => false,
    }
}

/// Position `i` holds the current data record of its course's chain: no
/// later record is for the same course.
pub open spec fn course_data_head_position(s: Seq<CourseData>, i: int) -> bool {
    &&& 0 <= i < s.len()
    &&& forall|j: int| i < j < s.len() ==> (#[trigger] s[j]).course_id != s[i].course_id
}

/// With identifiers equal to positions, the record at `i` is its course's
/// current data exactly when resolving the course returns a record with
/// identifier `i`.
pub proof fn lemma_course_data_head_position_iff(s: Seq<CourseData>, i: int)
    requires
        forall|k: int| 0 <= k < s.len() ==> (#[trigger] s[k]).course_data_id == k,
        0 <= i < s.len(),
    ensures
        course_data_head_position(s, i) <==> match head_of(
            s,
            |d: CourseData| d.course_id == s[i].course_id,
        ) {
            Some(h) => h.course_data_id == i,
            None => false,
        },
{
    let p = |d: CourseData| d.course_id == s[i].course_id;
    assert(p(s[i]));
    match head_of(s, p) {
        Some(h) => {
            lemma_head_of_position(s, p, h);
            let w = choose|w: int| #[trigger] head_at(s, p, w) && s[w] == h;
            assert(s[w].course_data_id == w);
            if h.course_data_id == i {
                assert(w == i);
                assert(course_data_head_position(s, i));
            } else {
                if course_data_head_position(s, i) {
                    assert(head_at(s, p, i));
                    lemma_head_at_resolves(s, p, i);
                    assert(h == s[i]);
                }
            }
        },
        None => {
            lemma_head_of_none(s, p);
            assert(false);
        },
    }
}

/// Appends a new data record for a course, making it the course's head.
pub fn add(
    s: &mut Store,
    creator_user_id: u64,
    course_id: u64,
    location_id: u64,
    name: String,
    description: String,
    homeroom: bool,
    active: bool,
    now: u64,
) -> (r: CourseData)
    requires
        wf(old(s)@),
    ensures
        wf(final(s)@),
        final(s)@ == (StoreModel {
            course_datas: old(s)@.course_datas.push(r),
            ..old(s)@
        }),
        r == (CourseData {
            course_data_id: old(s)@.course_datas.len() as u64,
            creation_time: now,
            creator_user_id,
            course_id,
            location_id,
            name,
            description,
            homeroom,
            active,
        }),
{
    let r = CourseData {
        course_data_id: s.course_datas.len() as u64,
        creation_time: now,
        creator_user_id,
        course_id,
        location_id,
        name,
        description,
        homeroom,
        active,
    };
    let r2 = r.clone();
    s.course_datas.push(r2);
    proof {
        assert(s@ =~= (StoreModel { course_datas: old(s)@.course_datas.push(r), ..old(s)@ }));
    }
    r
}

/// Resolves the current data record of a course.
#[verifier::loop_isolation(false)]
pub fn get_by_course_id(s: &Store, course_id: u64) -> (r: Option<CourseData>)
    ensures
        r == course_data_head(s@, course_id),
{
    let ghost p = |d: CourseData| d.course_id == course_id;
    let mut i = s.course_datas.len();
    proof {
        lemma_head_of_take_full(s@.course_datas, p);
    }
    while i > 0
        invariant
            i <= s.course_datas.len(),
            head_of(s@.course_datas, p) == head_of(s@.course_datas.take(i as int), p),
        decreases i,
    {
        i = i - 1;
        proof {
            lemma_head_of_take_succ(s@.course_datas, p, i as int);
        }
        if s.course_datas[i].course_id == course_id {
            return Some(s.course_datas[i].clone());
        }
    }
    None
}

/// Resolves whether a course's current data is active.
pub fn is_active_by_course_id(s: &Store, course_id: u64) -> (r: bool)
    ensures
        r == course_is_active(s@, course_id),
{
    match get_by_course_id(s, course_id) {
        Some(d) => d.active,
        None => false,
    }
}

} // verus!
