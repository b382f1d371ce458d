//! The course membership version chain, keyed by (user, course): who is
//! currently a student or instructor of which course, and how course keys
//! were spent.

use vstd::prelude::*;
use crate::types::{CourseData, CourseMembership, CourseMembershipKind};
use crate::store::{
    Store, StoreModel, wf, head_of, head_at, count_where, filtered, lemma_head_of_none,
    lemma_head_at_resolves, lemma_head_of_position, lemma_head_of_take_full,
    lemma_head_of_take_succ, lemma_count_where_take_full, lemma_count_where_take_succ,
    lemma_filtered_take_full, lemma_filtered_take_succ,
};
use crate::course_data_service::{course_data_head, course_data_head_position,
    lemma_course_data_head_position_iff};
use crate::course_data_service;

verus! {

/// The natural key of the course membership chain.
pub open spec fn membership_key(user_id: u64, course_id: u64) -> spec_fn(CourseMembership) -> bool {
    |m: CourseMembership| m.user_id == user_id && m.course_id == course_id
}

/// The current membership record for (user, course).
pub open spec fn membership_head(m: StoreModel, user_id: u64, course_id: u64) -> Option<
    CourseMembership,
> {
    head_of(m.course_memberships, membership_key(user_id, course_id))
}

/// The user is currently a student of the course.
pub open spec fn is_student_spec(m: StoreModel, user_id: u64, course_id: u64) -> bool {
    match membership_head(m, user_id, course_id) {
        Some(c) => c.course_membership_kind is Student,
        None => false,
    }
}

/// The user is currently an instructor of the course.
pub open spec fn is_instructor_spec(m: StoreModel, user_id: u64, course_id: u64) -> bool {
    match membership_head(m, user_id, course_id) {
        Some(c) => c.course_membership_kind is Instructor,
        None => false,
    }
}

/// The user is currently a member — student or instructor — of the course.
pub open spec fn is_member_spec(m: StoreModel, user_id: u64, course_id: u64) -> bool {
    match membership_head(m, user_id, course_id) {
        Some(c) => c.course_membership_kind is Student || c.course_membership_kind is Instructor,
        None => false,
    }
}

/// The user currently instructs some active course held at the location.
pub open spec fn is_instructor_at_spec(m: StoreModel, user_id: u64, location_id: u64) -> bool {
    exists|c: u64|
        {
            &&& #[trigger] course_data_head(m, c) matches Some(cd)
            &&& cd.location_id == location_id
            &&& cd.active
            &&& is_instructor_spec(m, user_id, c)
        }
}

/// How many membership records reference a course key token; redemption
/// counts are derived from history, not stored.
pub open spec fn course_key_uses(m: StoreModel, course_key_key: u64) -> nat {
    count_where(
        m.course_memberships,
        |c: CourseMembership| c.course_key_key == Some(course_key_key),
    )
}

/// Position `i` holds the current record of its (user, course) chain: no
/// later record shares its key.
pub open spec fn membership_head_position(s: Seq<CourseMembership>, i: int) -> bool {
    &&& 0 <= i < s.len()
    &&& forall|j: int| i < j < s.len()
            ==> !((#[trigger] s[j]).user_id == s[i].user_id && s[j].course_id == s[i].course_id)
}

/// Number of users whose chain head for `course_id`, among the first `n`
/// records, has kind `Instructor`.
pub open spec fn instructor_count(s: Seq<CourseMembership>, course_id: u64, n: int) -> nat
    decreases n,
{
    if n <= 0 {
        0
    } else {
        instructor_count(s, course_id, n - 1)
            + if membership_head_position(s, n - 1) && s[n - 1].course_id == course_id
                && s[n - 1].course_membership_kind is Instructor { 1nat } else { 0nat }
    }
}

/// With identifiers equal to positions, the record at `i` is its chain's
/// head exactly when resolving its key returns a record with identifier `i`.
pub proof fn lemma_membership_head_position_iff(s: Seq<CourseMembership>, i: int)
    requires
        forall|k: int| 0 <= k < s.len() ==> (#[trigger] s[k]).course_membership_id == k,
        0 <= i < s.len(),
    ensures
        membership_head_position(s, i) <==> match head_of(
            s,
            membership_key(s[i].user_id, s[i].course_id),
        ) {
            Some(h) => h.course_membership_id == i,
            None => false,
        },
{
    let p = membership_key(s[i].user_id, s[i].course_id);
    assert(p(s[i]));
    match head_of(s, p) {
        Some(h) => {
            lemma_head_of_position(s, p, h);
            let w = choose|w: int| #[trigger] head_at(s, p, w) && s[w] == h;
            assert(s[w].course_membership_id == w);
            if h.course_membership_id == i {
                assert(w == i);
                assert(membership_head_position(s, i));
            } else {
                if membership_head_position(s, i) {
                    assert(head_at(s, p, i));
                    lemma_head_at_resolves(s, p, i);
                    assert(h == s[i]);
                }
            }
        },
        None => {
            lemma_head_of_none(s, p);
            assert(false);
        },
    }
}

/// Appends a new membership record with a fresh identifier, making it the
/// head for (user, course).
pub fn add(
    s: &mut Store,
    creator_user_id: u64,
    user_id: u64,
    course_id: u64,
    course_membership_kind: CourseMembershipKind,
    course_key_key: Option<u64>,
    now: u64,
) -> (r: CourseMembership)
    requires
        wf(old(s)@),
    ensures
        wf(final(s)@),
        final(s)@ == (StoreModel {
            course_memberships: old(s)@.course_memberships.push(r),
            ..old(s)@
        }),
        r == (CourseMembership {
            course_membership_id: old(s)@.course_memberships.len() as u64,
            creation_time: now,
            creator_user_id,
            user_id,
            course_id,
            course_membership_kind,
            course_key_key,
        }),
{
    let r = CourseMembership {
        course_membership_id: s.course_memberships.len() as u64,
        creation_time: now,
        creator_user_id,
        user_id,
        course_id,
        course_membership_kind,
        course_key_key,
    };
    s.course_memberships.push(r);
    proof {
        assert(s@ =~= (StoreModel {
            course_memberships: old(s)@.course_memberships.push(r),
            ..old(s)@
        }));
    }
    r
}

/// Looks a membership record up by its own identifier.
pub fn get_by_course_membership_id(s: &Store, course_membership_id: u64) -> (r: Option<
    CourseMembership,
>)
    requires
        wf(s@),
    ensures
        r == if course_membership_id < s@.course_memberships.len() {
            Some(s@.course_memberships[course_membership_id as int])
        } else {
            None::<CourseMembership>
        },
{
    if course_membership_id < s.course_memberships.len() as u64 {
        Some(s.course_memberships[course_membership_id as usize])
    } else {
        None
    }
}

/// All membership records — current or historical — created by redeeming
/// the given course key token, in identifier order.
#[verifier::loop_isolation(false)]
pub fn get_by_course_key_key(s: &Store, course_key_key: u64) -> (r: Vec<CourseMembership>)
    ensures
        r@ == filtered(
            s@.course_memberships,
            |c: CourseMembership| c.course_key_key == Some(course_key_key),
        ),
{
    let ghost p = |c: CourseMembership| c.course_key_key == Some(course_key_key);
    let mut r: Vec<CourseMembership> = Vec::new();
    let mut i: usize = 0;
    while i < s.course_memberships.len()
        invariant
            i <= s.course_memberships.len(),
            r@ == filtered(s@.course_memberships.take(i as int), p),
        decreases s.course_memberships.len() - i,
    {
        proof {
            lemma_filtered_take_succ(s@.course_memberships, p, i as int);
        }
        let c = s.course_memberships[i];
        let hit = match c.course_key_key {
            Some(k) => k == course_key_key,
            None => false,
        };
        if hit {
            r.push(c);
        }
        i = i + 1;
    }
    proof {
        lemma_filtered_take_full(s@.course_memberships, p);
    }
    r
}

/// Number of membership records that were created by redeeming the given
/// course key token.
#[verifier::loop_isolation(false)]
pub fn count_course_key_uses(s: &Store, course_key_key: u64) -> (r: u64)
    ensures
        r as nat == course_key_uses(s@, course_key_key),
{
    let ghost p = |c: CourseMembership| c.course_key_key == Some(course_key_key);
    let mut r: u64 = 0;
    let mut i: usize = 0;
    while i < s.course_memberships.len()
        invariant
            i <= s.course_memberships.len(),
            r as nat == count_where(s@.course_memberships.take(i as int), p),
            r <= i,
        decreases s.course_memberships.len() - i,
    {
        proof {
            lemma_count_where_take_succ(s@.course_memberships, p, i as int);
        }
        let c = s.course_memberships[i];
        let hit = match c.course_key_key {
            Some(k) => k == course_key_key,
            None => false,
        };
        if hit {
            r = r + 1;
        }
        i = i + 1;
    }
    proof {
        lemma_count_where_take_full(s@.course_memberships, p);
    }
    r
}

/// Resolves the current membership record for (user, course).
#[verifier::loop_isolation(false)]
pub fn get_by_user_id_course_id(s: &Store, user_id: u64, course_id: u64) -> (r: Option<
    CourseMembership,
>)
    ensures
        r == membership_head(s@, user_id, course_id),
{
    let ghost p = membership_key(user_id, course_id);
    let mut i = s.course_memberships.len();
    proof {
        lemma_head_of_take_full(s@.course_memberships, p);
    }
    while i > 0
        invariant
            i <= s.course_memberships.len(),
            head_of(s@.course_memberships, p) == head_of(
                s@.course_memberships.take(i as int),
                p,
            ),
        decreases i,
    {
        i = i - 1;
        proof {
            lemma_head_of_take_succ(s@.course_memberships, p, i as int);
        }
        let c = s.course_memberships[i];
        if c.user_id == user_id && c.course_id == course_id {
            return Some(c);
        }
    }
    None
}

/// Whether the user is currently a student of the course.
pub fn is_student(s: &Store, user_id: u64, course_id: u64) -> (r: bool)
    ensures
        r == is_student_spec(s@, user_id, course_id),
{
    match get_by_user_id_course_id(s, user_id, course_id) {
        Some(c) => matches!(c.course_membership_kind, CourseMembershipKind::Student),
        None => false,
    }
}

/// Whether the user is currently an instructor of the course.
pub fn is_instructor(s: &Store, user_id: u64, course_id: u64) -> (r: bool)
    ensures
        r == is_instructor_spec(s@, user_id, course_id),
{
    match get_by_user_id_course_id(s, user_id, course_id) {
        Some(c) => matches!(c.course_membership_kind, CourseMembershipKind::Instructor),
        None => false,
    }
}

/// Whether the user is currently a member of the course.
pub fn is_member(s: &Store, user_id: u64, course_id: u64) -> (r: bool)
    ensures
        r == is_member_spec(s@, user_id, course_id),
{
    match get_by_user_id_course_id(s, user_id, course_id) {
        Some(c) => matches!(
            c.course_membership_kind,
            CourseMembershipKind::Student | CourseMembershipKind::Instructor
        ),
        None => false,
    }
}

/// Whether the user currently instructs some active course held at the
/// given location.
#[verifier::loop_isolation(false)]
pub fn is_instructor_at(s: &Store, user_id: u64, location_id: u64) -> (r: bool)
    requires
        wf(s@),
    ensures
        r == is_instructor_at_spec(s@, user_id, location_id),
{
    let mut i: usize = 0;
    while i < s.course_datas.len()
        invariant
            i <= s.course_datas.len(),
            forall|j: int| 0 <= j < i
                ==> !(course_data_head_position(s@.course_datas, j)
                    && (#[trigger] s@.course_datas[j]).location_id == location_id
                    && s@.course_datas[j].active
                    && is_instructor_spec(s@, user_id, s@.course_datas[j].course_id)),
        decreases s.course_datas.len() - i,
    {
        let course_id = s.course_datas[i].course_id;
        let active = s.course_datas[i].active;
        let at_location = s.course_datas[i].location_id == location_id;
        if at_location && active {
            let is_head = match course_data_service::get_by_course_id(s, course_id) {
                Some(h) => h.course_data_id == i as u64,
                None => false,
            };
            proof {
                lemma_course_data_head_position_iff(s@.course_datas, i as int);
            }
            if is_head {
                if is_instructor(s, user_id, course_id) {
                    proof {
                        let p = |d: CourseData| d.course_id == course_id;
                        assert(head_at(s@.course_datas, p, i as int));
                        lemma_head_at_resolves(s@.course_datas, p, i as int);
                        assert(course_data_head(s@, course_id)
                            == Some(s@.course_datas[i as int]));
                    }
                    return true;
                }
            }
        }
        i = i + 1;
    }
    proof {
        assert(!is_instructor_at_spec(s@, user_id, location_id)) by {
            if is_instructor_at_spec(s@, user_id, location_id) {
                let c = choose|c: u64|
                    {
                        &&& #[trigger] course_data_head(s@, c) matches Some(cd)
                        &&& cd.location_id == location_id
                        &&& cd.active
                        &&& is_instructor_spec(s@, user_id, c)
                    };
                let cd = course_data_head(s@, c)->Some_0;
                let p = |d: CourseData| d.course_id == c;
                lemma_head_of_position(s@.course_datas, p, cd);
                let w = choose|w: int| #[trigger] head_at(s@.course_datas, p, w)
                    && s@.course_datas[w] == cd;
                assert(course_data_head_position(s@.course_datas, w));
                assert(s@.course_datas[w].course_id == c);
                assert(false);
            }
        }
    }
    false
}

/// All current membership records of a course, one per user chain the
/// course appears in, in identifier order: exactly the records that are
/// their chain's head and carry the course.
#[verifier::loop_isolation(false)]
pub fn get_by_course_id(s: &Store, course_id: u64) -> (r: Vec<CourseMembership>)
    requires
        wf(s@),
    ensures
        r@ == filtered(
            s@.course_memberships,
            |c: CourseMembership| c.course_id == course_id
                && membership_head_position(s@.course_memberships, c.course_membership_id as int),
        ),
{
    let ghost p = |c: CourseMembership| c.course_id == course_id
        && membership_head_position(s@.course_memberships, c.course_membership_id as int);
    let mut r: Vec<CourseMembership> = Vec::new();
    let mut i: usize = 0;
    proof {
        assert(r@ =~= filtered(s@.course_memberships.take(0), p));
    }
    while i < s.course_memberships.len()
        invariant
            i <= s.course_memberships.len(),
            r@ == filtered(s@.course_memberships.take(i as int), p),
        decreases s.course_memberships.len() - i,
    {
        proof {
            lemma_filtered_take_succ(s@.course_memberships, p, i as int);
        }
        let c = s.course_memberships[i];
        if c.course_id == course_id {
            let keep = match get_by_user_id_course_id(s, c.user_id, c.course_id) {
                Some(h) => h.course_membership_id == i as u64,
                None => false,
            };
            proof {
                lemma_membership_head_position_iff(s@.course_memberships, i as int);
            }
            if keep {
                r.push(c);
            }
        }
        i = i + 1;
    }
    proof {
        lemma_filtered_take_full(s@.course_memberships, p);
    }
    r
}

/// Number of users whose current membership in the course is `Instructor`.
#[verifier::loop_isolation(false)]
pub fn count_instructors(s: &Store, course_id: u64) -> (r: u64)
    requires
        wf(s@),
    ensures
        r as nat == instructor_count(
            s@.course_memberships,
            course_id,
            s@.course_memberships.len() as int,
        ),
{
    let mut r: u64 = 0;
    let mut i: usize = 0;
    while i < s.course_memberships.len()
        invariant
            i <= s.course_memberships.len(),
            r as nat == instructor_count(s@.course_memberships, course_id, i as int),
            r <= i,
        decreases s.course_memberships.len() - i,
    {
        let c = s.course_memberships[i];
        if c.course_id == course_id
            && matches!(c.course_membership_kind, CourseMembershipKind::Instructor) {
            let keep = match get_by_user_id_course_id(s, c.user_id, c.course_id) {
                Some(h) => h.course_membership_id == i as u64,
                None => false,
            };
            proof {
                lemma_membership_head_position_iff(s@.course_memberships, i as int);
            }
            if keep {
                r = r + 1;
            }
        } else {
            proof {
                assert(!(s@.course_memberships[i as int].course_id == course_id
                    && s@.course_memberships[i as int].course_membership_kind is Instructor));
            }
        }
        i = i + 1;
    }
    r
}

} // verus!
