//! Post-query authorization filtering for the read endpoints.
//!
//! Candidate rows come from whatever query produced them; each view drops
//! the rows the caller may not see, judged against current state, keeping
//! the survivors in their original order.  Views that consult referenced
//! entities report a missing reference as a consistency fault.

use vstd::prelude::*;
use crate::types::{
    Adminship, Commitment, Course, CourseData, CourseKey, CourseKeyData, CourseMembership,
    Encounter, HoursError, Location, LocationData, School, SchoolData, SchoolDuration,
    SchoolDurationData, SchoolKey, SchoolKeyData, Session, SessionData, SessionRequest,
    SessionRequestResponse, Stay, StayData, Subscription,
};
use crate::store::{
    Store, StoreModel, wf, filtered, lemma_filtered_take_full, lemma_filtered_take_succ,
};
use crate::adminship_service;
use crate::adminship_service::{adminship_head, is_admin_spec};
use crate::course_membership_service;
use crate::course_membership_service::{is_instructor_spec, is_member_spec, membership_head};
use crate::course_service;
use crate::course_service::course_by_id;
use crate::course_key_service;
use crate::course_key_service::course_key_by_key;
use crate::school_key_service;
use crate::school_key_service::school_key_by_key;
use crate::session_service;
use crate::session_service::session_by_id;
use crate::session_request_service;
use crate::session_request_service::session_request_by_id;

verus! {

/// A caller may view their own subscriptions.
pub open spec fn subscription_visible(user_id: u64, x: Subscription) -> bool {
    x.creator_user_id == user_id
}

/// Keeps the candidate subscriptions the caller created.
#[verifier::loop_isolation(false)]
pub fn subscription_view(s: &Store, user_id: u64, candidates: &Vec<Subscription>) -> (r: Vec<
    Subscription,
>)
    ensures
        r@ == filtered(candidates@, |x: Subscription| subscription_visible(user_id, x)),
{
    let ghost p = |x: Subscription| subscription_visible(user_id, x);
    let mut r: Vec<Subscription> = Vec::new();
    let mut i: usize = 0;
    proof {
        assert(r@ =~= filtered(candidates@.take(0), p));
    }
    while i < candidates.len()
        invariant
            i <= candidates.len(),
            r@ == filtered(candidates@.take(i as int), p),
        decreases candidates.len() - i,
    {
        proof {
            lemma_filtered_take_succ(candidates@, p, i as int);
        }
        let x = candidates[i];
        if x.creator_user_id == user_id {
            r.push(x);
        }
        i = i + 1;
    }
    proof {
        lemma_filtered_take_full(candidates@, p);
    }
    r
}

/// A caller may view the courses they are or were a member of, and those
/// of schools where they hold any adminship history.
pub open spec fn course_visible(m: StoreModel, user_id: u64, x: Course) -> bool {
    membership_head(m, user_id, x.course_id) is Some
        || adminship_head(m, user_id, x.school_id) is Some
}

/// Keeps the candidate courses the caller may see.
#[verifier::loop_isolation(false)]
pub fn course_view(s: &Store, user_id: u64, candidates: &Vec<Course>) -> (r: Vec<Course>)
    ensures
        r@ == filtered(candidates@, |x: Course| course_visible(s@, user_id, x)),
{
    let ghost p = |x: Course| course_visible(s@, user_id, x);
    let mut r: Vec<Course> = Vec::new();
    let mut i: usize = 0;
    proof {
        assert(r@ =~= filtered(candidates@.take(0), p));
    }
    while i < candidates.len()
        invariant
            i <= candidates.len(),
            r@ == filtered(candidates@.take(i as int), p),
        decreases candidates.len() - i,
    {
        proof {
            lemma_filtered_take_succ(candidates@, p, i as int);
        }
        let x = candidates[i];
        let is_member = course_membership_service::get_by_user_id_course_id(
            s,
            user_id,
            x.course_id,
        ).is_some();
        let is_admin = adminship_service::get_by_user_id_school_id(
            s,
            user_id,
            x.school_id,
        ).is_some();
        if is_member || is_admin {
            r.push(x);
        }
        i = i + 1;
    }
    proof {
        lemma_filtered_take_full(candidates@, p);
    }
    r
}

/// Members of a course may view its membership records.
pub open spec fn course_membership_visible(
    m: StoreModel,
    user_id: u64,
    x: CourseMembership,
) -> bool {
    is_member_spec(m, user_id, x.course_id)
}

/// Keeps the candidate membership records of courses the caller belongs
/// to.
#[verifier::loop_isolation(false)]
pub fn course_membership_view(
    s: &Store,
    user_id: u64,
    candidates: &Vec<CourseMembership>,
) -> (r: Vec<CourseMembership>)
    ensures
        r@ == filtered(
            candidates@,
            |x: CourseMembership| course_membership_visible(s@, user_id, x),
        ),
{
    let ghost p = |x: CourseMembership| course_membership_visible(s@, user_id, x);
    let mut r: Vec<CourseMembership> = Vec::new();
    let mut i: usize = 0;
    proof {
        assert(r@ =~= filtered(candidates@.take(0), p));
    }
    while i < candidates.len()
        invariant
            i <= candidates.len(),
            r@ == filtered(candidates@.take(i as int), p),
        decreases candidates.len() - i,
    {
        proof {
            lemma_filtered_take_succ(candidates@, p, i as int);
        }
        let x = candidates[i];
        if course_membership_service::is_member(s, user_id, x.course_id) {
            r.push(x);
        }
        i = i + 1;
    }
    proof {
        lemma_filtered_take_full(candidates@, p);
    }
    r
}

/// Only instructors of a course may view its keys.
pub open spec fn course_key_visible(m: StoreModel, user_id: u64, x: CourseKey) -> bool {
    is_instructor_spec(m, user_id, x.course_id)
}

/// Keeps the candidate course keys of courses the caller instructs.
#[verifier::loop_isolation(false)]
pub fn course_key_view(s: &Store, user_id: u64, candidates: &Vec<CourseKey>) -> (r: Vec<CourseKey>)
    ensures
        r@ == filtered(candidates@, |x: CourseKey| course_key_visible(s@, user_id, x)),
{
    let ghost p = |x: CourseKey| course_key_visible(s@, user_id, x);
    let mut r: Vec<CourseKey> = Vec::new();
    let mut i: usize = 0;
    proof {
        assert(r@ =~= filtered(candidates@.take(0), p));
    }
    while i < candidates.len()
        invariant
            i <= candidates.len(),
            r@ == filtered(candidates@.take(i as int), p),
        decreases candidates.len() - i,
    {
        proof {
            lemma_filtered_take_succ(candidates@, p, i as int);
        }
        let x = candidates[i];
        if course_membership_service::is_instructor(s, user_id, x.course_id) {
            r.push(x);
        }
        i = i + 1;
    }
    proof {
        lemma_filtered_take_full(candidates@, p);
    }
    r
}

/// Only admins of a school may view its keys.
pub open spec fn school_key_visible(m: StoreModel, user_id: u64, x: SchoolKey) -> bool {
    is_admin_spec(m, user_id, x.school_id)
}

/// Keeps the candidate school keys of schools the caller administers.
#[verifier::loop_isolation(false)]
pub fn school_key_view(s: &Store, user_id: u64, candidates: &Vec<SchoolKey>) -> (r: Vec<SchoolKey>)
    ensures
        r@ == filtered(candidates@, |x: SchoolKey| school_key_visible(s@, user_id, x)),
{
    let ghost p = |x: SchoolKey| school_key_visible(s@, user_id, x);
    let mut r: Vec<SchoolKey> = Vec::new();
    let mut i: usize = 0;
    proof {
        assert(r@ =~= filtered(candidates@.take(0), p));
    }
    while i < candidates.len()
        invariant
            i <= candidates.len(),
            r@ == filtered(candidates@.take(i as int), p),
        decreases candidates.len() - i,
    {
        proof {
            lemma_filtered_take_succ(candidates@, p, i as int);
        }
        let x = candidates[i];
        if adminship_service::is_admin(s, user_id, x.school_id) {
            r.push(x);
        }
        i = i + 1;
    }
    proof {
        lemma_filtered_take_full(candidates@, p);
    }
    r
}

/// Only admins of a school may view its adminship records.
pub open spec fn adminship_visible(m: StoreModel, user_id: u64, x: Adminship) -> bool {
    is_admin_spec(m, user_id, x.school_id)
}

/// Keeps the candidate adminship records of schools the caller
/// administers.
#[verifier::loop_isolation(false)]
pub fn adminship_view(s: &Store, user_id: u64, candidates: &Vec<Adminship>) -> (r: Vec<Adminship>)
    ensures
        r@ == filtered(candidates@, |x: Adminship| adminship_visible(s@, user_id, x)),
{
    let ghost p = |x: Adminship| adminship_visible(s@, user_id, x);
    let mut r: Vec<Adminship> = Vec::new();
    let mut i: usize = 0;
    proof {
        assert(r@ =~= filtered(candidates@.take(0), p));
    }
    while i < candidates.len()
        invariant
            i <= candidates.len(),
            r@ == filtered(candidates@.take(i as int), p),
        decreases candidates.len() - i,
    {
        proof {
            lemma_filtered_take_succ(candidates@, p, i as int);
        }
        let x = candidates[i];
        if adminship_service::is_admin(s, user_id, x.school_id) {
            r.push(x);
        }
        i = i + 1;
    }
    proof {
        lemma_filtered_take_full(candidates@, p);
    }
    r
}

/// Members of a course may view its sessions.
pub open spec fn session_visible(m: StoreModel, user_id: u64, x: Session) -> bool {
    is_member_spec(m, user_id, x.course_id)
}

/// Keeps the candidate sessions of courses the caller belongs to.
#[verifier::loop_isolation(false)]
pub fn session_view(s: &Store, user_id: u64, candidates: &Vec<Session>) -> (r: Vec<Session>)
    ensures
        r@ == filtered(candidates@, |x: Session| session_visible(s@, user_id, x)),
{
    let ghost p = |x: Session| session_visible(s@, user_id, x);
    let mut r: Vec<Session> = Vec::new();
    let mut i: usize = 0;
    proof {
        assert(r@ =~= filtered(candidates@.take(0), p));
    }
    while i < candidates.len()
        invariant
            i <= candidates.len(),
            r@ == filtered(candidates@.take(i as int), p),
        decreases candidates.len() - i,
    {
        proof {
            lemma_filtered_take_succ(candidates@, p, i as int);
        }
        let x = candidates[i];
        if course_membership_service::is_member(s, user_id, x.course_id) {
            r.push(x);
        }
        i = i + 1;
    }
    proof {
        lemma_filtered_take_full(candidates@, p);
    }
    r
}

/// The requester and the course's instructors may view a session request.
pub open spec fn session_request_visible(m: StoreModel, user_id: u64, x: SessionRequest) -> bool {
    x.creator_user_id == user_id || is_instructor_spec(m, user_id, x.course_id)
}

/// Keeps the candidate session requests the caller may see.
#[verifier::loop_isolation(false)]
pub fn session_request_view(s: &Store, user_id: u64, candidates: &Vec<SessionRequest>) -> (r: Vec<
    SessionRequest,
>)
    ensures
        r@ == filtered(candidates@, |x: SessionRequest| session_request_visible(s@, user_id, x)),
{
    let ghost p = |x: SessionRequest| session_request_visible(s@, user_id, x);
    let mut r: Vec<SessionRequest> = Vec::new();
    let mut i: usize = 0;
    proof {
        assert(r@ =~= filtered(candidates@.take(0), p));
    }
    while i < candidates.len()
        invariant
            i <= candidates.len(),
            r@ == filtered(candidates@.take(i as int), p),
        decreases candidates.len() - i,
    {
        proof {
            lemma_filtered_take_succ(candidates@, p, i as int);
        }
        let is_attendee = candidates[i].creator_user_id == user_id;
        let is_instructor = course_membership_service::is_instructor(
            s,
            user_id,
            candidates[i].course_id,
        );
        if is_attendee || is_instructor {
            r.push(candidates[i].clone());
        }
        i = i + 1;
    }
    proof {
        lemma_filtered_take_full(candidates@, p);
    }
    r
}

/// Every school is visible to any authenticated caller.
#[verifier::loop_isolation(false)]
pub fn school_view(s: &Store, _user_id: u64, candidates: &Vec<School>) -> (r: Vec<School>)
    requires
        wf(s@),
    ensures
        r@ == candidates@,
{
    let mut r: Vec<School> = Vec::new();
    let mut i: usize = 0;
    while i < candidates.len()
        invariant
            i <= candidates.len(),
            r@ == candidates@.take(i as int),
        decreases candidates.len() - i,
    {
        r.push(candidates[i]);
        proof {
            assert(r@ =~= candidates@.take(i as int + 1));
        }
        i = i + 1;
    }
    proof {
        assert(candidates@.take(candidates@.len() as int) =~= candidates@);
    }
    r
}

/// Every school data record is visible to any authenticated caller.
#[verifier::loop_isolation(false)]
pub fn school_data_view(s: &Store, _user_id: u64, candidates: &Vec<SchoolData>) -> (r: Vec<
    SchoolData,
>)
    requires
        wf(s@),
    ensures
        r@ == candidates@,
{
    let mut r: Vec<SchoolData> = Vec::new();
    let mut i: usize = 0;
    while i < candidates.len()
        invariant
            i <= candidates.len(),
            r@ == candidates@.take(i as int),
        decreases candidates.len() - i,
    {
        r.push(candidates[i].clone());
        proof {
            assert(r@ =~= candidates@.take(i as int + 1));
        }
        i = i + 1;
    }
    proof {
        assert(candidates@.take(candidates@.len() as int) =~= candidates@);
    }
    r
}

/// Every school duration is visible to any authenticated caller.
#[verifier::loop_isolation(false)]
pub fn school_duration_view(s: &Store, _user_id: u64, candidates: &Vec<SchoolDuration>) -> (r: Vec<
    SchoolDuration,
>)
    requires
        wf(s@),
    ensures
        r@ == candidates@,
{
    let mut r: Vec<SchoolDuration> = Vec::new();
    let mut i: usize = 0;
    while i < candidates.len()
        invariant
            i <= candidates.len(),
            r@ == candidates@.take(i as int),
        decreases candidates.len() - i,
    {
        r.push(candidates[i]);
        proof {
            assert(r@ =~= candidates@.take(i as int + 1));
        }
        i = i + 1;
    }
    proof {
        assert(candidates@.take(candidates@.len() as int) =~= candidates@);
    }
    r
}

/// Every school duration data record is visible to any authenticated
/// caller.
#[verifier::loop_isolation(false)]
pub fn school_duration_data_view(
    s: &Store,
    _user_id: u64,
    candidates: &Vec<SchoolDurationData>,
) -> (r: Vec<SchoolDurationData>)
    requires
        wf(s@),
    ensures
        r@ == candidates@,
{
    let mut r: Vec<SchoolDurationData> = Vec::new();
    let mut i: usize = 0;
    while i < candidates.len()
        invariant
            i <= candidates.len(),
            r@ == candidates@.take(i as int),
        decreases candidates.len() - i,
    {
        r.push(candidates[i]);
        proof {
            assert(r@ =~= candidates@.take(i as int + 1));
        }
        i = i + 1;
    }
    proof {
        assert(candidates@.take(candidates@.len() as int) =~= candidates@);
    }
    r
}

/// Every location is visible to any authenticated caller.
#[verifier::loop_isolation(false)]
pub fn location_view(s: &Store, _user_id: u64, candidates: &Vec<Location>) -> (r: Vec<Location>)
    requires
        wf(s@),
    ensures
        r@ == candidates@,
{
    let mut r: Vec<Location> = Vec::new();
    let mut i: usize = 0;
    while i < candidates.len()
        invariant
            i <= candidates.len(),
            r@ == candidates@.take(i as int),
        decreases candidates.len() - i,
    {
        r.push(candidates[i]);
        proof {
            assert(r@ =~= candidates@.take(i as int + 1));
        }
        i = i + 1;
    }
    proof {
        assert(candidates@.take(candidates@.len() as int) =~= candidates@);
    }
    r
}

/// Every location data record is visible to any authenticated caller.
#[verifier::loop_isolation(false)]
pub fn location_data_view(s: &Store, _user_id: u64, candidates: &Vec<LocationData>) -> (r: Vec<
    LocationData,
>)
    requires
        wf(s@),
    ensures
        r@ == candidates@,
{
    let mut r: Vec<LocationData> = Vec::new();
    let mut i: usize = 0;
    while i < candidates.len()
        invariant
            i <= candidates.len(),
            r@ == candidates@.take(i as int),
        decreases candidates.len() - i,
    {
        r.push(candidates[i].clone());
        proof {
            assert(r@ =~= candidates@.take(i as int + 1));
        }
        i = i + 1;
    }
    proof {
        assert(candidates@.take(candidates@.len() as int) =~= candidates@);
    }
    r
}

/// Every encounter is visible to any authenticated caller.
#[verifier::loop_isolation(false)]
pub fn encounter_view(s: &Store, _user_id: u64, candidates: &Vec<Encounter>) -> (r: Vec<Encounter>)
    requires
        wf(s@),
    ensures
        r@ == candidates@,
{
    let mut r: Vec<Encounter> = Vec::new();
    let mut i: usize = 0;
    while i < candidates.len()
        invariant
            i <= candidates.len(),
            r@ == candidates@.take(i as int),
        decreases candidates.len() - i,
    {
        r.push(candidates[i]);
        proof {
            assert(r@ =~= candidates@.take(i as int + 1));
        }
        i = i + 1;
    }
    proof {
        assert(candidates@.take(candidates@.len() as int) =~= candidates@);
    }
    r
}

/// Every stay is visible to any authenticated caller.
#[verifier::loop_isolation(false)]
pub fn stay_view(s: &Store, _user_id: u64, candidates: &Vec<Stay>) -> (r: Vec<Stay>)
    requires
        wf(s@),
    ensures
        r@ == candidates@,
{
    let mut r: Vec<Stay> = Vec::new();
    let mut i: usize = 0;
    while i < candidates.len()
        invariant
            i <= candidates.len(),
            r@ == candidates@.take(i as int),
        decreases candidates.len() - i,
    {
        r.push(candidates[i]);
        proof {
            assert(r@ =~= candidates@.take(i as int + 1));
        }
        i = i + 1;
    }
    proof {
        assert(candidates@.take(candidates@.len() as int) =~= candidates@);
    }
    r
}

/// Every stay data record is visible to any authenticated caller.
#[verifier::loop_isolation(false)]
pub fn stay_data_view(s: &Store, _user_id: u64, candidates: &Vec<StayData>) -> (r: Vec<StayData>)
    requires
        wf(s@),
    ensures
        r@ == candidates@,
{
    let mut r: Vec<StayData> = Vec::new();
    let mut i: usize = 0;
    while i < candidates.len()
        invariant
            i <= candidates.len(),
            r@ == candidates@.take(i as int),
        decreases candidates.len() - i,
    {
        r.push(candidates[i]);
        proof {
            assert(r@ =~= candidates@.take(i as int + 1));
        }
        i = i + 1;
    }
    proof {
        assert(candidates@.take(candidates@.len() as int) =~= candidates@);
    }
    r
}

/// Authorization-filtered session data list: each candidate's session is
/// resolved — a missing session is a consistency fault — and the record is
/// kept when the caller is currently a member of the session's course.
pub open spec fn session_data_view_spec(
    m: StoreModel,
    user_id: u64,
    cs: Seq<SessionData>,
) -> Result<Seq<SessionData>, HoursError>
    decreases cs.len(),
{
    if cs.len() == 0 {
        Ok(Seq::empty())
    } else {
        match session_data_view_spec(m, user_id, cs.drop_last()) {
            Err(e) => Err(e),
            Ok(pre) => {
                let x = cs.last();
                match session_by_id(m, x.session_id) {
                    None => Err(HoursError::SessionNonexistent),
                    Some(session) => if is_member_spec(m, user_id, session.course_id) {
                        Ok(pre.push(x))
                    } else {
                        Ok(pre)
                    },
                }
            },
        }
    }
}

/// A consistency fault in a prefix settles the whole session data view.
proof fn lemma_session_data_view_err_propagates(
    m: StoreModel,
    user_id: u64,
    cs: Seq<SessionData>,
    j: int,
)
    requires
        0 <= j <= cs.len(),
        session_data_view_spec(m, user_id, cs.take(j)) is Err,
    ensures
        session_data_view_spec(m, user_id, cs)
            == session_data_view_spec(m, user_id, cs.take(j)),
    decreases cs.len() - j,
{
    if j == cs.len() {
        assert(cs.take(j) =~= cs);
    } else {
        assert(cs.take(j + 1).drop_last() =~= cs.take(j));
        lemma_session_data_view_err_propagates(m, user_id, cs, j + 1);
    }
}

/// Keeps the candidate session data records of sessions whose course the
/// caller currently belongs to.
#[verifier::loop_isolation(false)]
pub fn session_data_view(s: &Store, user_id: u64, candidates: &Vec<SessionData>) -> (r: Result<
    Vec<SessionData>,
    HoursError,
>)
    requires
        wf(s@),
    ensures
        match r {
            Ok(v) => session_data_view_spec(s@, user_id, candidates@) == Ok::<
                Seq<SessionData>,
                HoursError,
            >(v@),
            Err(e) => session_data_view_spec(s@, user_id, candidates@) == Err::<
                Seq<SessionData>,
                HoursError,
            >(e),
        },
{
    let mut r: Vec<SessionData> = Vec::new();
    let mut i: usize = 0;
    proof {
        assert(candidates@.take(0) =~= Seq::<SessionData>::empty());
        assert(session_data_view_spec(s@, user_id, candidates@.take(0))
            == Ok::<Seq<SessionData>, HoursError>(r@));
    }
    while i < candidates.len()
        invariant
            i <= candidates.len(),
            session_data_view_spec(s@, user_id, candidates@.take(i as int)) == Ok::<
                Seq<SessionData>,
                HoursError,
            >(r@),
        decreases candidates.len() - i,
    {
        proof {
            assert(candidates@.take(i as int + 1).drop_last() =~= candidates@.take(i as int));
            assert(candidates@.take(i as int + 1).last() == candidates@[i as int]);
        }
        let session = match session_service::get_by_session_id(s, candidates[i].session_id) {
            None => {
                proof {
                    lemma_session_data_view_err_propagates(
                        s@,
                        user_id,
                        candidates@,
                        i as int + 1,
                    );
                }
                return Err(HoursError::SessionNonexistent);
            },
            Some(y) => y,
        };
        if course_membership_service::is_member(s, user_id, session.course_id) {
            r.push(candidates[i].clone());
        }
        i = i + 1;
    }
    proof {
        assert(candidates@.take(candidates@.len() as int) =~= candidates@);
    }
    Ok(r)
}

/// Authorization-filtered course data list: each candidate's course is
/// resolved — a missing course is a consistency fault — and the record is
/// kept when the caller holds any membership history in the course or any
/// adminship history in its school.
pub open spec fn course_data_view_spec(m: StoreModel, user_id: u64, cs: Seq<CourseData>) -> Result<
    Seq<CourseData>,
    HoursError,
>
    decreases cs.len(),
{
    if cs.len() == 0 {
        Ok(Seq::empty())
    } else {
        match course_data_view_spec(m, user_id, cs.drop_last()) {
            Err(e) => Err(e),
            Ok(pre) => {
                let x = cs.last();
                match course_by_id(m, x.course_id) {
                    None => Err(HoursError::CourseNonexistent),
                    Some(course) => if membership_head(m, user_id, x.course_id) is Some
                        || adminship_head(m, user_id, course.school_id) is Some {
                        Ok(pre.push(x))
                    } else {
                        Ok(pre)
                    },
                }
            },
        }
    }
}

/// A consistency fault in a prefix settles the whole course data view.
proof fn lemma_course_data_view_err_propagates(
    m: StoreModel,
    user_id: u64,
    cs: Seq<CourseData>,
    j: int,
)
    requires
        0 <= j <= cs.len(),
        course_data_view_spec(m, user_id, cs.take(j)) is Err,
    ensures
        course_data_view_spec(m, user_id, cs) == course_data_view_spec(m, user_id, cs.take(j)),
    decreases cs.len() - j,
{
    if j == cs.len() {
        assert(cs.take(j) =~= cs);
    } else {
        assert(cs.take(j + 1).drop_last() =~= cs.take(j));
        lemma_course_data_view_err_propagates(m, user_id, cs, j + 1);
    }
}

/// Keeps the candidate course data records of courses the caller may see.
#[verifier::loop_isolation(false)]
pub fn course_data_view(s: &Store, user_id: u64, candidates: &Vec<CourseData>) -> (r: Result<
    Vec<CourseData>,
    HoursError,
>)
    requires
        wf(s@),
    ensures
        match r {
            Ok(v) => course_data_view_spec(s@, user_id, candidates@) == Ok::<
                Seq<CourseData>,
                HoursError,
            >(v@),
            Err(e) => course_data_view_spec(s@, user_id, candidates@) == Err::<
                Seq<CourseData>,
                HoursError,
            >(e),
        },
{
    let mut r: Vec<CourseData> = Vec::new();
    let mut i: usize = 0;
    proof {
        assert(candidates@.take(0) =~= Seq::<CourseData>::empty());
        assert(course_data_view_spec(s@, user_id, candidates@.take(0))
            == Ok::<Seq<CourseData>, HoursError>(r@));
    }
    while i < candidates.len()
        invariant
            i <= candidates.len(),
            course_data_view_spec(s@, user_id, candidates@.take(i as int)) == Ok::<
                Seq<CourseData>,
                HoursError,
            >(r@),
        decreases candidates.len() - i,
    {
        proof {
            assert(candidates@.take(i as int + 1).drop_last() =~= candidates@.take(i as int));
            assert(candidates@.take(i as int + 1).last() == candidates@[i as int]);
        }
        let course = match course_service::get_by_course_id(s, candidates[i].course_id) {
            None => {
                proof {
                    lemma_course_data_view_err_propagates(
                        s@,
                        user_id,
                        candidates@,
                        i as int + 1,
                    );
                }
                return Err(HoursError::CourseNonexistent);
            },
            Some(y) => y,
        };
        let is_member = course_membership_service::get_by_user_id_course_id(
            s,
            user_id,
            candidates[i].course_id,
        ).is_some();
        let is_admin = adminship_service::get_by_user_id_school_id(
            s,
            user_id,
            course.school_id,
        ).is_some();
        if is_member || is_admin {
            r.push(candidates[i].clone());
        }
        i = i + 1;
    }
    proof {
        assert(candidates@.take(candidates@.len() as int) =~= candidates@);
    }
    Ok(r)
}

/// Authorization-filtered course key data list: each candidate's key
/// definition is resolved — a missing definition is a consistency fault —
/// and the record is kept when the caller instructs the key's course.
pub open spec fn course_key_data_view_spec(
    m: StoreModel,
    user_id: u64,
    cs: Seq<CourseKeyData>,
) -> Result<Seq<CourseKeyData>, HoursError>
    decreases cs.len(),
{
    if cs.len() == 0 {
        Ok(Seq::empty())
    } else {
        match course_key_data_view_spec(m, user_id, cs.drop_last()) {
            Err(e) => Err(e),
            Ok(pre) => {
                let x = cs.last();
                match course_key_by_key(m, x.course_key_key) {
                    None => Err(HoursError::CourseKeyNonexistent),
                    Some(key) => if is_instructor_spec(m, user_id, key.course_id) {
                        Ok(pre.push(x))
                    } else {
                        Ok(pre)
                    },
                }
            },
        }
    }
}

/// A consistency fault in a prefix settles the whole key data view.
proof fn lemma_course_key_data_view_err_propagates(
    m: StoreModel,
    user_id: u64,
    cs: Seq<CourseKeyData>,
    j: int,
)
    requires
        0 <= j <= cs.len(),
        course_key_data_view_spec(m, user_id, cs.take(j)) is Err,
    ensures
        course_key_data_view_spec(m, user_id, cs)
            == course_key_data_view_spec(m, user_id, cs.take(j)),
    decreases cs.len() - j,
{
    if j == cs.len() {
        assert(cs.take(j) =~= cs);
    } else {
        assert(cs.take(j + 1).drop_last() =~= cs.take(j));
        lemma_course_key_data_view_err_propagates(m, user_id, cs, j + 1);
    }
}

/// Keeps the candidate course key data records of courses the caller
/// instructs.
#[verifier::loop_isolation(false)]
pub fn course_key_data_view(s: &Store, user_id: u64, candidates: &Vec<CourseKeyData>) -> (r: Result<
    Vec<CourseKeyData>,
    HoursError,
>)
    requires
        wf(s@),
    ensures
        match r {
            Ok(v) => course_key_data_view_spec(s@, user_id, candidates@) == Ok::<
                Seq<CourseKeyData>,
                HoursError,
            >(v@),
            Err(e) => course_key_data_view_spec(s@, user_id, candidates@) == Err::<
                Seq<CourseKeyData>,
                HoursError,
            >(e),
        },
{
    let mut r: Vec<CourseKeyData> = Vec::new();
    let mut i: usize = 0;
    proof {
        assert(candidates@.take(0) =~= Seq::<CourseKeyData>::empty());
        assert(course_key_data_view_spec(s@, user_id, candidates@.take(0))
            == Ok::<Seq<CourseKeyData>, HoursError>(r@));
    }
    while i < candidates.len()
        invariant
            i <= candidates.len(),
            course_key_data_view_spec(s@, user_id, candidates@.take(i as int)) == Ok::<
                Seq<CourseKeyData>,
                HoursError,
            >(r@),
        decreases candidates.len() - i,
    {
        proof {
            assert(candidates@.take(i as int + 1).drop_last() =~= candidates@.take(i as int));
            assert(candidates@.take(i as int + 1).last() == candidates@[i as int]);
        }
        let x = candidates[i];
        let key = match course_key_service::get_by_course_key_key(s, x.course_key_key) {
            None => {
                proof {
                    lemma_course_key_data_view_err_propagates(
                        s@,
                        user_id,
                        candidates@,
                        i as int + 1,
                    );
                }
                return Err(HoursError::CourseKeyNonexistent);
            },
            Some(y) => y,
        };
        if course_membership_service::is_instructor(s, user_id, key.course_id) {
            r.push(x);
        }
        i = i + 1;
    }
    proof {
        assert(candidates@.take(candidates@.len() as int) =~= candidates@);
    }
    Ok(r)
}

/// Authorization-filtered school key data list: each candidate's key
/// definition is resolved — a missing definition is a consistency fault —
/// and the record is kept when the caller administers the key's school.
pub open spec fn school_key_data_view_spec(
    m: StoreModel,
    user_id: u64,
    cs: Seq<SchoolKeyData>,
) -> Result<Seq<SchoolKeyData>, HoursError>
    decreases cs.len(),
{
    if cs.len() == 0 {
        Ok(Seq::empty())
    } else {
        match school_key_data_view_spec(m, user_id, cs.drop_last()) {
            Err(e) => Err(e),
            Ok(pre) => {
                let x = cs.last();
                match school_key_by_key(m, x.school_key_key) {
                    None => Err(HoursError::SchoolKeyNonexistent),
                    Some(key) => if is_admin_spec(m, user_id, key.school_id) {
                        Ok(pre.push(x))
                    } else {
                        Ok(pre)
                    },
                }
            },
        }
    }
}

/// A consistency fault in a prefix settles the whole key data view.
proof fn lemma_school_key_data_view_err_propagates(
    m: StoreModel,
    user_id: u64,
    cs: Seq<SchoolKeyData>,
    j: int,
)
    requires
        0 <= j <= cs.len(),
        school_key_data_view_spec(m, user_id, cs.take(j)) is Err,
    ensures
        school_key_data_view_spec(m, user_id, cs)
            == school_key_data_view_spec(m, user_id, cs.take(j)),
    decreases cs.len() - j,
{
    if j == cs.len() {
        assert(cs.take(j) =~= cs);
    } else {
        assert(cs.take(j + 1).drop_last() =~= cs.take(j));
        lemma_school_key_data_view_err_propagates(m, user_id, cs, j + 1);
    }
}

/// Keeps the candidate school key data records of schools the caller
/// administers.
#[verifier::loop_isolation(false)]
pub fn school_key_data_view(s: &Store, user_id: u64, candidates: &Vec<SchoolKeyData>) -> (r: Result<
    Vec<SchoolKeyData>,
    HoursError,
>)
    requires
        wf(s@),
    ensures
        match r {
            Ok(v) => school_key_data_view_spec(s@, user_id, candidates@) == Ok::<
                Seq<SchoolKeyData>,
                HoursError,
            >(v@),
            Err(e) => school_key_data_view_spec(s@, user_id, candidates@) == Err::<
                Seq<SchoolKeyData>,
                HoursError,
            >(e),
        },
{
    let mut r: Vec<SchoolKeyData> = Vec::new();
    let mut i: usize = 0;
    proof {
        assert(candidates@.take(0) =~= Seq::<SchoolKeyData>::empty());
        assert(school_key_data_view_spec(s@, user_id, candidates@.take(0))
            == Ok::<Seq<SchoolKeyData>, HoursError>(r@));
    }
    while i < candidates.len()
        invariant
            i <= candidates.len(),
            school_key_data_view_spec(s@, user_id, candidates@.take(i as int)) == Ok::<
                Seq<SchoolKeyData>,
                HoursError,
            >(r@),
        decreases candidates.len() - i,
    {
        proof {
            assert(candidates@.take(i as int + 1).drop_last() =~= candidates@.take(i as int));
            assert(candidates@.take(i as int + 1).last() == candidates@[i as int]);
        }
        let x = candidates[i];
        let key = match school_key_service::get_by_school_key_key(s, x.school_key_key) {
            None => {
                proof {
                    lemma_school_key_data_view_err_propagates(
                        s@,
                        user_id,
                        candidates@,
                        i as int + 1,
                    );
                }
                return Err(HoursError::SchoolKeyNonexistent);
            },
            Some(y) => y,
        };
        if adminship_service::is_admin(s, user_id, key.school_id) {
            r.push(x);
        }
        i = i + 1;
    }
    proof {
        assert(candidates@.take(candidates@.len() as int) =~= candidates@);
    }
    Ok(r)
}

/// Authorization-filtered commitment list: each candidate's session is
/// resolved — a missing session is a consistency fault — and the record is
/// kept when the caller is its attendee or instructs the session's course.
pub open spec fn commitment_view_spec(m: StoreModel, user_id: u64, cs: Seq<Commitment>) -> Result<
    Seq<Commitment>,
    HoursError,
>
    decreases cs.len(),
{
    if cs.len() == 0 {
        Ok(Seq::empty())
    } else {
        match commitment_view_spec(m, user_id, cs.drop_last()) {
            Err(e) => Err(e),
            Ok(pre) => {
                let x = cs.last();
                match session_by_id(m, x.session_id) {
                    None => Err(HoursError::SessionNonexistent),
                    Some(session) => if x.attendee_user_id == user_id
                        || is_instructor_spec(m, user_id, session.course_id) {
                        Ok(pre.push(x))
                    } else {
                        Ok(pre)
                    },
                }
            },
        }
    }
}

/// A consistency fault in a prefix settles the whole commitment view.
proof fn lemma_commitment_view_err_propagates(
    m: StoreModel,
    user_id: u64,
    cs: Seq<Commitment>,
    j: int,
)
    requires
        0 <= j <= cs.len(),
        commitment_view_spec(m, user_id, cs.take(j)) is Err,
    ensures
        commitment_view_spec(m, user_id, cs) == commitment_view_spec(m, user_id, cs.take(j)),
    decreases cs.len() - j,
{
    if j == cs.len() {
        assert(cs.take(j) =~= cs);
    } else {
        assert(cs.take(j + 1).drop_last() =~= cs.take(j));
        lemma_commitment_view_err_propagates(m, user_id, cs, j + 1);
    }
}

/// Keeps the candidate commitments whose attendee the caller is, or whose
/// session's course the caller instructs.
#[verifier::loop_isolation(false)]
pub fn commitment_view(s: &Store, user_id: u64, candidates: &Vec<Commitment>) -> (r: Result<
    Vec<Commitment>,
    HoursError,
>)
    requires
        wf(s@),
    ensures
        match r {
            Ok(v) => commitment_view_spec(s@, user_id, candidates@) == Ok::<
                Seq<Commitment>,
                HoursError,
            >(v@),
            Err(e) => commitment_view_spec(s@, user_id, candidates@) == Err::<
                Seq<Commitment>,
                HoursError,
            >(e),
        },
{
    let mut r: Vec<Commitment> = Vec::new();
    let mut i: usize = 0;
    proof {
        assert(candidates@.take(0) =~= Seq::<Commitment>::empty());
        assert(commitment_view_spec(s@, user_id, candidates@.take(0))
            == Ok::<Seq<Commitment>, HoursError>(r@));
    }
    while i < candidates.len()
        invariant
            i <= candidates.len(),
            commitment_view_spec(s@, user_id, candidates@.take(i as int)) == Ok::<
                Seq<Commitment>,
                HoursError,
            >(r@),
        decreases candidates.len() - i,
    {
        proof {
            assert(candidates@.take(i as int + 1).drop_last() =~= candidates@.take(i as int));
            assert(candidates@.take(i as int + 1).last() == candidates@[i as int]);
        }
        let x = candidates[i];
        let session = match session_service::get_by_session_id(s, x.session_id) {
            None => {
                proof {
                    lemma_commitment_view_err_propagates(s@, user_id, candidates@, i as int + 1);
                }
                return Err(HoursError::SessionNonexistent);
            },
            Some(y) => y,
        };
        let is_attendee = x.attendee_user_id == user_id;
        let is_instructor = course_membership_service::is_instructor(
            s,
            user_id,
            session.course_id,
        );
        if is_attendee || is_instructor {
            r.push(x);
        }
        i = i + 1;
    }
    proof {
        assert(candidates@.take(candidates@.len() as int) =~= candidates@);
    }
    Ok(r)
}

/// Authorization-filtered response list: each candidate's request is
/// resolved — a missing request is a consistency fault — and the record is
/// kept when the caller made the request or instructs its course.
pub open spec fn session_request_response_view_spec(
    m: StoreModel,
    user_id: u64,
    cs: Seq<SessionRequestResponse>,
) -> Result<Seq<SessionRequestResponse>, HoursError>
    decreases cs.len(),
{
    if cs.len() == 0 {
        Ok(Seq::empty())
    } else {
        match session_request_response_view_spec(m, user_id, cs.drop_last()) {
            Err(e) => Err(e),
            Ok(pre) => {
                let x = cs.last();
                match session_request_by_id(m, x.session_request_id) {
                    None => Err(HoursError::SessionRequestNonexistent),
                    Some(req) => if req.creator_user_id == user_id
                        || is_instructor_spec(m, user_id, req.course_id) {
                        Ok(pre.push(x))
                    } else {
                        Ok(pre)
                    },
                }
            },
        }
    }
}

/// A consistency fault in a prefix settles the whole response view.
proof fn lemma_response_view_err_propagates(
    m: StoreModel,
    user_id: u64,
    cs: Seq<SessionRequestResponse>,
    j: int,
)
    requires
        0 <= j <= cs.len(),
        session_request_response_view_spec(m, user_id, cs.take(j)) is Err,
    ensures
        session_request_response_view_spec(m, user_id, cs)
            == session_request_response_view_spec(m, user_id, cs.take(j)),
    decreases cs.len() - j,
{
    if j == cs.len() {
        assert(cs.take(j) =~= cs);
    } else {
        assert(cs.take(j + 1).drop_last() =~= cs.take(j));
        lemma_response_view_err_propagates(m, user_id, cs, j + 1);
    }
}

/// Keeps the candidate responses whose request the caller made or whose
/// course the caller instructs.
#[verifier::loop_isolation(false)]
pub fn session_request_response_view(
    s: &Store,
    user_id: u64,
    candidates: &Vec<SessionRequestResponse>,
) -> (r: Result<Vec<SessionRequestResponse>, HoursError>)
    requires
        wf(s@),
    ensures
        match r {
            Ok(v) => session_request_response_view_spec(s@, user_id, candidates@) == Ok::<
                Seq<SessionRequestResponse>,
                HoursError,
            >(v@),
            Err(e) => session_request_response_view_spec(s@, user_id, candidates@) == Err::<
                Seq<SessionRequestResponse>,
                HoursError,
            >(e),
        },
{
    let mut r: Vec<SessionRequestResponse> = Vec::new();
    let mut i: usize = 0;
    proof {
        assert(candidates@.take(0) =~= Seq::<SessionRequestResponse>::empty());
        assert(session_request_response_view_spec(s@, user_id, candidates@.take(0))
            == Ok::<Seq<SessionRequestResponse>, HoursError>(r@));
    }
    while i < candidates.len()
        invariant
            i <= candidates.len(),
            session_request_response_view_spec(s@, user_id, candidates@.take(i as int)) == Ok::<
                Seq<SessionRequestResponse>,
                HoursError,
            >(r@),
        decreases candidates.len() - i,
    {
        proof {
            assert(candidates@.take(i as int + 1).drop_last() =~= candidates@.take(i as int));
            assert(candidates@.take(i as int + 1).last() == candidates@[i as int]);
        }
        let req = match session_request_service::get_by_session_request_id(
            s,
            candidates[i].session_request_id,
        ) {
            None => {
                proof {
                    lemma_response_view_err_propagates(s@, user_id, candidates@, i as int + 1);
                }
                return Err(HoursError::SessionRequestNonexistent);
            },
            Some(y) => y,
        };
        let is_attendee = req.creator_user_id == user_id;
        let is_instructor = course_membership_service::is_instructor(s, user_id, req.course_id);
        if is_attendee || is_instructor {
            r.push(candidates[i].clone());
        }
        i = i + 1;
    }
    proof {
        assert(candidates@.take(candidates@.len() as int) =~= candidates@);
    }
    Ok(r)
}

} // verus!
