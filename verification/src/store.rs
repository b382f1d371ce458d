//! The versioned entity store: one append-only table per entity, a
//! mathematical model (`StoreModel`), and the generic head-resolution and
//! counting machinery every service builds on.
//!
//! A record's identifier equals its position in its table, so identifiers
//! are assigned in strictly increasing insertion order and the head of a
//! natural key's chain — the record with the highest identifier sharing the
//! key — is the last matching record of the table.

use vstd::prelude::*;
use crate::types::{
    Adminship, Commitment, Course, CourseData, CourseKey, CourseKeyData, CourseMembership,
    Encounter, ExternalEvent, Location, LocationData, School, SchoolData, SchoolDuration,
    SchoolDurationData, SchoolKey, SchoolKeyData, Session, SessionData, SessionRequest,
    SessionRequestResponse, Stay, StayData, Subscription,
};

verus! {

/// The backing collection of every version chain.  Records are only ever
/// appended; "current state" is always resolved through chain heads.
pub struct Store {
    pub subscriptions: Vec<Subscription>,
    pub schools: Vec<School>,
    pub school_datas: Vec<SchoolData>,
    pub school_durations: Vec<SchoolDuration>,
    pub school_duration_datas: Vec<SchoolDurationData>,
    pub school_keys: Vec<SchoolKey>,
    pub school_key_datas: Vec<SchoolKeyData>,
    pub adminships: Vec<Adminship>,
    pub locations: Vec<Location>,
    pub location_datas: Vec<LocationData>,
    pub courses: Vec<Course>,
    pub course_datas: Vec<CourseData>,
    pub course_keys: Vec<CourseKey>,
    pub course_key_datas: Vec<CourseKeyData>,
    pub course_memberships: Vec<CourseMembership>,
    pub sessions: Vec<Session>,
    pub session_datas: Vec<SessionData>,
    pub session_requests: Vec<SessionRequest>,
    pub session_request_responses: Vec<SessionRequestResponse>,
    pub commitments: Vec<Commitment>,
    pub encounters: Vec<Encounter>,
    pub stays: Vec<Stay>,
    pub stay_datas: Vec<StayData>,
    pub external_events: Vec<ExternalEvent>,
}

/// The mathematical view of a `Store`: one sequence per table.
#[verifier::ext_equal]
pub struct StoreModel {
    pub subscriptions: Seq<Subscription>,
    pub schools: Seq<School>,
    pub school_datas: Seq<SchoolData>,
    pub school_durations: Seq<SchoolDuration>,
    pub school_duration_datas: Seq<SchoolDurationData>,
    pub school_keys: Seq<SchoolKey>,
    pub school_key_datas: Seq<SchoolKeyData>,
    pub adminships: Seq<Adminship>,
    pub locations: Seq<Location>,
    pub location_datas: Seq<LocationData>,
    pub courses: Seq<Course>,
    pub course_datas: Seq<CourseData>,
    pub course_keys: Seq<CourseKey>,
    pub course_key_datas: Seq<CourseKeyData>,
    pub course_memberships: Seq<CourseMembership>,
    pub sessions: Seq<Session>,
    pub session_datas: Seq<SessionData>,
    pub session_requests: Seq<SessionRequest>,
    pub session_request_responses: Seq<SessionRequestResponse>,
    pub commitments: Seq<Commitment>,
    pub encounters: Seq<Encounter>,
    pub stays: Seq<Stay>,
    pub stay_datas: Seq<StayData>,
    pub external_events: Seq<ExternalEvent>,
}

impl View for Store {
    type V = StoreModel;

    open spec fn view(&self) -> StoreModel {
        StoreModel {
            subscriptions: self.subscriptions@,
            schools: self.schools@,
            school_datas: self.school_datas@,
            school_durations: self.school_durations@,
            school_duration_datas: self.school_duration_datas@,
            school_keys: self.school_keys@,
            school_key_datas: self.school_key_datas@,
            adminships: self.adminships@,
            locations: self.locations@,
            location_datas: self.location_datas@,
            courses: self.courses@,
            course_datas: self.course_datas@,
            course_keys: self.course_keys@,
            course_key_datas: self.course_key_datas@,
            course_memberships: self.course_memberships@,
            sessions: self.sessions@,
            session_datas: self.session_datas@,
            session_requests: self.session_requests@,
            session_request_responses: self.session_request_responses@,
            commitments: self.commitments@,
            encounters: self.encounters@,
            stays: self.stays@,
            stay_datas: self.stay_datas@,
            external_events: self.external_events@,
        }
    }
}

/// Well-formedness of a store model: identifiers equal table positions (so
/// they are unique and strictly increasing in insertion order), key tokens
/// are unique, and a session request has at most one response.
pub open spec fn wf(m: StoreModel) -> bool {
    &&& forall|i: int| 0 <= i < m.subscriptions.len()
            ==> (#[trigger] m.subscriptions[i]).subscription_id == i
    &&& forall|i: int| 0 <= i < m.schools.len()
            ==> (#[trigger] m.schools[i]).school_id == i
    &&& forall|i: int| 0 <= i < m.school_datas.len()
            ==> (#[trigger] m.school_datas[i]).school_data_id == i
    &&& forall|i: int| 0 <= i < m.school_durations.len()
            ==> (#[trigger] m.school_durations[i]).school_duration_id == i
    &&& forall|i: int| 0 <= i < m.school_duration_datas.len()
            ==> (#[trigger] m.school_duration_datas[i]).school_duration_data_id == i
    &&& forall|i: int| 0 <= i < m.school_key_datas.len()
            ==> (#[trigger] m.school_key_datas[i]).school_key_data_id == i
    &&& forall|i: int| 0 <= i < m.adminships.len()
            ==> (#[trigger] m.adminships[i]).adminship_id == i
    &&& forall|i: int| 0 <= i < m.locations.len()
            ==> (#[trigger] m.locations[i]).location_id == i
    &&& forall|i: int| 0 <= i < m.location_datas.len()
            ==> (#[trigger] m.location_datas[i]).location_data_id == i
    &&& forall|i: int| 0 <= i < m.courses.len()
            ==> (#[trigger] m.courses[i]).course_id == i
    &&& forall|i: int| 0 <= i < m.course_datas.len()
            ==> (#[trigger] m.course_datas[i]).course_data_id == i
    &&& forall|i: int| 0 <= i < m.course_key_datas.len()
            ==> (#[trigger] m.course_key_datas[i]).course_key_data_id == i
    &&& forall|i: int| 0 <= i < m.course_memberships.len()
            ==> (#[trigger] m.course_memberships[i]).course_membership_id == i
    &&& forall|i: int| 0 <= i < m.sessions.len()
            ==> (#[trigger] m.sessions[i]).session_id == i
    &&& forall|i: int| 0 <= i < m.session_datas.len()
            ==> (#[trigger] m.session_datas[i]).session_data_id == i
    &&& forall|i: int| 0 <= i < m.session_requests.len()
            ==> (#[trigger] m.session_requests[i]).session_request_id == i
    &&& forall|i: int| 0 <= i < m.commitments.len()
            ==> (#[trigger] m.commitments[i]).commitment_id == i
    &&& forall|i: int| 0 <= i < m.encounters.len()
            ==> (#[trigger] m.encounters[i]).encounter_id == i
    &&& forall|i: int| 0 <= i < m.stays.len()
            ==> (#[trigger] m.stays[i]).stay_id == i
    &&& forall|i: int| 0 <= i < m.stay_datas.len()
            ==> (#[trigger] m.stay_datas[i]).stay_data_id == i
    &&& forall|i: int| 0 <= i < m.external_events.len()
            ==> (#[trigger] m.external_events[i]).external_event_id == i
    &&& forall|i: int, j: int| 0 <= i < j < m.school_keys.len()
            ==> (#[trigger] m.school_keys[i]).school_key_key
                != (#[trigger] m.school_keys[j]).school_key_key
    &&& forall|i: int, j: int| 0 <= i < j < m.course_keys.len()
            ==> (#[trigger] m.course_keys[i]).course_key_key
                != (#[trigger] m.course_keys[j]).course_key_key
    &&& forall|i: int, j: int| 0 <= i < j < m.session_request_responses.len()
            ==> (#[trigger] m.session_request_responses[i]).session_request_id
                != (#[trigger] m.session_request_responses[j]).session_request_id
}

/// Referential integrity of the workflow chains: sessions and session
/// requests cite existing courses, commitments cite existing sessions,
/// and responses cite existing requests and — when accepting — existing
/// commitments.  An empty store satisfies it, and every operation
/// preserves it, so it holds of every reachable store; record-level
/// appends made directly, outside the operations, are not bound by it.
pub open spec fn linked(m: StoreModel) -> bool {
    &&& forall|i: int| 0 <= i < m.sessions.len()
            ==> (#[trigger] m.sessions[i]).course_id < m.courses.len()
    &&& forall|i: int| 0 <= i < m.session_requests.len()
            ==> (#[trigger] m.session_requests[i]).course_id < m.courses.len()
    &&& forall|i: int| 0 <= i < m.commitments.len()
            ==> (#[trigger] m.commitments[i]).session_id < m.sessions.len()
    &&& forall|i: int| 0 <= i < m.session_request_responses.len()
            ==> (#[trigger] m.session_request_responses[i]).session_request_id
                < m.session_requests.len()
    &&& forall|i: int| 0 <= i < m.session_request_responses.len()
            ==> match (#[trigger] m.session_request_responses[i]).commitment_id {
                Some(c) => c < m.commitments.len(),
                None => true,
            }
}

/// One table extends another when nothing was removed and no existing
/// record changed: the old table is an unchanged prefix of the new one.
pub open spec fn seq_extends<T>(a: Seq<T>, b: Seq<T>) -> bool {
    &&& a.len() <= b.len()
    &&& forall|i: int| #![trigger a[i]] #![trigger b[i]] 0 <= i < a.len() ==> a[i] == b[i]
}

/// One model extends another when every table does: an operation may only
/// append records, never update or remove them.
pub open spec fn extends(a: StoreModel, b: StoreModel) -> bool {
    &&& seq_extends(a.subscriptions, b.subscriptions)
    &&& seq_extends(a.schools, b.schools)
    &&& seq_extends(a.school_datas, b.school_datas)
    &&& seq_extends(a.school_durations, b.school_durations)
    &&& seq_extends(a.school_duration_datas, b.school_duration_datas)
    &&& seq_extends(a.school_keys, b.school_keys)
    &&& seq_extends(a.school_key_datas, b.school_key_datas)
    &&& seq_extends(a.adminships, b.adminships)
    &&& seq_extends(a.locations, b.locations)
    &&& seq_extends(a.location_datas, b.location_datas)
    &&& seq_extends(a.courses, b.courses)
    &&& seq_extends(a.course_datas, b.course_datas)
    &&& seq_extends(a.course_keys, b.course_keys)
    &&& seq_extends(a.course_key_datas, b.course_key_datas)
    &&& seq_extends(a.course_memberships, b.course_memberships)
    &&& seq_extends(a.sessions, b.sessions)
    &&& seq_extends(a.session_datas, b.session_datas)
    &&& seq_extends(a.session_requests, b.session_requests)
    &&& seq_extends(a.session_request_responses, b.session_request_responses)
    &&& seq_extends(a.commitments, b.commitments)
    &&& seq_extends(a.encounters, b.encounters)
    &&& seq_extends(a.stays, b.stays)
    &&& seq_extends(a.stay_datas, b.stay_datas)
    &&& seq_extends(a.external_events, b.external_events)
}

impl Store {
    /// An empty store: no entity has any state yet.
    pub fn new() -> (r: Store)
        ensures
            wf(r@),
            linked(r@),
            r@.subscriptions.len() == 0,
            r@.schools.len() == 0,
            r@.school_datas.len() == 0,
            r@.school_durations.len() == 0,
            r@.school_duration_datas.len() == 0,
            r@.school_keys.len() == 0,
            r@.school_key_datas.len() == 0,
            r@.adminships.len() == 0,
            r@.locations.len() == 0,
            r@.location_datas.len() == 0,
            r@.courses.len() == 0,
            r@.course_datas.len() == 0,
            r@.course_keys.len() == 0,
            r@.course_key_datas.len() == 0,
            r@.course_memberships.len() == 0,
            r@.sessions.len() == 0,
            r@.session_datas.len() == 0,
            r@.session_requests.len() == 0,
            r@.session_request_responses.len() == 0,
            r@.commitments.len() == 0,
            r@.encounters.len() == 0,
            r@.stays.len() == 0,
            r@.stay_datas.len() == 0,
            r@.external_events.len() == 0,
    {
        Store {
            subscriptions: Vec::new(),
            schools: Vec::new(),
            school_datas: Vec::new(),
            school_durations: Vec::new(),
            school_duration_datas: Vec::new(),
            school_keys: Vec::new(),
            school_key_datas: Vec::new(),
            adminships: Vec::new(),
            locations: Vec::new(),
            location_datas: Vec::new(),
            courses: Vec::new(),
            course_datas: Vec::new(),
            course_keys: Vec::new(),
            course_key_datas: Vec::new(),
            course_memberships: Vec::new(),
            sessions: Vec::new(),
            session_datas: Vec::new(),
            session_requests: Vec::new(),
            session_request_responses: Vec::new(),
            commitments: Vec::new(),
            encounters: Vec::new(),
            stays: Vec::new(),
            stay_datas: Vec::new(),
            external_events: Vec::new(),
        }
    }
}

/// The head of a chain: the last element of `s` satisfying `p`, i.e. the
/// matching record with the greatest position, or `None` when no element
/// matches.
pub open spec fn head_of<T>(s: Seq<T>, p: spec_fn(T) -> bool) -> Option<T>
    decreases s.len(),
{
    if s.len() == 0 {
        None
    } else if p(s.last()) {
        Some(s.last())
    } else {
        head_of(s.drop_last(), p)
    }
}

/// Position `i` holds the head of its chain (as selected by `p`): it
/// matches, and no later position matches.
pub open spec fn head_at<T>(s: Seq<T>, p: spec_fn(T) -> bool, i: int) -> bool {
    &&& 0 <= i < s.len()
    &&& p(s[i])
    &&& forall|j: int| i < j < s.len() ==> !p(#[trigger] s[j])
}

/// The subsequence of elements satisfying `p`, in their original order.
pub open spec fn filtered<T>(s: Seq<T>, p: spec_fn(T) -> bool) -> Seq<T>
    decreases s.len(),
{
    if s.len() == 0 {
        Seq::empty()
    } else if p(s.last()) {
        filtered(s.drop_last(), p).push(s.last())
    } else {
        filtered(s.drop_last(), p)
    }
}

/// Unfolding step for loops that filter a prefix of `s`.
pub proof fn lemma_filtered_take_succ<T>(s: Seq<T>, p: spec_fn(T) -> bool, i: int)
    requires
        0 <= i < s.len(),
    ensures
        filtered(s.take(i + 1), p)
            == if p(s[i]) { filtered(s.take(i), p).push(s[i]) } else { filtered(s.take(i), p) },
{
    assert(s.take(i + 1).last() == s[i]);
    assert(s.take(i + 1).drop_last() =~= s.take(i));
}

/// Filtering the whole sequence.
pub proof fn lemma_filtered_take_full<T>(s: Seq<T>, p: spec_fn(T) -> bool)
    ensures
        filtered(s.take(s.len() as int), p) == filtered(s, p),
{
    assert(s.take(s.len() as int) =~= s);
}

/// How many elements of `s` satisfy `p`.
pub open spec fn count_where<T>(s: Seq<T>, p: spec_fn(T) -> bool) -> nat
    decreases s.len(),
{
    if s.len() == 0 {
        0
    } else {
        count_where(s.drop_last(), p) + if p(s.last()) { 1nat } else { 0nat }
    }
}

/// Appending an element moves the head to it exactly when it matches.
pub proof fn lemma_head_of_push<T>(s: Seq<T>, p: spec_fn(T) -> bool, x: T)
    ensures
        head_of(s.push(x), p) == if p(x) { Some(x) } else { head_of(s, p) },
{
    assert(s.push(x).last() == x);
    assert(s.push(x).drop_last() =~= s);
}

/// Unfolding step for loops that scan a prefix of `s`.
pub proof fn lemma_head_of_take_succ<T>(s: Seq<T>, p: spec_fn(T) -> bool, i: int)
    requires
        0 <= i < s.len(),
    ensures
        head_of(s.take(i + 1), p)
            == if p(s[i]) { Some(s[i]) } else { head_of(s.take(i), p) },
{
    assert(s.take(i + 1).last() == s[i]);
    assert(s.take(i + 1).drop_last() =~= s.take(i));
}

/// Scanning the whole sequence resolves the head.
pub proof fn lemma_head_of_take_full<T>(s: Seq<T>, p: spec_fn(T) -> bool)
    ensures
        head_of(s.take(s.len() as int), p) == head_of(s, p),
{
    assert(s.take(s.len() as int) =~= s);
}

/// The head is absent exactly when no element matches.
pub proof fn lemma_head_of_none<T>(s: Seq<T>, p: spec_fn(T) -> bool)
    ensures
        (head_of(s, p) is None) <==> (forall|i: int| 0 <= i < s.len() ==> !p(#[trigger] s[i])),
    decreases s.len(),
{
    if s.len() == 0 {
    } else {
        let s0 = s.drop_last();
        let n = s.len() - 1;
        lemma_head_of_none(s0, p);
        assert(forall|i: int| 0 <= i < n ==> #[trigger] s0[i] == s[i]);
        if p(s.last()) {
            assert(p(s[n]));
        } else {
            if head_of(s0, p) is None {
                assert forall|i: int| 0 <= i < s.len() implies !p(#[trigger] s[i]) by {
                    if i < n {
                        assert(!p(s0[i]));
                    }
                }
            } else {
                assert(!(forall|i: int| 0 <= i < s0.len() ==> !p(#[trigger] s0[i])));
                let w = choose|i: int| 0 <= i < s0.len() && p(#[trigger] s0[i]);
                assert(p(s[w]));
            }
        }
    }
}

/// A position that holds its chain's head resolves to that position's
/// record.
pub proof fn lemma_head_at_resolves<T>(s: Seq<T>, p: spec_fn(T) -> bool, i: int)
    requires
        head_at(s, p, i),
    ensures
        head_of(s, p) == Some(s[i]),
    decreases s.len(),
{
    let n = s.len() - 1;
    if i == n {
    } else {
        let s0 = s.drop_last();
        assert(!p(s[n]));
        assert(forall|k: int| 0 <= k < n ==> #[trigger] s0[k] == s[k]);
        assert(head_at(s0, p, i));
        lemma_head_at_resolves(s0, p, i);
    }
}

/// A resolved head sits at a position after which nothing matches: it is
/// the matching record of greatest position.
pub proof fn lemma_head_of_position<T>(s: Seq<T>, p: spec_fn(T) -> bool, r: T)
    requires
        head_of(s, p) == Some(r),
    ensures
        exists|i: int| #[trigger] head_at(s, p, i) && s[i] == r,
    decreases s.len(),
{
    let n = s.len() - 1;
    if p(s.last()) {
        assert(head_at(s, p, n) && s[n] == r);
    } else {
        let s0 = s.drop_last();
        lemma_head_of_position(s0, p, r);
        let i = choose|i: int| #[trigger] head_at(s0, p, i) && s0[i] == r;
        assert forall|j: int| i < j < s.len() implies !p(#[trigger] s[j]) by {
            if j < n {
                assert(s0[j] == s[j]);
                assert(!p(s0[j]));
            }
        }
        assert(s0[i] == s[i]);
        assert(head_at(s, p, i) && s[i] == r);
    }
}

/// Unfolding step for loops that count matches in a prefix of `s`.
pub proof fn lemma_count_where_take_succ<T>(s: Seq<T>, p: spec_fn(T) -> bool, i: int)
    requires
        0 <= i < s.len(),
    ensures
        count_where(s.take(i + 1), p)
            == count_where(s.take(i), p) + if p(s[i]) { 1nat } else { 0nat },
{
    assert(s.take(i + 1).last() == s[i]);
    assert(s.take(i + 1).drop_last() =~= s.take(i));
}

/// Counting over the whole sequence.
pub proof fn lemma_count_where_take_full<T>(s: Seq<T>, p: spec_fn(T) -> bool)
    ensures
        count_where(s.take(s.len() as int), p) == count_where(s, p),
{
    assert(s.take(s.len() as int) =~= s);
}

/// Appending an element raises the count exactly when it matches.
pub proof fn lemma_count_where_push<T>(s: Seq<T>, p: spec_fn(T) -> bool, x: T)
    ensures
        count_where(s.push(x), p) == count_where(s, p) + if p(x) { 1nat } else { 0nat },
{
    assert(s.push(x).last() == x);
    assert(s.push(x).drop_last() =~= s);
}


} // verus!
