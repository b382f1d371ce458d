//! The store-wide guarantees of the versioned-entity model and the
//! workflow engine, stated and proved once over the operation outcome
//! specifications.

use vstd::prelude::*;
use crate::types::{
    Commitment, CourseMembership, HoursError, SessionRequestResponse,
};
use crate::store::{
    StoreModel, wf, linked, extends, seq_extends, head_of, head_at, count_where,
    lemma_head_of_push, lemma_head_of_none, lemma_head_at_resolves, lemma_head_of_position,
    lemma_count_where_push,
};
use crate::adminship_service::{adminship_head, adminship_key, is_admin_spec};
use crate::course_membership_service::{
    instructor_count, is_instructor_spec, is_member_spec, membership_head,
    membership_head_position, membership_key, course_key_uses,
};
use crate::course_key_service::course_key_by_key;
use crate::course_data_service::course_is_active;
use crate::course_service::course_by_id;
use crate::session_service::session_by_id;
use crate::session_request_service::session_request_by_id;
use crate::session_request_response_service::response_by_request_id;
use crate::commitment_service::commitment_head;
use crate::handlers::{
    adminship_new_cancel_spec, course_membership_new_cancel_spec, course_membership_new_key_spec,
    session_request_new_spec, session_request_response_new_spec,
};

verus! {

/// Append-only: when one state extends another — as every operation's
/// contract guarantees — no read observes fewer matching records than
/// before, and no existing record's payload has changed.
pub proof fn law_append_only<T>(a: Seq<T>, b: Seq<T>, p: spec_fn(T) -> bool)
    requires
        seq_extends(a, b),
    ensures
        count_where(a, p) <= count_where(b, p),
        forall|i: int| 0 <= i < a.len() ==> b[i] == a[i],
    decreases b.len(),
{
    if a.len() == b.len() {
        assert(a =~= b);
    } else {
        let b0 = b.drop_last();
        assert(seq_extends(a, b0));
        law_append_only(a, b0, p);
    }
}

/// Head resolution correctness, shown on the adminship chain: resolution
/// returns none exactly when the chain for the key is empty, and otherwise
/// the chain record with the maximum identifier.
pub proof fn law_head_resolution(m: StoreModel, user_id: u64, school_id: u64)
    requires
        wf(m),
    ensures
        (adminship_head(m, user_id, school_id) is None) <==> (forall|i: int|
            0 <= i < m.adminships.len()
                ==> !((#[trigger] m.adminships[i]).user_id == user_id
                    && m.adminships[i].school_id == school_id)),
        adminship_head(m, user_id, school_id) matches Some(h) ==> {
            &&& h.user_id == user_id
            &&& h.school_id == school_id
            &&& exists|i: int| 0 <= i < m.adminships.len() && #[trigger] m.adminships[i] == h
            &&& forall|i: int| 0 <= i < m.adminships.len()
                && (#[trigger] m.adminships[i]).user_id == user_id
                && m.adminships[i].school_id == school_id
                ==> m.adminships[i].adminship_id <= h.adminship_id
        },
{
    let p = adminship_key(user_id, school_id);
    lemma_head_of_none(m.adminships, p);
    match head_of(m.adminships, p) {
        Some(h) => {
            lemma_head_of_position(m.adminships, p, h);
            let w = choose|w: int| #[trigger] head_at(m.adminships, p, w)
                && m.adminships[w] == h;
            assert(m.adminships[w] == h);
            assert forall|i: int| 0 <= i < m.adminships.len()
                && (#[trigger] m.adminships[i]).user_id == user_id
                && m.adminships[i].school_id == school_id
                implies m.adminships[i].adminship_id <= h.adminship_id by {
                if i > w {
                    assert(!p(m.adminships[i]));
                }
            }
        },
        None => {},
    }
}

/// Cancelling is additive: a successful adminship cancellation removes no
/// record — the new state extends the old — yet the target at once stops
/// being an admin, because the appended `Cancel` record is the new head.
pub proof fn law_cancel_additive_adminship(
    m: StoreModel,
    user_id: u64,
    target_user_id: u64,
    school_id: u64,
    now: u64,
)
    requires
        wf(m),
        adminship_new_cancel_spec(m, user_id, target_user_id, school_id, now).1 is Ok,
    ensures
        extends(m, adminship_new_cancel_spec(m, user_id, target_user_id, school_id, now).0),
        !is_admin_spec(
            adminship_new_cancel_spec(m, user_id, target_user_id, school_id, now).0,
            target_user_id,
            school_id,
        ),
{
    let m2 = adminship_new_cancel_spec(m, user_id, target_user_id, school_id, now).0;
    let x = m2.adminships.last();
    lemma_head_of_push(m.adminships, adminship_key(target_user_id, school_id), x);
    assert(adminship_head(m2, target_user_id, school_id) == Some(x));
}

/// Cancelling is additive, membership form: a successful course membership
/// cancellation keeps every prior record, and the target at once stops
/// being an instructor, student, or member of the course.
pub proof fn law_cancel_additive_membership(
    m: StoreModel,
    user_id: u64,
    target_user_id: u64,
    course_id: u64,
    now: u64,
)
    requires
        wf(m),
        course_membership_new_cancel_spec(m, user_id, target_user_id, course_id, now).1 is Ok,
    ensures
        extends(
            m,
            course_membership_new_cancel_spec(m, user_id, target_user_id, course_id, now).0,
        ),
        !is_member_spec(
            course_membership_new_cancel_spec(m, user_id, target_user_id, course_id, now).0,
            target_user_id,
            course_id,
        ),
{
    let m2 = course_membership_new_cancel_spec(m, user_id, target_user_id, course_id, now).0;
    let x = m2.course_memberships.last();
    lemma_head_of_push(m.course_memberships, membership_key(target_user_id, course_id), x);
    assert(membership_head(m2, target_user_id, course_id) == Some(x));
}

/// Key redemption bounds, one step: for an unexpired key of an active
/// course, redemption succeeds exactly while the recorded uses are below
/// the cap — and then records precisely one more use — and fails with
/// `CourseKeyUsed` as soon as the cap is reached.  Redeeming a fresh key
/// `max_uses` times therefore succeeds each time and the next attempt
/// fails.
pub proof fn law_key_redemption_bounds(m: StoreModel, user_id: u64, course_key_key: u64, now: u64)
    requires
        wf(m),
        course_key_by_key(m, course_key_key) matches Some(key) && {
            &&& key.start_time <= now <= key.end_time
            &&& course_is_active(m, key.course_id)
        },
    ensures
        course_key_uses(m, course_key_key)
            < course_key_by_key(m, course_key_key)->Some_0.max_uses ==> {
            &&& course_membership_new_key_spec(m, user_id, course_key_key, now).1 is Ok
            &&& course_key_uses(
                course_membership_new_key_spec(m, user_id, course_key_key, now).0,
                course_key_key,
            ) == course_key_uses(m, course_key_key) + 1
        },
        course_key_uses(m, course_key_key)
            >= course_key_by_key(m, course_key_key)->Some_0.max_uses
            ==> course_membership_new_key_spec(m, user_id, course_key_key, now)
                == (m, Err::<CourseMembership, HoursError>(HoursError::CourseKeyUsed)),
{
    let key = course_key_by_key(m, course_key_key)->Some_0;
    let p = |c: CourseMembership| c.course_key_key == Some(course_key_key);
    if course_key_uses(m, course_key_key) < key.max_uses {
        let m2 = course_membership_new_key_spec(m, user_id, course_key_key, now).0;
        let x = m2.course_memberships.last();
        lemma_count_where_push(m.course_memberships, p, x);
    }
}

/// The state after redeeming a course key once for each user in turn,
/// first user first.
pub open spec fn redeem_each(m: StoreModel, users: Seq<u64>, course_key_key: u64, now: u64)
    -> StoreModel
    decreases users.len(),
{
    if users.len() == 0 {
        m
    } else {
        course_membership_new_key_spec(
            redeem_each(m, users.drop_last(), course_key_key, now),
            users.last(),
            course_key_key,
            now,
        ).0
    }
}

/// Key redemption bounds, in full: starting from a fresh, unexpired key of
/// an active course, redeeming it once per user succeeds at every step as
/// long as the number of redemptions does not exceed the cap; each one
/// adds a use, and once the cap is reached the next attempt — by anyone —
/// fails with `CourseKeyUsed`.
pub proof fn law_key_redemption_exhausts(
    m: StoreModel,
    users: Seq<u64>,
    next_user: u64,
    course_key_key: u64,
    now: u64,
)
    requires
        wf(m),
        course_key_by_key(m, course_key_key) matches Some(key) && {
            &&& key.start_time <= now <= key.end_time
            &&& course_is_active(m, key.course_id)
            &&& course_key_uses(m, course_key_key) == 0
            &&& users.len() == key.max_uses
        },
        m.course_memberships.len() + users.len() <= u64::MAX,
    ensures
        forall|k: int| 0 <= k < users.len()
            ==> course_membership_new_key_spec(
                redeem_each(m, #[trigger] users.take(k), course_key_key, now),
                users[k],
                course_key_key,
                now,
            ).1 is Ok,
        course_membership_new_key_spec(
            redeem_each(m, users, course_key_key, now),
            next_user,
            course_key_key,
            now,
        ).1 == Err::<CourseMembership, HoursError>(HoursError::CourseKeyUsed),
    decreases users.len(),
{
    lemma_redeem_each_invariants(m, users, course_key_key, now);
    assert forall|k: int| 0 <= k < users.len()
        implies course_membership_new_key_spec(
            redeem_each(m, #[trigger] users.take(k), course_key_key, now),
            users[k],
            course_key_key,
            now,
        ).1 is Ok by {
        lemma_redeem_each_invariants(m, users.take(k), course_key_key, now);
        assert(users.take(k).len() == k);
        law_key_redemption_bounds(
            redeem_each(m, users.take(k), course_key_key, now),
            users[k],
            course_key_key,
            now,
        );
    }
}

/// Along a run of redemptions within the cap, the key definition, the
/// course's activity, and well-formedness are untouched, and the use count
/// equals the number of redemptions made.
proof fn lemma_redeem_each_invariants(m: StoreModel, users: Seq<u64>, course_key_key: u64, now: u64)
    requires
        wf(m),
        course_key_by_key(m, course_key_key) matches Some(key) && {
            &&& key.start_time <= now <= key.end_time
            &&& course_is_active(m, key.course_id)
            &&& course_key_uses(m, course_key_key) == 0
            &&& users.len() <= key.max_uses
        },
        m.course_memberships.len() + users.len() <= u64::MAX,
    ensures
        ({
            let m2 = redeem_each(m, users, course_key_key, now);
            &&& m2.course_memberships.len() == m.course_memberships.len() + users.len()
            &&& wf(m2)
            &&& course_key_by_key(m2, course_key_key) == course_key_by_key(m, course_key_key)
            &&& course_is_active(
                m2,
                course_key_by_key(m, course_key_key)->Some_0.course_id,
            )
            &&& course_key_uses(m2, course_key_key) == users.len()
        }),
    decreases users.len(),
{
    if users.len() > 0 {
        let pre = users.drop_last();
        lemma_redeem_each_invariants(m, pre, course_key_key, now);
        let m1 = redeem_each(m, pre, course_key_key, now);
        law_key_redemption_bounds(m1, users.last(), course_key_key, now);
        let m2 = course_membership_new_key_spec(m1, users.last(), course_key_key, now).0;
        assert(m2.course_keys == m1.course_keys);
        assert(m2.course_datas == m1.course_datas);
        assert(m2.course_memberships == m1.course_memberships.push(
            m2.course_memberships.last(),
        ));
        assert(m2.course_memberships.last().course_membership_id
            == m1.course_memberships.len() as u64);
        assert(wf(m2)) by {
            assert forall|i: int| 0 <= i < m2.course_memberships.len()
                implies (#[trigger] m2.course_memberships[i]).course_membership_id == i by {
                if i < m1.course_memberships.len() {
                    assert(m2.course_memberships[i] == m1.course_memberships[i]);
                }
            }
        }
    }
}

/// Expiry boundary: for a key with remaining uses on an active course,
/// redemption at `now == start_time` and `now == end_time` succeeds, while
/// redemption just outside the window — one instant before it opens or
/// after it closes — fails with `CourseKeyExpired`.
pub proof fn law_expiry_boundary(m: StoreModel, user_id: u64, course_key_key: u64, now: u64)
    requires
        wf(m),
        course_key_by_key(m, course_key_key) matches Some(key) && {
            &&& key.start_time <= key.end_time
            &&& course_key_uses(m, course_key_key) < key.max_uses
            &&& course_is_active(m, key.course_id)
        },
    ensures
        now == course_key_by_key(m, course_key_key)->Some_0.start_time
            || now == course_key_by_key(m, course_key_key)->Some_0.end_time
            ==> course_membership_new_key_spec(m, user_id, course_key_key, now).1 is Ok,
        now + 1 == course_key_by_key(m, course_key_key)->Some_0.start_time
            || now == course_key_by_key(m, course_key_key)->Some_0.end_time + 1
            ==> course_membership_new_key_spec(m, user_id, course_key_key, now)
                == (m, Err::<CourseMembership, HoursError>(HoursError::CourseKeyExpired)),
{
}

/// Appending a non-`Instructor` record for a user who holds the chain head
/// of kind `Instructor` at position `w` lowers the course's instructor
/// count over the first `n` positions by one exactly when `w` lies among
/// them: the new record unseats that head and no other.
proof fn lemma_instructor_count_after_cancel(
    s: Seq<CourseMembership>,
    x: CourseMembership,
    course_id: u64,
    w: int,
    n: int,
)
    requires
        forall|k: int| 0 <= k < s.len() ==> (#[trigger] s[k]).course_membership_id == k,
        x.course_id == course_id,
        !(x.course_membership_kind is Instructor),
        0 <= w < s.len(),
        s[w].user_id == x.user_id,
        s[w].course_id == course_id,
        s[w].course_membership_kind is Instructor,
        membership_head_position(s, w),
        0 <= n <= s.len(),
    ensures
        instructor_count(s.push(x), course_id, n)
            == instructor_count(s, course_id, n) - (if w < n { 1int } else { 0int }),
    decreases n,
{
    let s2 = s.push(x);
    if n > 0 {
        lemma_instructor_count_after_cancel(s, x, course_id, w, n - 1);
        let i = n - 1;
        assert(s2[i] == s[i]);
        if membership_head_position(s, i) && s[i].course_id == course_id
            && s[i].course_membership_kind is Instructor {
            if i == w {
                assert(s2[s.len() as int] == x);
                assert(!membership_head_position(s2, i));
            } else {
                if s[i].user_id == x.user_id && s[i].course_id == x.course_id {
                    if i < w {
                        assert(!membership_head_position(s, i));
                    } else {
                        assert(!membership_head_position(s, w));
                    }
                }
                assert(membership_head_position(s2, i)) by {
                    assert forall|j: int| i < j < s2.len()
                        implies !((#[trigger] s2[j]).user_id == s2[i].user_id
                            && s2[j].course_id == s2[i].course_id) by {
                        if j < s.len() {
                            assert(s2[j] == s[j]);
                        } else {
                            assert(s2[j] == x);
                        }
                    }
                }
            }
        } else {
            assert(!(membership_head_position(s2, i) && s2[i].course_id == course_id
                && s2[i].course_membership_kind is Instructor)) by {
                if membership_head_position(s2, i) {
                    assert(membership_head_position(s, i)) by {
                        assert forall|j: int| i < j < s.len()
                            implies !((#[trigger] s[j]).user_id == s[i].user_id
                                && s[j].course_id == s[i].course_id) by {
                            assert(s2[j] == s[j]);
                        }
                    }
                }
            }
        }
    }
}

/// No-orphan guarantee, sole-instructor half: when the caller is the
/// course's only current instructor, cancelling their own membership is
/// rejected with the cannot-leave-empty error and the store is untouched.
pub proof fn law_no_orphan_sole_instructor(m: StoreModel, user_id: u64, course_id: u64, now: u64)
    requires
        wf(m),
        course_by_id(m, course_id) is Some,
        course_is_active(m, course_id),
        is_instructor_spec(m, user_id, course_id),
        instructor_count(m.course_memberships, course_id, m.course_memberships.len() as int)
            == 1,
    ensures
        course_membership_new_cancel_spec(m, user_id, user_id, course_id, now) == (
            m,
            Err::<CourseMembership, HoursError>(HoursError::CourseMembershipCannotLeaveEmpty),
        ),
{
}

/// No-orphan guarantee, two-instructor half: with at least two current
/// instructors, an instructor's self-cancellation succeeds and exactly one
/// instructor fewer remains.
pub proof fn law_no_orphan_cancel_leaves_one(m: StoreModel, user_id: u64, course_id: u64, now: u64)
    requires
        wf(m),
        course_by_id(m, course_id) is Some,
        course_is_active(m, course_id),
        is_instructor_spec(m, user_id, course_id),
        instructor_count(m.course_memberships, course_id, m.course_memberships.len() as int)
            >= 2,
    ensures
        course_membership_new_cancel_spec(m, user_id, user_id, course_id, now).1 is Ok,
        instructor_count(
            course_membership_new_cancel_spec(m, user_id, user_id, course_id, now)
                .0
                .course_memberships,
            course_id,
            course_membership_new_cancel_spec(m, user_id, user_id, course_id, now)
                .0
                .course_memberships
                .len() as int,
        ) == instructor_count(
            m.course_memberships,
            course_id,
            m.course_memberships.len() as int,
        ) - 1,
{
    let s = m.course_memberships;
    let n = s.len() as int;
    let m2 = course_membership_new_cancel_spec(m, user_id, user_id, course_id, now).0;
    let x = m2.course_memberships.last();
    let p = membership_key(user_id, course_id);
    let h = membership_head(m, user_id, course_id)->Some_0;
    lemma_head_of_position(s, p, h);
    let w = choose|w: int| #[trigger] head_at(s, p, w) && s[w] == h;
    assert(membership_head_position(s, w)) by {
        assert(forall|j: int| w < j < s.len() ==> !p(#[trigger] s[j]));
    }
    lemma_instructor_count_after_cancel(s, x, course_id, w, n);
    assert(m2.course_memberships == s.push(x));
    assert(instructor_count(s.push(x), course_id, n + 1)
        == instructor_count(s.push(x), course_id, n)) by {
        assert(!(s.push(x)[n].course_membership_kind is Instructor));
    }
}

/// Single resolution: once a request has been resolved, any further
/// resolution attempt — whoever makes it, with whatever message or target
/// session — fails with `SessionRequestResponseExistent` and changes
/// nothing.  Of two racing resolutions serialized by the store, exactly
/// the first succeeds.
pub proof fn law_single_resolution(
    m: StoreModel,
    user_id: u64,
    other_user_id: u64,
    session_request_id: u64,
    message: String,
    other_message: String,
    session_id: Option<u64>,
    other_session_id: Option<u64>,
    now: u64,
    later: u64,
)
    requires
        wf(m),
        session_request_response_new_spec(
            m, user_id, session_request_id, message, session_id, now,
        ).1 is Ok,
    ensures
        session_request_response_new_spec(
            session_request_response_new_spec(
                m, user_id, session_request_id, message, session_id, now,
            ).0,
            other_user_id,
            session_request_id,
            other_message,
            other_session_id,
            later,
        ) == (
            session_request_response_new_spec(
                m, user_id, session_request_id, message, session_id, now,
            ).0,
            Err::<SessionRequestResponse, HoursError>(
                HoursError::SessionRequestResponseExistent,
            ),
        ),
{
    let m2 = session_request_response_new_spec(
        m, user_id, session_request_id, message, session_id, now,
    ).0;
    let x = m2.session_request_responses.last();
    let p = |y: SessionRequestResponse| y.session_request_id == session_request_id;
    lemma_head_of_push(m.session_request_responses, p, x);
    assert(response_by_request_id(m2, session_request_id) == Some(x));
}

/// A freshly created session request is pending: it has no response.  In
/// a linked store every response cites an already existing request, and
/// the new request's identifier is fresh, so no response can cite it.
pub proof fn law_new_request_is_pending(
    m: StoreModel,
    user_id: u64,
    course_id: u64,
    message: String,
    start_time: u64,
    end_time: u64,
    now: u64,
)
    requires
        wf(m),
        linked(m),
        m.session_requests.len() <= u64::MAX,
        session_request_new_spec(m, user_id, course_id, message, start_time, end_time, now).1
            is Ok,
    ensures
        ({
            let m2 = session_request_new_spec(
                m, user_id, course_id, message, start_time, end_time, now,
            ).0;
            let rq = session_request_new_spec(
                m, user_id, course_id, message, start_time, end_time, now,
            ).1->Ok_0;
            response_by_request_id(m2, rq.session_request_id) is None
        }),
{
    let m2 = session_request_new_spec(m, user_id, course_id, message, start_time, end_time, now)
        .0;
    let rq = session_request_new_spec(m, user_id, course_id, message, start_time, end_time, now)
        .1->Ok_0;
    assert(m2.session_request_responses == m.session_request_responses);
    assert(rq.session_request_id == m.session_requests.len());
    let p = |y: SessionRequestResponse| y.session_request_id == rq.session_request_id;
    lemma_head_of_none(m2.session_request_responses, p);
    assert forall|i: int| 0 <= i < m2.session_request_responses.len()
        implies !p(#[trigger] m2.session_request_responses[i]) by {
        assert(m.session_request_responses[i].session_request_id < m.session_requests.len());
    }
}

/// Accept idempotence: two different pending requests from the same
/// student, both accepted into the same session of their course — by any
/// instructors, in either order — produce exactly one commitment record:
/// the first acceptance appends it and the second reuses it by
/// identifier.
pub proof fn law_accept_idempotent(
    m: StoreModel,
    instructor_a: u64,
    instructor_b: u64,
    first_request_id: u64,
    second_request_id: u64,
    first_message: String,
    second_message: String,
    session_id: u64,
    now: u64,
    later: u64,
)
    requires
        wf(m),
        first_request_id != second_request_id,
        session_request_by_id(m, first_request_id) matches Some(rq1)
            && session_request_by_id(m, second_request_id) matches Some(rq2)
            && session_by_id(m, session_id) matches Some(session)
            && {
            &&& rq1.creator_user_id == rq2.creator_user_id
            &&& rq1.course_id == session.course_id
            &&& rq2.course_id == session.course_id
            &&& commitment_head(m, rq1.creator_user_id, session_id) is None
            &&& response_by_request_id(m, first_request_id) is None
            &&& response_by_request_id(m, second_request_id) is None
            &&& course_is_active(m, session.course_id)
            &&& is_instructor_spec(m, instructor_a, session.course_id)
            &&& is_instructor_spec(m, instructor_b, session.course_id)
        },
    ensures
        session_request_response_new_spec(
            m, instructor_a, first_request_id, first_message, Some(session_id), now,
        ).1 is Ok,
        ({
            let m2 = session_request_response_new_spec(
                m, instructor_a, first_request_id, first_message, Some(session_id), now,
            ).0;
            let r1 = session_request_response_new_spec(
                m, instructor_a, first_request_id, first_message, Some(session_id), now,
            ).1->Ok_0;
            let m3 = session_request_response_new_spec(
                m2, instructor_b, second_request_id, second_message, Some(session_id), later,
            ).0;
            let r2 = session_request_response_new_spec(
                m2, instructor_b, second_request_id, second_message, Some(session_id), later,
            ).1;
            &&& m2.commitments == m.commitments.push(m2.commitments.last())
            &&& r2 matches Ok(x2) && {
                &&& m3.commitments == m2.commitments
                &&& r1.commitment_id == x2.commitment_id
                &&& r1.commitment_id == Some(m2.commitments.last().commitment_id)
            }
        }),
{
    let rq1 = session_request_by_id(m, first_request_id)->Some_0;
    let student = rq1.creator_user_id;
    let m2 = session_request_response_new_spec(
        m, instructor_a, first_request_id, first_message, Some(session_id), now,
    ).0;
    let c = Commitment {
        commitment_id: m.commitments.len() as u64,
        creation_time: now,
        creator_user_id: instructor_a,
        attendee_user_id: student,
        session_id,
        active: true,
    };
    assert(m2.commitments == m.commitments.push(c));
    let pc = |y: Commitment| y.attendee_user_id == student && y.session_id == session_id;
    lemma_head_of_push(m.commitments, pc, c);
    assert(commitment_head(m2, student, session_id) == Some(c));
    let x1 = m2.session_request_responses.last();
    let pr = |y: SessionRequestResponse| y.session_request_id == second_request_id;
    lemma_head_of_push(m.session_request_responses, pr, x1);
    assert(response_by_request_id(m2, second_request_id)
        == response_by_request_id(m, second_request_id));
}

} // verus!
