//! The authorization-gated mutating operations.
//!
//! Every operation is one atomic step: it resolves current state, checks the
//! caller's role and the structural invariants, and only then appends new
//! records.  On any failed check it returns the first error encountered and
//! leaves the store exactly as it was; on success the new state is the old
//! state plus the appended records.  Each operation's outcome — the result
//! and the next state — is given exactly by its `*_spec` function over the
//! store model.
//!
//! Identity verification, the current time, and random key tokens come from
//! outside the core: callers pass the authenticated user, the clock reading
//! `now`, and fresh opaque tokens as plain values.

use vstd::prelude::*;
use crate::types::{
    Adminship, AdminshipKind, AuthError, Commitment, Course, CourseData, CourseKey,
    CourseKeyData, CourseMembership, CourseMembershipKind, Encounter, EncounterKind, HoursError,
    Location, LocationData, School, SchoolData, SchoolDuration, SchoolDurationData, SchoolKey,
    SchoolKeyData, Session, SessionData, SessionRequest, SessionRequestResponse, Stay, StayBound,
    StayData, Subscription, SubscriptionKind,
};
use crate::store::{Store, StoreModel, wf, extends, linked, head_at, lemma_head_of_position};
use crate::subscription_service;
use crate::subscription_service::subscription_head;
use crate::school_service;
use crate::school_service::school_by_id;
use crate::school_data_service;
use crate::school_data_service::school_is_active;
use crate::school_duration_service;
use crate::school_duration_service::school_duration_by_id;
use crate::school_duration_data_service;
use crate::school_key_service;
use crate::school_key_service::school_key_by_key;
use crate::school_key_data_service;
use crate::adminship_service;
use crate::adminship_service::{admin_count, is_admin_spec, school_key_uses,
    valid_adminship_count};
use crate::location_service;
use crate::location_service::location_by_id;
use crate::location_data_service;
use crate::location_data_service::location_is_active;
use crate::course_service;
use crate::course_service::course_by_id;
use crate::course_data_service;
use crate::course_data_service::course_is_active;
use crate::course_key_service;
use crate::course_key_service::course_key_by_key;
use crate::course_key_data_service;
use crate::course_membership_service;
use crate::course_membership_service::{course_key_uses, instructor_count, is_instructor_at_spec,
    is_instructor_spec, is_student_spec};
use crate::session_service;
use crate::session_service::session_by_id;
use crate::session_data_service;
use crate::session_request_service;
use crate::session_request_service::session_request_by_id;
use crate::session_request_response_service;
use crate::session_request_response_service::response_by_request_id;
use crate::commitment_service;
use crate::commitment_service::commitment_head;
use crate::encounter_service;
use crate::encounter_service::encounter_by_id;
use crate::stay_service;
use crate::stay_service::stay_by_id;
use crate::stay_data_service;

verus! {

/// Maps an identity-service failure into the core's taxonomy, preserving
/// the nonexistent/unauthorized distinction and collapsing other upstream
/// failures into generic categories.
pub fn report_auth_err(e: AuthError) -> (r: HoursError)
    ensures
        r == match e {
            AuthError::ApiKeyNonexistent => HoursError::ApiKeyNonexistent,
            AuthError::ApiKeyUnauthorized => HoursError::ApiKeyUnauthorized,
            AuthError::InternalServerError => HoursError::AuthInternalServerError,
            AuthError::MethodNotAllowed => HoursError::AuthBadRequest,
            AuthError::BadRequest => HoursError::AuthBadRequest,
            AuthError::Other => HoursError::AuthOther,
        },
{
    match e {
        AuthError::ApiKeyNonexistent => HoursError::ApiKeyNonexistent,
        AuthError::ApiKeyUnauthorized => HoursError::ApiKeyUnauthorized,
        AuthError::InternalServerError => HoursError::AuthInternalServerError,
        AuthError::MethodNotAllowed => HoursError::AuthBadRequest,
        AuthError::BadRequest => HoursError::AuthBadRequest,
        AuthError::Other => HoursError::AuthOther,
    }
}

/// Outcome of `subscription_new`: the appended subscription record and the
/// next state.  Subscriptions are created with a single use.
pub open spec fn subscription_new_spec(
    m: StoreModel,
    user_id: u64,
    subscription_kind: SubscriptionKind,
    now: u64,
) -> (StoreModel, Subscription) {
    let x = Subscription {
        subscription_id: m.subscriptions.len() as u64,
        creation_time: now,
        creator_user_id: user_id,
        subscription_kind,
        max_uses: 1,
        payment_id: 0,
    };
    (StoreModel { subscriptions: m.subscriptions.push(x), ..m }, x)
}

/// Creates a subscription for the caller.
pub fn subscription_new(
    s: &mut Store,
    user_id: u64,
    subscription_kind: SubscriptionKind,
    now: u64,
) -> (r: Subscription)
    requires
        wf(old(s)@),
    ensures
        wf(final(s)@),
        extends(old(s)@, final(s)@),
        linked(old(s)@) ==> linked(final(s)@),
        final(s)@ == subscription_new_spec(old(s)@, user_id, subscription_kind, now).0,
        r == subscription_new_spec(old(s)@, user_id, subscription_kind, now).1,
{
    subscription_service::add(s, user_id, subscription_kind, 1, 0, now)
}

/// Outcome of `school_new`.  The caller must hold a subscription with
/// remaining uses; on success a school, its first data record, and the
/// caller's head adminship are appended in one step.
pub open spec fn school_new_spec(
    m: StoreModel,
    user_id: u64,
    name: String,
    description: String,
    whole: bool,
    now: u64,
) -> (StoreModel, Result<SchoolData, HoursError>) {
    match subscription_head(m, user_id) {
        None => (m, Err(HoursError::SubscriptionNonexistent)),
        Some(sub) => if valid_adminship_count(m.adminships, user_id, m.adminships.len() as int)
            >= sub.max_uses {
            (m, Err(HoursError::SubscriptionLimited))
        } else {
            let school = School {
                school_id: m.schools.len() as u64,
                creation_time: now,
                creator_user_id: user_id,
                whole,
            };
            let sd = SchoolData {
                school_data_id: m.school_datas.len() as u64,
                creation_time: now,
                creator_user_id: user_id,
                school_id: school.school_id,
                name,
                description,
                active: true,
            };
            let adm = Adminship {
                adminship_id: m.adminships.len() as u64,
                creation_time: now,
                creator_user_id: user_id,
                user_id,
                school_id: school.school_id,
                adminship_kind: AdminshipKind::Admin,
                school_key_key: None,
            };
            (
                StoreModel {
                    schools: m.schools.push(school),
                    school_datas: m.school_datas.push(sd),
                    adminships: m.adminships.push(adm),
                    ..m
                },
                Ok(sd),
            )
        },
    }
}

/// Creates a school; the creator becomes its first (head) admin.
pub fn school_new(
    s: &mut Store,
    user_id: u64,
    name: String,
    description: String,
    whole: bool,
    now: u64,
) -> (r: Result<SchoolData, HoursError>)
    requires
        wf(old(s)@),
    ensures
        wf(final(s)@),
        extends(old(s)@, final(s)@),
        linked(old(s)@) ==> linked(final(s)@),
        final(s)@ == school_new_spec(old(s)@, user_id, name, description, whole, now).0,
        r == school_new_spec(old(s)@, user_id, name, description, whole, now).1,
{
    let sub = match subscription_service::get_by_user_id(s, user_id) {
        None => {
            return Err(HoursError::SubscriptionNonexistent);
        },
        Some(x) => x,
    };
    if adminship_service::count_valid_adminships_by_user_id(s, user_id) >= sub.max_uses {
        return Err(HoursError::SubscriptionLimited);
    }
    let school = school_service::add(s, user_id, whole, now);
    let school_data = school_data_service::add(
        s,
        user_id,
        school.school_id,
        name,
        description,
        true,
        now,
    );
    let _adminship = adminship_service::add(
        s,
        user_id,
        user_id,
        school.school_id,
        AdminshipKind::Admin,
        None,
        now,
    );
    proof {
        assert(s@ =~= school_new_spec(old(s)@, user_id, name, description, whole, now).0);
    }
    Ok(school_data)
}

/// Outcome of `school_data_new`: only a current admin of the school may
/// append new school data.
pub open spec fn school_data_new_spec(
    m: StoreModel,
    user_id: u64,
    school_id: u64,
    name: String,
    description: String,
    active: bool,
    now: u64,
) -> (StoreModel, Result<SchoolData, HoursError>) {
    if !is_admin_spec(m, user_id, school_id) {
        (m, Err(HoursError::ApiKeyUnauthorized))
    } else {
        let sd = SchoolData {
            school_data_id: m.school_datas.len() as u64,
            creation_time: now,
            creator_user_id: user_id,
            school_id,
            name,
            description,
            active,
        };
        (StoreModel { school_datas: m.school_datas.push(sd), ..m }, Ok(sd))
    }
}

/// Appends new descriptive data (or an archival flag) for a school.
pub fn school_data_new(
    s: &mut Store,
    user_id: u64,
    school_id: u64,
    name: String,
    description: String,
    active: bool,
    now: u64,
) -> (r: Result<SchoolData, HoursError>)
    requires
        wf(old(s)@),
    ensures
        wf(final(s)@),
        extends(old(s)@, final(s)@),
        linked(old(s)@) ==> linked(final(s)@),
        final(s)@ == school_data_new_spec(
            old(s)@, user_id, school_id, name, description, active, now,
        ).0,
        r == school_data_new_spec(old(s)@, user_id, school_id, name, description, active, now).1,
{
    if !adminship_service::is_admin(s, user_id, school_id) {
        return Err(HoursError::ApiKeyUnauthorized);
    }
    let school_data = school_data_service::add(
        s,
        user_id,
        school_id,
        name,
        description,
        active,
        now,
    );
    Ok(school_data)
}

/// Outcome of `school_duration_new`: the school must exist and be active,
/// and the caller must administer it.
pub open spec fn school_duration_new_spec(
    m: StoreModel,
    user_id: u64,
    school_id: u64,
    now: u64,
) -> (StoreModel, Result<SchoolDuration, HoursError>) {
    if school_by_id(m, school_id) is None {
        (m, Err(HoursError::SchoolNonexistent))
    } else if !school_is_active(m, school_id) {
        (m, Err(HoursError::SchoolArchived))
    } else if !is_admin_spec(m, user_id, school_id) {
        (m, Err(HoursError::ApiKeyUnauthorized))
    } else {
        let d = SchoolDuration {
            school_duration_id: m.school_durations.len() as u64,
            creation_time: now,
            creator_user_id: user_id,
            school_id,
        };
        (StoreModel { school_durations: m.school_durations.push(d), ..m }, Ok(d))
    }
}

/// Creates a recurring duration for a school.
pub fn school_duration_new(s: &mut Store, user_id: u64, school_id: u64, now: u64) -> (r: Result<
    SchoolDuration,
    HoursError,
>)
    requires
        wf(old(s)@),
    ensures
        wf(final(s)@),
        extends(old(s)@, final(s)@),
        linked(old(s)@) ==> linked(final(s)@),
        final(s)@ == school_duration_new_spec(old(s)@, user_id, school_id, now).0,
        r == school_duration_new_spec(old(s)@, user_id, school_id, now).1,
{
    if school_service::get_by_school_id(s, school_id).is_none() {
        return Err(HoursError::SchoolNonexistent);
    }
    if !school_data_service::is_active_by_school_id(s, school_id) {
        return Err(HoursError::SchoolArchived);
    }
    if !adminship_service::is_admin(s, user_id, school_id) {
        return Err(HoursError::ApiKeyUnauthorized);
    }
    Ok(school_duration_service::add(s, user_id, school_id, now))
}

/// Outcome of `school_duration_data_new`: the duration must exist, its
/// school must be active, and the caller must administer that school.
pub open spec fn school_duration_data_new_spec(
    m: StoreModel,
    user_id: u64,
    school_duration_id: u64,
    day: u64,
    minute_start: u64,
    minute_end: u64,
    active: bool,
    now: u64,
) -> (StoreModel, Result<SchoolDurationData, HoursError>) {
    match school_duration_by_id(m, school_duration_id) {
        None => (m, Err(HoursError::SchoolDurationNonexistent)),
        Some(dur) => if !school_is_active(m, dur.school_id) {
            (m, Err(HoursError::SchoolArchived))
        } else if !is_admin_spec(m, user_id, dur.school_id) {
            (m, Err(HoursError::ApiKeyUnauthorized))
        } else {
            let d = SchoolDurationData {
                school_duration_data_id: m.school_duration_datas.len() as u64,
                creation_time: now,
                creator_user_id: user_id,
                school_duration_id,
                day,
                minute_start,
                minute_end,
                active,
            };
            (StoreModel { school_duration_datas: m.school_duration_datas.push(d), ..m }, Ok(d))
        },
    }
}

/// Appends new data for a school duration.
pub fn school_duration_data_new(
    s: &mut Store,
    user_id: u64,
    school_duration_id: u64,
    day: u64,
    minute_start: u64,
    minute_end: u64,
    active: bool,
    now: u64,
) -> (r: Result<SchoolDurationData, HoursError>)
    requires
        wf(old(s)@),
    ensures
        wf(final(s)@),
        extends(old(s)@, final(s)@),
        linked(old(s)@) ==> linked(final(s)@),
        final(s)@ == school_duration_data_new_spec(
            old(s)@, user_id, school_duration_id, day, minute_start, minute_end, active, now,
        ).0,
        r == school_duration_data_new_spec(
            old(s)@, user_id, school_duration_id, day, minute_start, minute_end, active, now,
        ).1,
{
    let dur = match school_duration_service::get_by_school_duration_id(s, school_duration_id) {
        None => {
            return Err(HoursError::SchoolDurationNonexistent);
        },
        Some(x) => x,
    };
    if !school_data_service::is_active_by_school_id(s, dur.school_id) {
        return Err(HoursError::SchoolArchived);
    }
    if !adminship_service::is_admin(s, user_id, dur.school_id) {
        return Err(HoursError::ApiKeyUnauthorized);
    }
    Ok(school_duration_data_service::add(
        s,
        user_id,
        school_duration_id,
        day,
        minute_start,
        minute_end,
        active,
        now,
    ))
}

/// Outcome of `school_key_new`: the validity window must not be negative,
/// the school must exist and be active, and the caller must administer it.
/// The key definition and its first (active) data record are appended in
/// one step.  A colliding token is a storage fault.
pub open spec fn school_key_new_spec(
    m: StoreModel,
    user_id: u64,
    school_id: u64,
    school_key_key: u64,
    start_time: u64,
    end_time: u64,
    now: u64,
) -> (StoreModel, Result<SchoolKeyData, HoursError>) {
    if start_time > end_time {
        (m, Err(HoursError::NegativeDuration))
    } else if school_by_id(m, school_id) is None {
        (m, Err(HoursError::SchoolNonexistent))
    } else if !school_is_active(m, school_id) {
        (m, Err(HoursError::SchoolArchived))
    } else if !is_admin_spec(m, user_id, school_id) {
        (m, Err(HoursError::ApiKeyUnauthorized))
    } else if school_key_by_key(m, school_key_key) is Some {
        (m, Err(HoursError::InternalServerError))
    } else {
        let k = SchoolKey {
            school_key_key,
            creation_time: now,
            creator_user_id: user_id,
            school_id,
            start_time,
            end_time,
        };
        let kd = SchoolKeyData {
            school_key_data_id: m.school_key_datas.len() as u64,
            creation_time: now,
            creator_user_id: user_id,
            school_key_key,
            active: true,
        };
        (
            StoreModel {
                school_keys: m.school_keys.push(k),
                school_key_datas: m.school_key_datas.push(kd),
                ..m
            },
            Ok(kd),
        )
    }
}

/// Creates a single-use school adminship key with the given fresh token.
pub fn school_key_new(
    s: &mut Store,
    user_id: u64,
    school_id: u64,
    school_key_key: u64,
    start_time: u64,
    end_time: u64,
    now: u64,
) -> (r: Result<SchoolKeyData, HoursError>)
    requires
        wf(old(s)@),
    ensures
        wf(final(s)@),
        extends(old(s)@, final(s)@),
        linked(old(s)@) ==> linked(final(s)@),
        final(s)@ == school_key_new_spec(
            old(s)@, user_id, school_id, school_key_key, start_time, end_time, now,
        ).0,
        r == school_key_new_spec(
            old(s)@, user_id, school_id, school_key_key, start_time, end_time, now,
        ).1,
{
    if start_time > end_time {
        return Err(HoursError::NegativeDuration);
    }
    if school_service::get_by_school_id(s, school_id).is_none() {
        return Err(HoursError::SchoolNonexistent);
    }
    if !school_data_service::is_active_by_school_id(s, school_id) {
        return Err(HoursError::SchoolArchived);
    }
    if !adminship_service::is_admin(s, user_id, school_id) {
        return Err(HoursError::ApiKeyUnauthorized);
    }
    match school_key_service::add(
        s,
        school_key_key,
        user_id,
        school_id,
        start_time,
        end_time,
        now,
    ) {
        Err(e) => Err(e),
        Ok(key) => {
            let kd = school_key_data_service::add(s, user_id, key.school_key_key, true, now);
            proof {
                assert(s@ =~= school_key_new_spec(
                    old(s)@, user_id, school_id, school_key_key, start_time, end_time, now,
                ).0);
            }
            Ok(kd)
        },
    }
}

/// Outcome of `school_key_data_new`: the key and its school must exist,
/// the school must be active, and the caller must administer it.
pub open spec fn school_key_data_new_spec(
    m: StoreModel,
    user_id: u64,
    school_key_key: u64,
    active: bool,
    now: u64,
) -> (StoreModel, Result<SchoolKeyData, HoursError>) {
    match school_key_by_key(m, school_key_key) {
        None => (m, Err(HoursError::SchoolKeyNonexistent)),
        Some(key) => if school_by_id(m, key.school_id) is None {
            (m, Err(HoursError::SchoolNonexistent))
        } else if !school_is_active(m, key.school_id) {
            (m, Err(HoursError::SchoolArchived))
        } else if !is_admin_spec(m, user_id, key.school_id) {
            (m, Err(HoursError::ApiKeyUnauthorized))
        } else {
            let kd = SchoolKeyData {
                school_key_data_id: m.school_key_datas.len() as u64,
                creation_time: now,
                creator_user_id: user_id,
                school_key_key,
                active,
            };
            (StoreModel { school_key_datas: m.school_key_datas.push(kd), ..m }, Ok(kd))
        },
    }
}

/// Appends a new active flag for a school key.
pub fn school_key_data_new(
    s: &mut Store,
    user_id: u64,
    school_key_key: u64,
    active: bool,
    now: u64,
) -> (r: Result<SchoolKeyData, HoursError>)
    requires
        wf(old(s)@),
    ensures
        wf(final(s)@),
        extends(old(s)@, final(s)@),
        linked(old(s)@) ==> linked(final(s)@),
        final(s)@ == school_key_data_new_spec(old(s)@, user_id, school_key_key, active, now).0,
        r == school_key_data_new_spec(old(s)@, user_id, school_key_key, active, now).1,
{
    let key = match school_key_service::get_by_school_key_key(s, school_key_key) {
        None => {
            return Err(HoursError::SchoolKeyNonexistent);
        },
        Some(x) => x,
    };
    if school_service::get_by_school_id(s, key.school_id).is_none() {
        return Err(HoursError::SchoolNonexistent);
    }
    if !school_data_service::is_active_by_school_id(s, key.school_id) {
        return Err(HoursError::SchoolArchived);
    }
    if !adminship_service::is_admin(s, user_id, key.school_id) {
        return Err(HoursError::ApiKeyUnauthorized);
    }
    Ok(school_key_data_service::add(s, user_id, school_key_key, active, now))
}

/// Outcome of `adminship_new_key` — school key redemption.  The key must
/// exist, `now` must lie within `[start_time, end_time]`, the school must
/// be active, and the key must never have been used (school keys are
/// single-use).  On success the caller becomes the head admin, and the
/// appended record cites the token, which spends the key's one use.
pub open spec fn adminship_new_key_spec(
    m: StoreModel,
    user_id: u64,
    school_key_key: u64,
    now: u64,
) -> (StoreModel, Result<Adminship, HoursError>) {
    match school_key_by_key(m, school_key_key) {
        None => (m, Err(HoursError::SchoolKeyNonexistent)),
        Some(key) => if now < key.start_time || now > key.end_time {
            (m, Err(HoursError::SchoolKeyExpired))
        } else if !school_is_active(m, key.school_id) {
            (m, Err(HoursError::SchoolArchived))
        } else if school_key_uses(m, school_key_key) >= 1 {
            (m, Err(HoursError::SchoolKeyUsed))
        } else {
            let adm = Adminship {
                adminship_id: m.adminships.len() as u64,
                creation_time: now,
                creator_user_id: user_id,
                user_id,
                school_id: key.school_id,
                adminship_kind: AdminshipKind::Admin,
                school_key_key: Some(school_key_key),
            };
            (StoreModel { adminships: m.adminships.push(adm), ..m }, Ok(adm))
        },
    }
}

/// Redeems a school key: the caller becomes an admin of the key's school.
pub fn adminship_new_key(s: &mut Store, user_id: u64, school_key_key: u64, now: u64) -> (r: Result<
    Adminship,
    HoursError,
>)
    requires
        wf(old(s)@),
    ensures
        wf(final(s)@),
        extends(old(s)@, final(s)@),
        linked(old(s)@) ==> linked(final(s)@),
        final(s)@ == adminship_new_key_spec(old(s)@, user_id, school_key_key, now).0,
        r == adminship_new_key_spec(old(s)@, user_id, school_key_key, now).1,
{
    let key = match school_key_service::get_by_school_key_key(s, school_key_key) {
        None => {
            return Err(HoursError::SchoolKeyNonexistent);
        },
        Some(x) => x,
    };
    if now < key.start_time || now > key.end_time {
        return Err(HoursError::SchoolKeyExpired);
    }
    if !school_data_service::is_active_by_school_id(s, key.school_id) {
        return Err(HoursError::SchoolArchived);
    }
    if adminship_service::count_school_key_uses(s, school_key_key) >= 1 {
        return Err(HoursError::SchoolKeyUsed);
    }
    Ok(adminship_service::add(
        s,
        user_id,
        user_id,
        key.school_id,
        AdminshipKind::Admin,
        Some(school_key_key),
        now,
    ))
}

/// Outcome of `adminship_new_cancel`.  The school must exist and be
/// active, the caller must currently administer it, and the cancellation
/// must not leave the school without an admin: with at most one current
/// admin it is rejected.  On success a `Cancel` record becomes the
/// target's head.
pub open spec fn adminship_new_cancel_spec(
    m: StoreModel,
    user_id: u64,
    target_user_id: u64,
    school_id: u64,
    now: u64,
) -> (StoreModel, Result<Adminship, HoursError>) {
    if school_by_id(m, school_id) is None {
        (m, Err(HoursError::SchoolNonexistent))
    } else if !school_is_active(m, school_id) {
        (m, Err(HoursError::SchoolArchived))
    } else if !is_admin_spec(m, user_id, school_id) {
        (m, Err(HoursError::ApiKeyUnauthorized))
    } else if admin_count(m.adminships, school_id, m.adminships.len() as int) <= 1 {
        (m, Err(HoursError::AdminshipCannotLeaveEmpty))
    } else {
        let adm = Adminship {
            adminship_id: m.adminships.len() as u64,
            creation_time: now,
            creator_user_id: user_id,
            user_id: target_user_id,
            school_id,
            adminship_kind: AdminshipKind::Cancel,
            school_key_key: None,
        };
        (StoreModel { adminships: m.adminships.push(adm), ..m }, Ok(adm))
    }
}

/// Cancels the target user's adminship at a school.  The target's
/// existence is the external user directory's business and is checked by
/// the caller beforehand.
pub fn adminship_new_cancel(
    s: &mut Store,
    user_id: u64,
    target_user_id: u64,
    school_id: u64,
    now: u64,
) -> (r: Result<Adminship, HoursError>)
    requires
        wf(old(s)@),
    ensures
        wf(final(s)@),
        extends(old(s)@, final(s)@),
        linked(old(s)@) ==> linked(final(s)@),
        final(s)@ == adminship_new_cancel_spec(
            old(s)@, user_id, target_user_id, school_id, now,
        ).0,
        r == adminship_new_cancel_spec(old(s)@, user_id, target_user_id, school_id, now).1,
{
    if school_service::get_by_school_id(s, school_id).is_none() {
        return Err(HoursError::SchoolNonexistent);
    }
    if !school_data_service::is_active_by_school_id(s, school_id) {
        return Err(HoursError::SchoolArchived);
    }
    if !adminship_service::is_admin(s, user_id, school_id) {
        return Err(HoursError::ApiKeyUnauthorized);
    }
    if adminship_service::count_admins(s, school_id) <= 1 {
        return Err(HoursError::AdminshipCannotLeaveEmpty);
    }
    Ok(adminship_service::add(
        s,
        user_id,
        target_user_id,
        school_id,
        AdminshipKind::Cancel,
        None,
        now,
    ))
}

/// Outcome of `location_new`: the school must exist and be active, and the
/// caller must administer it.  The location and its first data record are
/// appended in one step.
pub open spec fn location_new_spec(
    m: StoreModel,
    user_id: u64,
    school_id: u64,
    name: String,
    address: String,
    phone: String,
    now: u64,
) -> (StoreModel, Result<LocationData, HoursError>) {
    if school_by_id(m, school_id) is None {
        (m, Err(HoursError::SchoolNonexistent))
    } else if !is_admin_spec(m, user_id, school_id) {
        (m, Err(HoursError::ApiKeyUnauthorized))
    } else if !school_is_active(m, school_id) {
        (m, Err(HoursError::SchoolArchived))
    } else {
        let loc = Location {
            location_id: m.locations.len() as u64,
            creation_time: now,
            creator_user_id: user_id,
            school_id,
        };
        let ld = LocationData {
            location_data_id: m.location_datas.len() as u64,
            creation_time: now,
            creator_user_id: user_id,
            location_id: loc.location_id,
            name,
            address,
            phone,
            active: true,
        };
        (
            StoreModel {
                locations: m.locations.push(loc),
                location_datas: m.location_datas.push(ld),
                ..m
            },
            Ok(ld),
        )
    }
}

/// Creates a location in a school.
pub fn location_new(
    s: &mut Store,
    user_id: u64,
    school_id: u64,
    name: String,
    address: String,
    phone: String,
    now: u64,
) -> (r: Result<LocationData, HoursError>)
    requires
        wf(old(s)@),
    ensures
        wf(final(s)@),
        extends(old(s)@, final(s)@),
        linked(old(s)@) ==> linked(final(s)@),
        final(s)@ == location_new_spec(
            old(s)@, user_id, school_id, name, address, phone, now,
        ).0,
        r == location_new_spec(old(s)@, user_id, school_id, name, address, phone, now).1,
{
    if school_service::get_by_school_id(s, school_id).is_none() {
        return Err(HoursError::SchoolNonexistent);
    }
    if !adminship_service::is_admin(s, user_id, school_id) {
        return Err(HoursError::ApiKeyUnauthorized);
    }
    if !school_data_service::is_active_by_school_id(s, school_id) {
        return Err(HoursError::SchoolArchived);
    }
    let location = location_service::add(s, user_id, school_id, now);
    let location_data = location_data_service::add(
        s,
        user_id,
        location.location_id,
        name,
        address,
        phone,
        true,
        now,
    );
    proof {
        assert(s@ =~= location_new_spec(
            old(s)@, user_id, school_id, name, address, phone, now,
        ).0);
    }
    Ok(location_data)
}

/// Outcome of `location_data_new`: the location must exist, and the caller
/// must either instruct an active course at the location or administer the
/// location's school.
pub open spec fn location_data_new_spec(
    m: StoreModel,
    user_id: u64,
    location_id: u64,
    name: String,
    address: String,
    phone: String,
    active: bool,
    now: u64,
) -> (StoreModel, Result<LocationData, HoursError>) {
    match location_by_id(m, location_id) {
        None => (m, Err(HoursError::LocationNonexistent)),
        Some(loc) => if !(is_instructor_at_spec(m, user_id, location_id)
            || is_admin_spec(m, user_id, loc.school_id)) {
            (m, Err(HoursError::ApiKeyUnauthorized))
        } else {
            let ld = LocationData {
                location_data_id: m.location_datas.len() as u64,
                creation_time: now,
                creator_user_id: user_id,
                location_id,
                name,
                address,
                phone,
                active,
            };
            (StoreModel { location_datas: m.location_datas.push(ld), ..m }, Ok(ld))
        },
    }
}

/// Appends new descriptive data (or an archival flag) for a location.
pub fn location_data_new(
    s: &mut Store,
    user_id: u64,
    location_id: u64,
    name: String,
    address: String,
    phone: String,
    active: bool,
    now: u64,
) -> (r: Result<LocationData, HoursError>)
    requires
        wf(old(s)@),
    ensures
        wf(final(s)@),
        extends(old(s)@, final(s)@),
        linked(old(s)@) ==> linked(final(s)@),
        final(s)@ == location_data_new_spec(
            old(s)@, user_id, location_id, name, address, phone, active, now,
        ).0,
        r == location_data_new_spec(
            old(s)@, user_id, location_id, name, address, phone, active, now,
        ).1,
{
    let location = match location_service::get_by_location_id(s, location_id) {
        None => {
            return Err(HoursError::LocationNonexistent);
        },
        Some(x) => x,
    };
    let instructor_at = course_membership_service::is_instructor_at(s, user_id, location_id);
    let admin_at = adminship_service::is_admin(s, user_id, location.school_id);
    if !(instructor_at || admin_at) {
        return Err(HoursError::ApiKeyUnauthorized);
    }
    Ok(location_data_service::add(s, user_id, location_id, name, address, phone, active, now))
}

/// Outcome of `course_new`: the school must exist and be active, the
/// caller must administer it, and the course's location must exist and be
/// active.  The course, its first data record, and the creator's head
/// instructor membership are appended in one step, so a new course is
/// never without an instructor.
pub open spec fn course_new_spec(
    m: StoreModel,
    user_id: u64,
    school_id: u64,
    location_id: u64,
    name: String,
    description: String,
    homeroom: bool,
    now: u64,
) -> (StoreModel, Result<CourseData, HoursError>) {
    if school_by_id(m, school_id) is None {
        (m, Err(HoursError::SchoolNonexistent))
    } else if !is_admin_spec(m, user_id, school_id) {
        (m, Err(HoursError::ApiKeyUnauthorized))
    } else if !school_is_active(m, school_id) {
        (m, Err(HoursError::SchoolArchived))
    } else if location_by_id(m, location_id) is None {
        (m, Err(HoursError::LocationNonexistent))
    } else if !location_is_active(m, location_id) {
        (m, Err(HoursError::LocationArchived))
    } else {
        let course = Course {
            course_id: m.courses.len() as u64,
            creation_time: now,
            creator_user_id: user_id,
            school_id,
        };
        let cd = CourseData {
            course_data_id: m.course_datas.len() as u64,
            creation_time: now,
            creator_user_id: user_id,
            course_id: course.course_id,
            location_id,
            name,
            description,
            homeroom,
            active: true,
        };
        let cm = CourseMembership {
            course_membership_id: m.course_memberships.len() as u64,
            creation_time: now,
            creator_user_id: user_id,
            user_id,
            course_id: course.course_id,
            course_membership_kind: CourseMembershipKind::Instructor,
            course_key_key: None,
        };
        (
            StoreModel {
                courses: m.courses.push(course),
                course_datas: m.course_datas.push(cd),
                course_memberships: m.course_memberships.push(cm),
                ..m
            },
            Ok(cd),
        )
    }
}

/// Creates a course; the creator becomes its first (head) instructor.
pub fn course_new(
    s: &mut Store,
    user_id: u64,
    school_id: u64,
    location_id: u64,
    name: String,
    description: String,
    homeroom: bool,
    now: u64,
) -> (r: Result<CourseData, HoursError>)
    requires
        wf(old(s)@),
    ensures
        wf(final(s)@),
        extends(old(s)@, final(s)@),
        linked(old(s)@) ==> linked(final(s)@),
        final(s)@ == course_new_spec(
            old(s)@, user_id, school_id, location_id, name, description, homeroom, now,
        ).0,
        r == course_new_spec(
            old(s)@, user_id, school_id, location_id, name, description, homeroom, now,
        ).1,
{
    if school_service::get_by_school_id(s, school_id).is_none() {
        return Err(HoursError::SchoolNonexistent);
    }
    if !adminship_service::is_admin(s, user_id, school_id) {
        return Err(HoursError::ApiKeyUnauthorized);
    }
    if !school_data_service::is_active_by_school_id(s, school_id) {
        return Err(HoursError::SchoolArchived);
    }
    if location_service::get_by_location_id(s, location_id).is_none() {
        return Err(HoursError::LocationNonexistent);
    }
    if !location_data_service::is_active_by_location_id(s, location_id) {
        return Err(HoursError::LocationArchived);
    }
    let course = course_service::add(s, user_id, school_id, now);
    let course_data = course_data_service::add(
        s,
        user_id,
        course.course_id,
        location_id,
        name,
        description,
        homeroom,
        true,
        now,
    );
    let _membership = course_membership_service::add(
        s,
        user_id,
        user_id,
        course.course_id,
        CourseMembershipKind::Instructor,
        None,
        now,
    );
    proof {
        assert(s@ =~= course_new_spec(
            old(s)@, user_id, school_id, location_id, name, description, homeroom, now,
        ).0);
    }
    Ok(course_data)
}

/// Outcome of `course_data_new`: the course must exist, the caller must
/// currently instruct it, and the new location must exist and be active.
pub open spec fn course_data_new_spec(
    m: StoreModel,
    user_id: u64,
    course_id: u64,
    location_id: u64,
    name: String,
    description: String,
    homeroom: bool,
    active: bool,
    now: u64,
) -> (StoreModel, Result<CourseData, HoursError>) {
    if course_by_id(m, course_id) is None {
        (m, Err(HoursError::CourseNonexistent))
    } else if !is_instructor_spec(m, user_id, course_id) {
        (m, Err(HoursError::ApiKeyUnauthorized))
    } else if location_by_id(m, location_id) is None {
        (m, Err(HoursError::LocationNonexistent))
    } else if !location_is_active(m, location_id) {
        (m, Err(HoursError::LocationArchived))
    } else {
        let cd = CourseData {
            course_data_id: m.course_datas.len() as u64,
            creation_time: now,
            creator_user_id: user_id,
            course_id,
            location_id,
            name,
            description,
            homeroom,
            active,
        };
        (StoreModel { course_datas: m.course_datas.push(cd), ..m }, Ok(cd))
    }
}

/// Appends new descriptive data (or an archival flag) for a course.
pub fn course_data_new(
    s: &mut Store,
    user_id: u64,
    course_id: u64,
    location_id: u64,
    name: String,
    description: String,
    homeroom: bool,
    active: bool,
    now: u64,
) -> (r: Result<CourseData, HoursError>)
    requires
        wf(old(s)@),
    ensures
        wf(final(s)@),
        extends(old(s)@, final(s)@),
        linked(old(s)@) ==> linked(final(s)@),
        final(s)@ == course_data_new_spec(
            old(s)@, user_id, course_id, location_id, name, description, homeroom, active, now,
        ).0,
        r == course_data_new_spec(
            old(s)@, user_id, course_id, location_id, name, description, homeroom, active, now,
        ).1,
{
    if course_service::get_by_course_id(s, course_id).is_none() {
        return Err(HoursError::CourseNonexistent);
    }
    if !course_membership_service::is_instructor(s, user_id, course_id) {
        return Err(HoursError::ApiKeyUnauthorized);
    }
    if location_service::get_by_location_id(s, location_id).is_none() {
        return Err(HoursError::LocationNonexistent);
    }
    if !location_data_service::is_active_by_location_id(s, location_id) {
        return Err(HoursError::LocationArchived);
    }
    Ok(course_data_service::add(
        s,
        user_id,
        course_id,
        location_id,
        name,
        description,
        homeroom,
        active,
        now,
    ))
}

/// Outcome of `course_key_new`: the validity window must not be negative,
/// the course must exist and be active, and the caller must instruct it.
/// The key definition and its first (active) data record are appended in
/// one step.  A colliding token is a storage fault.
pub open spec fn course_key_new_spec(
    m: StoreModel,
    user_id: u64,
    course_id: u64,
    course_key_key: u64,
    max_uses: u64,
    course_membership_kind: CourseMembershipKind,
    start_time: u64,
    end_time: u64,
    now: u64,
) -> (StoreModel, Result<CourseKeyData, HoursError>) {
    if start_time > end_time {
        (m, Err(HoursError::NegativeDuration))
    } else if course_by_id(m, course_id) is None {
        (m, Err(HoursError::CourseNonexistent))
    } else if !course_is_active(m, course_id) {
        (m, Err(HoursError::CourseArchived))
    } else if !is_instructor_spec(m, user_id, course_id) {
        (m, Err(HoursError::ApiKeyUnauthorized))
    } else if course_key_by_key(m, course_key_key) is Some {
        (m, Err(HoursError::InternalServerError))
    } else {
        let k = CourseKey {
            course_key_key,
            creation_time: now,
            creator_user_id: user_id,
            course_id,
            max_uses,
            course_membership_kind,
            start_time,
            end_time,
        };
        let kd = CourseKeyData {
            course_key_data_id: m.course_key_datas.len() as u64,
            creation_time: now,
            creator_user_id: user_id,
            course_key_key,
            active: true,
        };
        (
            StoreModel {
                course_keys: m.course_keys.push(k),
                course_key_datas: m.course_key_datas.push(kd),
                ..m
            },
            Ok(kd),
        )
    }
}

/// Creates a use-capped course enrollment key with the given fresh token.
pub fn course_key_new(
    s: &mut Store,
    user_id: u64,
    course_id: u64,
    course_key_key: u64,
    max_uses: u64,
    course_membership_kind: CourseMembershipKind,
    start_time: u64,
    end_time: u64,
    now: u64,
) -> (r: Result<CourseKeyData, HoursError>)
    requires
        wf(old(s)@),
    ensures
        wf(final(s)@),
        extends(old(s)@, final(s)@),
        linked(old(s)@) ==> linked(final(s)@),
        final(s)@ == course_key_new_spec(
            old(s)@, user_id, course_id, course_key_key, max_uses, course_membership_kind,
            start_time, end_time, now,
        ).0,
        r == course_key_new_spec(
            old(s)@, user_id, course_id, course_key_key, max_uses, course_membership_kind,
            start_time, end_time, now,
        ).1,
{
    if start_time > end_time {
        return Err(HoursError::NegativeDuration);
    }
    if course_service::get_by_course_id(s, course_id).is_none() {
        return Err(HoursError::CourseNonexistent);
    }
    if !course_data_service::is_active_by_course_id(s, course_id) {
        return Err(HoursError::CourseArchived);
    }
    if !course_membership_service::is_instructor(s, user_id, course_id) {
        return Err(HoursError::ApiKeyUnauthorized);
    }
    match course_key_service::add(
        s,
        course_key_key,
        user_id,
        course_id,
        max_uses,
        course_membership_kind,
        start_time,
        end_time,
        now,
    ) {
        Err(e) => Err(e),
        Ok(key) => {
            let kd = course_key_data_service::add(s, user_id, key.course_key_key, true, now);
            proof {
                assert(s@ =~= course_key_new_spec(
                    old(s)@, user_id, course_id, course_key_key, max_uses,
                    course_membership_kind, start_time, end_time, now,
                ).0);
            }
            Ok(kd)
        },
    }
}

/// Outcome of `course_key_data_new`: the key and its course must exist,
/// the course must be active, and the caller must instruct it.
pub open spec fn course_key_data_new_spec(
    m: StoreModel,
    user_id: u64,
    course_key_key: u64,
    active: bool,
    now: u64,
) -> (StoreModel, Result<CourseKeyData, HoursError>) {
    match course_key_by_key(m, course_key_key) {
        None => (m, Err(HoursError::CourseKeyNonexistent)),
        Some(key) => if course_by_id(m, key.course_id) is None {
            (m, Err(HoursError::CourseNonexistent))
        } else if !course_is_active(m, key.course_id) {
            (m, Err(HoursError::CourseArchived))
        } else if !is_instructor_spec(m, user_id, key.course_id) {
            (m, Err(HoursError::ApiKeyUnauthorized))
        } else {
            let kd = CourseKeyData {
                course_key_data_id: m.course_key_datas.len() as u64,
                creation_time: now,
                creator_user_id: user_id,
                course_key_key,
                active,
            };
            (StoreModel { course_key_datas: m.course_key_datas.push(kd), ..m }, Ok(kd))
        },
    }
}

/// Appends a new active flag for a course key.
pub fn course_key_data_new(
    s: &mut Store,
    user_id: u64,
    course_key_key: u64,
    active: bool,
    now: u64,
) -> (r: Result<CourseKeyData, HoursError>)
    requires
        wf(old(s)@),
    ensures
        wf(final(s)@),
        extends(old(s)@, final(s)@),
        linked(old(s)@) ==> linked(final(s)@),
        final(s)@ == course_key_data_new_spec(old(s)@, user_id, course_key_key, active, now).0,
        r == course_key_data_new_spec(old(s)@, user_id, course_key_key, active, now).1,
{
    let key = match course_key_service::get_by_course_key_key(s, course_key_key) {
        None => {
            return Err(HoursError::CourseKeyNonexistent);
        },
        Some(x) => x,
    };
    if course_service::get_by_course_id(s, key.course_id).is_none() {
        return Err(HoursError::CourseNonexistent);
    }
    if !course_data_service::is_active_by_course_id(s, key.course_id) {
        return Err(HoursError::CourseArchived);
    }
    if !course_membership_service::is_instructor(s, user_id, key.course_id) {
        return Err(HoursError::ApiKeyUnauthorized);
    }
    Ok(course_key_data_service::add(s, user_id, course_key_key, active, now))
}

/// Outcome of `course_membership_new_key` — course key redemption.  The
/// key must exist, `now` must lie within `[start_time, end_time]`, the
/// key's recorded uses must be below its cap, and the course must be
/// active.  On success the caller's head membership takes the kind granted
/// by the key, and the appended record cites the token, which spends one
/// use.
pub open spec fn course_membership_new_key_spec(
    m: StoreModel,
    user_id: u64,
    course_key_key: u64,
    now: u64,
) -> (StoreModel, Result<CourseMembership, HoursError>) {
    match course_key_by_key(m, course_key_key) {
        None => (m, Err(HoursError::CourseKeyNonexistent)),
        Some(key) => if now < key.start_time || now > key.end_time {
            (m, Err(HoursError::CourseKeyExpired))
        } else if course_key_uses(m, course_key_key) >= key.max_uses {
            (m, Err(HoursError::CourseKeyUsed))
        } else if !course_is_active(m, key.course_id) {
            (m, Err(HoursError::CourseArchived))
        } else {
            let cm = CourseMembership {
                course_membership_id: m.course_memberships.len() as u64,
                creation_time: now,
                creator_user_id: user_id,
                user_id,
                course_id: key.course_id,
                course_membership_kind: key.course_membership_kind,
                course_key_key: Some(course_key_key),
            };
            (StoreModel { course_memberships: m.course_memberships.push(cm), ..m }, Ok(cm))
        },
    }
}

/// Redeems a course key: the caller joins the key's course with the kind
/// the key grants.
pub fn course_membership_new_key(
    s: &mut Store,
    user_id: u64,
    course_key_key: u64,
    now: u64,
) -> (r: Result<CourseMembership, HoursError>)
    requires
        wf(old(s)@),
    ensures
        wf(final(s)@),
        extends(old(s)@, final(s)@),
        linked(old(s)@) ==> linked(final(s)@),
        final(s)@ == course_membership_new_key_spec(old(s)@, user_id, course_key_key, now).0,
        r == course_membership_new_key_spec(old(s)@, user_id, course_key_key, now).1,
{
    let key = match course_key_service::get_by_course_key_key(s, course_key_key) {
        None => {
            return Err(HoursError::CourseKeyNonexistent);
        },
        Some(x) => x,
    };
    if now < key.start_time || now > key.end_time {
        return Err(HoursError::CourseKeyExpired);
    }
    if course_membership_service::count_course_key_uses(s, course_key_key) >= key.max_uses {
        return Err(HoursError::CourseKeyUsed);
    }
    if !course_data_service::is_active_by_course_id(s, key.course_id) {
        return Err(HoursError::CourseArchived);
    }
    Ok(course_membership_service::add(
        s,
        user_id,
        user_id,
        key.course_id,
        key.course_membership_kind,
        Some(course_key_key),
        now,
    ))
}

/// Outcome of `course_membership_new_cancel`.  The course must exist and
/// be active; the caller must either cancel their own membership or
/// currently instruct the course; and an instructor's cancellation must
/// not leave the course without an instructor: with at most one current
/// instructor it is rejected.  On success a `Cancel` record becomes the
/// target's head.
pub open spec fn course_membership_new_cancel_spec(
    m: StoreModel,
    user_id: u64,
    target_user_id: u64,
    course_id: u64,
    now: u64,
) -> (StoreModel, Result<CourseMembership, HoursError>) {
    if course_by_id(m, course_id) is None {
        (m, Err(HoursError::CourseNonexistent))
    } else if !course_is_active(m, course_id) {
        (m, Err(HoursError::CourseArchived))
    } else if !(user_id == target_user_id || is_instructor_spec(m, user_id, course_id)) {
        (m, Err(HoursError::ApiKeyUnauthorized))
    } else if is_instructor_spec(m, user_id, course_id)
        && instructor_count(m.course_memberships, course_id, m.course_memberships.len() as int)
            <= 1 {
        (m, Err(HoursError::CourseMembershipCannotLeaveEmpty))
    } else {
        let cm = CourseMembership {
            course_membership_id: m.course_memberships.len() as u64,
            creation_time: now,
            creator_user_id: user_id,
            user_id: target_user_id,
            course_id,
            course_membership_kind: CourseMembershipKind::Cancel,
            course_key_key: None,
        };
        (StoreModel { course_memberships: m.course_memberships.push(cm), ..m }, Ok(cm))
    }
}

/// Cancels the target user's course membership.  The target's existence is
/// the external user directory's business and is checked by the caller
/// beforehand.
pub fn course_membership_new_cancel(
    s: &mut Store,
    user_id: u64,
    target_user_id: u64,
    course_id: u64,
    now: u64,
) -> (r: Result<CourseMembership, HoursError>)
    requires
        wf(old(s)@),
    ensures
        wf(final(s)@),
        extends(old(s)@, final(s)@),
        linked(old(s)@) ==> linked(final(s)@),
        final(s)@ == course_membership_new_cancel_spec(
            old(s)@, user_id, target_user_id, course_id, now,
        ).0,
        r == course_membership_new_cancel_spec(
            old(s)@, user_id, target_user_id, course_id, now,
        ).1,
{
    if course_service::get_by_course_id(s, course_id).is_none() {
        return Err(HoursError::CourseNonexistent);
    }
    if !course_data_service::is_active_by_course_id(s, course_id) {
        return Err(HoursError::CourseArchived);
    }
    let is_instructor = course_membership_service::is_instructor(s, user_id, course_id);
    let is_self_cancel = user_id == target_user_id;
    if !(is_self_cancel || is_instructor) {
        return Err(HoursError::ApiKeyUnauthorized);
    }
    if is_instructor {
        let num_instructors = course_membership_service::count_instructors(s, course_id);
        if num_instructors <= 1 {
            return Err(HoursError::CourseMembershipCannotLeaveEmpty);
        }
    }
    Ok(course_membership_service::add(
        s,
        user_id,
        target_user_id,
        course_id,
        CourseMembershipKind::Cancel,
        None,
        now,
    ))
}

/// Outcome of `session_request_new`: the window must not be negative, the
/// course must exist and be active, and the caller must currently be a
/// student of it.
pub open spec fn session_request_new_spec(
    m: StoreModel,
    user_id: u64,
    course_id: u64,
    message: String,
    start_time: u64,
    end_time: u64,
    now: u64,
) -> (StoreModel, Result<SessionRequest, HoursError>) {
    if start_time > end_time {
        (m, Err(HoursError::NegativeDuration))
    } else if course_by_id(m, course_id) is None {
        (m, Err(HoursError::CourseNonexistent))
    } else if !course_is_active(m, course_id) {
        (m, Err(HoursError::CourseArchived))
    } else if !is_student_spec(m, user_id, course_id) {
        (m, Err(HoursError::ApiKeyUnauthorized))
    } else {
        let req = SessionRequest {
            session_request_id: m.session_requests.len() as u64,
            creation_time: now,
            creator_user_id: user_id,
            course_id,
            message,
            start_time,
            end_time,
        };
        (StoreModel { session_requests: m.session_requests.push(req), ..m }, Ok(req))
    }
}

/// A student requests a session in a time window.
pub fn session_request_new(
    s: &mut Store,
    user_id: u64,
    course_id: u64,
    message: String,
    start_time: u64,
    end_time: u64,
    now: u64,
) -> (r: Result<SessionRequest, HoursError>)
    requires
        wf(old(s)@),
    ensures
        wf(final(s)@),
        extends(old(s)@, final(s)@),
        linked(old(s)@) ==> linked(final(s)@),
        final(s)@ == session_request_new_spec(
            old(s)@, user_id, course_id, message, start_time, end_time, now,
        ).0,
        r == session_request_new_spec(
            old(s)@, user_id, course_id, message, start_time, end_time, now,
        ).1,
{
    if start_time > end_time {
        return Err(HoursError::NegativeDuration);
    }
    if course_service::get_by_course_id(s, course_id).is_none() {
        return Err(HoursError::CourseNonexistent);
    }
    if !course_data_service::is_active_by_course_id(s, course_id) {
        return Err(HoursError::CourseArchived);
    }
    if !course_membership_service::is_student(s, user_id, course_id) {
        return Err(HoursError::ApiKeyUnauthorized);
    }
    Ok(session_request_service::add(s, user_id, course_id, message, start_time, end_time, now))
}

/// Outcome of `session_request_response_new` — the request → response →
/// commitment state machine's resolution step.  The request must exist and
/// be unresolved, and its course must be active.  A decline
/// (`session_id == None`) may come from the requester or an instructor; an
/// accept only from an instructor, the target session must exist and
/// belong to the request's course, and the requester's existing head
/// commitment for that session is reused — otherwise a fresh active
/// commitment is appended.  The appended response fixes `commitment_id`
/// forever.
pub open spec fn session_request_response_new_spec(
    m: StoreModel,
    user_id: u64,
    session_request_id: u64,
    message: String,
    session_id: Option<u64>,
    now: u64,
) -> (StoreModel, Result<SessionRequestResponse, HoursError>) {
    match session_request_by_id(m, session_request_id) {
        None => (m, Err(HoursError::SessionRequestNonexistent)),
        Some(req) => if response_by_request_id(m, session_request_id) is Some {
            (m, Err(HoursError::SessionRequestResponseExistent))
        } else if !course_is_active(m, req.course_id) {
            (m, Err(HoursError::CourseArchived))
        } else {
            let is_instr = is_instructor_spec(m, user_id, req.course_id);
            let is_creator = user_id == req.creator_user_id;
            match session_id {
                None => if !is_instr && !is_creator {
                    (m, Err(HoursError::ApiKeyUnauthorized))
                } else {
                    let x = SessionRequestResponse {
                        session_request_id,
                        creation_time: now,
                        creator_user_id: user_id,
                        message,
                        commitment_id: None,
                    };
                    (
                        StoreModel {
                            session_request_responses: m.session_request_responses.push(x),
                            ..m
                        },
                        Ok(x),
                    )
                },
                Some(sid) => if !is_instr {
                    (m, Err(HoursError::ApiKeyUnauthorized))
                } else {
                    match session_by_id(m, sid) {
                        None => (m, Err(HoursError::SessionNonexistent)),
                        Some(session) => if req.course_id != session.course_id {
                            (m, Err(HoursError::ApiKeyUnauthorized))
                        } else {
                            match commitment_head(m, req.creator_user_id, sid) {
                                Some(c) => {
                                    let x = SessionRequestResponse {
                                        session_request_id,
                                        creation_time: now,
                                        creator_user_id: user_id,
                                        message,
                                        commitment_id: Some(c.commitment_id),
                                    };
                                    (
                                        StoreModel {
                                            session_request_responses: m
                                                .session_request_responses
                                                .push(x),
                                            ..m
                                        },
                                        Ok(x),
                                    )
                                },
                                None => {
                                    let c = Commitment {
                                        commitment_id: m.commitments.len() as u64,
                                        creation_time: now,
                                        creator_user_id: user_id,
                                        attendee_user_id: req.creator_user_id,
                                        session_id: sid,
                                        active: true,
                                    };
                                    let x = SessionRequestResponse {
                                        session_request_id,
                                        creation_time: now,
                                        creator_user_id: user_id,
                                        message,
                                        commitment_id: Some(c.commitment_id),
                                    };
                                    (
                                        StoreModel {
                                            commitments: m.commitments.push(c),
                                            session_request_responses: m
                                                .session_request_responses
                                                .push(x),
                                            ..m
                                        },
                                        Ok(x),
                                    )
                                },
                            }
                        },
                    }
                },
            }
        },
    }
}

/// Resolves a session request: declines it, or accepts it into a session
/// with a (possibly reused) commitment.
pub fn session_request_response_new(
    s: &mut Store,
    user_id: u64,
    session_request_id: u64,
    message: String,
    session_id: Option<u64>,
    now: u64,
) -> (r: Result<SessionRequestResponse, HoursError>)
    requires
        wf(old(s)@),
    ensures
        wf(final(s)@),
        extends(old(s)@, final(s)@),
        linked(old(s)@) ==> linked(final(s)@),
        final(s)@ == session_request_response_new_spec(
            old(s)@, user_id, session_request_id, message, session_id, now,
        ).0,
        r == session_request_response_new_spec(
            old(s)@, user_id, session_request_id, message, session_id, now,
        ).1,
{
    let req = match session_request_service::get_by_session_request_id(s, session_request_id) {
        None => {
            return Err(HoursError::SessionRequestNonexistent);
        },
        Some(x) => x,
    };
    if session_request_response_service::get_by_session_request_id(
        s,
        session_request_id,
    ).is_some() {
        return Err(HoursError::SessionRequestResponseExistent);
    }
    if !course_data_service::is_active_by_course_id(s, req.course_id) {
        return Err(HoursError::CourseArchived);
    }
    let is_instr = course_membership_service::is_instructor(s, user_id, req.course_id);
    let is_creator = user_id == req.creator_user_id;
    let commitment_id = match session_id {
        None => {
            if !is_instr && !is_creator {
                return Err(HoursError::ApiKeyUnauthorized);
            }
            None
        },
        Some(sid) => {
            if !is_instr {
                return Err(HoursError::ApiKeyUnauthorized);
            }
            let session = match session_service::get_by_session_id(s, sid) {
                None => {
                    return Err(HoursError::SessionNonexistent);
                },
                Some(x) => x,
            };
            if req.course_id != session.course_id {
                return Err(HoursError::ApiKeyUnauthorized);
            }
            let commitment = match commitment_service::get_by_attendee_user_id_session_id(
                s,
                req.creator_user_id,
                sid,
            ) {
                Some(c) => c,
                None => commitment_service::add(s, user_id, req.creator_user_id, sid, true, now),
            };
            Some(commitment.commitment_id)
        },
    };
    match session_request_response_service::add(
        s,
        session_request_id,
        user_id,
        message,
        commitment_id,
        now,
    ) {
        Ok(x) => {
            proof {
                assert(s@ =~= session_request_response_new_spec(
                    old(s)@, user_id, session_request_id, message, session_id, now,
                ).0);
                if linked(old(s)@) {
                    match session_id {
                        Some(sid) => {
                            let creator = session_request_by_id(
                                old(s)@,
                                session_request_id,
                            )->Some_0.creator_user_id;
                            match commitment_head(old(s)@, creator, sid) {
                                Some(c) => {
                                    let pc = |y: Commitment| y.attendee_user_id == creator
                                        && y.session_id == sid;
                                    lemma_head_of_position(old(s)@.commitments, pc, c);
                                    let w = choose|w: int| #[trigger] head_at(
                                        old(s)@.commitments,
                                        pc,
                                        w,
                                    ) && old(s)@.commitments[w] == c;
                                    assert(c.commitment_id == w);
                                },
                                None => {},
                            }
                        },
                        None => {},
                    }
                }
            }
            Ok(x)
        },
        Err(_) => {
            proof {
                assert(false);
            }
            Err(HoursError::InternalServerError)
        },
    }
}

/// The commitment records appended for a list of attendees, with
/// consecutive identifiers starting at `base_len`.
pub open spec fn commitment_batch(
    base_len: int,
    creator_user_id: u64,
    session_id: u64,
    active: bool,
    attendees: Seq<u64>,
    now: u64,
) -> Seq<Commitment> {
    Seq::new(
        attendees.len(),
        |k: int| Commitment {
            commitment_id: (base_len + k) as u64,
            creation_time: now,
            creator_user_id,
            attendee_user_id: attendees[k],
            session_id,
            active,
        },
    )
}

/// Every listed attendee is currently a student of the course.
pub open spec fn all_students(m: StoreModel, attendees: Seq<u64>, course_id: u64) -> bool {
    forall|k: int| 0 <= k < attendees.len()
        ==> is_student_spec(m, #[trigger] attendees[k], course_id)
}

/// Outcome of `session_new`: the window must not be negative, the course
/// must exist, the caller must instruct it, the course must be active, and
/// every listed attendee must currently be a student of it.  The session,
/// its first data record, and one active commitment per attendee are
/// appended in one step; a non-student attendee aborts the whole
/// operation.
pub open spec fn session_new_spec(
    m: StoreModel,
    user_id: u64,
    course_id: u64,
    name: String,
    start_time: u64,
    end_time: u64,
    attendee_user_ids: Seq<u64>,
    now: u64,
) -> (StoreModel, Result<SessionData, HoursError>) {
    if start_time > end_time {
        (m, Err(HoursError::NegativeDuration))
    } else if course_by_id(m, course_id) is None {
        (m, Err(HoursError::CourseNonexistent))
    } else if !is_instructor_spec(m, user_id, course_id) {
        (m, Err(HoursError::ApiKeyUnauthorized))
    } else if !course_is_active(m, course_id) {
        (m, Err(HoursError::CourseArchived))
    } else if !all_students(m, attendee_user_ids, course_id) {
        (m, Err(HoursError::UserNonexistent))
    } else {
        let session = Session {
            session_id: m.sessions.len() as u64,
            creation_time: now,
            creator_user_id: user_id,
            course_id,
        };
        let sd = SessionData {
            session_data_id: m.session_datas.len() as u64,
            creation_time: now,
            creator_user_id: user_id,
            session_id: session.session_id,
            name,
            start_time,
            end_time,
            active: true,
        };
        (
            StoreModel {
                sessions: m.sessions.push(session),
                session_datas: m.session_datas.push(sd),
                commitments: m.commitments + commitment_batch(
                    m.commitments.len() as int,
                    user_id,
                    session.session_id,
                    true,
                    attendee_user_ids,
                    now,
                ),
                ..m
            },
            Ok(sd),
        )
    }
}

/// Creates a session with an initial set of committed student attendees.
#[verifier::loop_isolation(false)]
pub fn session_new(
    s: &mut Store,
    user_id: u64,
    course_id: u64,
    name: String,
    start_time: u64,
    end_time: u64,
    attendee_user_ids: Vec<u64>,
    now: u64,
) -> (r: Result<SessionData, HoursError>)
    requires
        wf(old(s)@),
    ensures
        wf(final(s)@),
        extends(old(s)@, final(s)@),
        linked(old(s)@) ==> linked(final(s)@),
        final(s)@ == session_new_spec(
            old(s)@, user_id, course_id, name, start_time, end_time, attendee_user_ids@, now,
        ).0,
        r == session_new_spec(
            old(s)@, user_id, course_id, name, start_time, end_time, attendee_user_ids@, now,
        ).1,
{
    if start_time > end_time {
        return Err(HoursError::NegativeDuration);
    }
    if course_service::get_by_course_id(s, course_id).is_none() {
        return Err(HoursError::CourseNonexistent);
    }
    if !course_membership_service::is_instructor(s, user_id, course_id) {
        return Err(HoursError::ApiKeyUnauthorized);
    }
    if !course_data_service::is_active_by_course_id(s, course_id) {
        return Err(HoursError::CourseArchived);
    }
    let mut k: usize = 0;
    while k < attendee_user_ids.len()
        invariant
            k <= attendee_user_ids.len(),
            forall|j: int| 0 <= j < k
                ==> is_student_spec(s@, #[trigger] attendee_user_ids@[j], course_id),
        decreases attendee_user_ids.len() - k,
    {
        if !course_membership_service::is_student(s, attendee_user_ids[k], course_id) {
            return Err(HoursError::UserNonexistent);
        }
        k = k + 1;
    }
    let session = session_service::add(s, user_id, course_id, now);
    let session_data = session_data_service::add(
        s,
        user_id,
        session.session_id,
        name,
        start_time,
        end_time,
        true,
        now,
    );
    let ghost batch = commitment_batch(
        old(s)@.commitments.len() as int,
        user_id,
        session.session_id,
        true,
        attendee_user_ids@,
        now,
    );
    proof {
        assert(s@.commitments =~= old(s)@.commitments + batch.take(0));
    }
    let mut k: usize = 0;
    while k < attendee_user_ids.len()
        invariant
            wf(s@),
            k <= attendee_user_ids.len(),
            s@ == (StoreModel {
                sessions: old(s)@.sessions.push(session),
                session_datas: old(s)@.session_datas.push(session_data),
                commitments: old(s)@.commitments + batch.take(k as int),
                ..old(s)@
            }),
        decreases attendee_user_ids.len() - k,
    {
        let _ = commitment_service::add(
            s,
            user_id,
            attendee_user_ids[k],
            session.session_id,
            true,
            now,
        );
        proof {
            assert(s@.commitments =~= old(s)@.commitments + batch.take(k as int + 1));
            assert(s@ =~= (StoreModel {
                sessions: old(s)@.sessions.push(session),
                session_datas: old(s)@.session_datas.push(session_data),
                commitments: old(s)@.commitments + batch.take(k as int + 1),
                ..old(s)@
            }));
        }
        k = k + 1;
    }
    proof {
        assert(batch.take(attendee_user_ids@.len() as int) =~= batch);
        assert(s@ =~= session_new_spec(
            old(s)@, user_id, course_id, name, start_time, end_time, attendee_user_ids@, now,
        ).0);
    }
    Ok(session_data)
}

/// Outcome of `session_data_new`: the window must not be negative, the
/// session must exist, and the caller must instruct its course.
pub open spec fn session_data_new_spec(
    m: StoreModel,
    user_id: u64,
    session_id: u64,
    name: String,
    start_time: u64,
    end_time: u64,
    active: bool,
    now: u64,
) -> (StoreModel, Result<SessionData, HoursError>) {
    if start_time > end_time {
        (m, Err(HoursError::NegativeDuration))
    } else {
        match session_by_id(m, session_id) {
            None => (m, Err(HoursError::SessionNonexistent)),
            Some(session) => if !is_instructor_spec(m, user_id, session.course_id) {
                (m, Err(HoursError::ApiKeyUnauthorized))
            } else {
                let sd = SessionData {
                    session_data_id: m.session_datas.len() as u64,
                    creation_time: now,
                    creator_user_id: user_id,
                    session_id,
                    name,
                    start_time,
                    end_time,
                    active,
                };
                (StoreModel { session_datas: m.session_datas.push(sd), ..m }, Ok(sd))
            },
        }
    }
}

/// Appends new descriptive data (or an archival flag) for a session.
pub fn session_data_new(
    s: &mut Store,
    user_id: u64,
    session_id: u64,
    name: String,
    start_time: u64,
    end_time: u64,
    active: bool,
    now: u64,
) -> (r: Result<SessionData, HoursError>)
    requires
        wf(old(s)@),
    ensures
        wf(final(s)@),
        extends(old(s)@, final(s)@),
        linked(old(s)@) ==> linked(final(s)@),
        final(s)@ == session_data_new_spec(
            old(s)@, user_id, session_id, name, start_time, end_time, active, now,
        ).0,
        r == session_data_new_spec(
            old(s)@, user_id, session_id, name, start_time, end_time, active, now,
        ).1,
{
    if start_time > end_time {
        return Err(HoursError::NegativeDuration);
    }
    let session = match session_service::get_by_session_id(s, session_id) {
        None => {
            return Err(HoursError::SessionNonexistent);
        },
        Some(x) => x,
    };
    if !course_membership_service::is_instructor(s, user_id, session.course_id) {
        return Err(HoursError::ApiKeyUnauthorized);
    }
    Ok(session_data_service::add(
        s,
        user_id,
        session_id,
        name,
        start_time,
        end_time,
        active,
        now,
    ))
}

/// Outcome of `commitment_new`: the session must exist, the caller must
/// instruct its course, the course must be active, and every listed
/// attendee must currently be a student of it.  One commitment per
/// attendee is appended; a non-student attendee aborts the whole
/// operation.
pub open spec fn commitment_new_spec(
    m: StoreModel,
    user_id: u64,
    session_id: u64,
    attendee_user_ids: Seq<u64>,
    active: bool,
    now: u64,
) -> (StoreModel, Result<Seq<Commitment>, HoursError>) {
    match session_by_id(m, session_id) {
        None => (m, Err(HoursError::SessionNonexistent)),
        Some(session) => if !is_instructor_spec(m, user_id, session.course_id) {
            (m, Err(HoursError::ApiKeyUnauthorized))
        } else if !course_is_active(m, session.course_id) {
            (m, Err(HoursError::CourseArchived))
        } else if !all_students(m, attendee_user_ids, session.course_id) {
            (m, Err(HoursError::UserNonexistent))
        } else {
            let batch = commitment_batch(
                m.commitments.len() as int,
                user_id,
                session_id,
                active,
                attendee_user_ids,
                now,
            );
            (StoreModel { commitments: m.commitments + batch, ..m }, Ok(batch))
        },
    }
}

/// Commits a list of students to a session, returning the appended
/// commitment records.
#[verifier::loop_isolation(false)]
pub fn commitment_new(
    s: &mut Store,
    user_id: u64,
    session_id: u64,
    attendee_user_ids: Vec<u64>,
    active: bool,
    now: u64,
) -> (r: Result<Vec<Commitment>, HoursError>)
    requires
        wf(old(s)@),
    ensures
        wf(final(s)@),
        extends(old(s)@, final(s)@),
        linked(old(s)@) ==> linked(final(s)@),
        final(s)@ == commitment_new_spec(
            old(s)@, user_id, session_id, attendee_user_ids@, active, now,
        ).0,
        match r {
            Ok(v) => commitment_new_spec(
                old(s)@, user_id, session_id, attendee_user_ids@, active, now,
            ).1 == Ok::<Seq<Commitment>, HoursError>(v@),
            Err(e) => commitment_new_spec(
                old(s)@, user_id, session_id, attendee_user_ids@, active, now,
            ).1 == Err::<Seq<Commitment>, HoursError>(e),
        },
{
    let session = match session_service::get_by_session_id(s, session_id) {
        None => {
            return Err(HoursError::SessionNonexistent);
        },
        Some(x) => x,
    };
    if !course_membership_service::is_instructor(s, user_id, session.course_id) {
        return Err(HoursError::ApiKeyUnauthorized);
    }
    if !course_data_service::is_active_by_course_id(s, session.course_id) {
        return Err(HoursError::CourseArchived);
    }
    let mut k: usize = 0;
    while k < attendee_user_ids.len()
        invariant
            k <= attendee_user_ids.len(),
            forall|j: int| 0 <= j < k
                ==> is_student_spec(s@, #[trigger] attendee_user_ids@[j], session.course_id),
        decreases attendee_user_ids.len() - k,
    {
        if !course_membership_service::is_student(s, attendee_user_ids[k], session.course_id) {
            return Err(HoursError::UserNonexistent);
        }
        k = k + 1;
    }
    let ghost batch = commitment_batch(
        old(s)@.commitments.len() as int,
        user_id,
        session_id,
        active,
        attendee_user_ids@,
        now,
    );
    let mut commitments_ret: Vec<Commitment> = Vec::new();
    proof {
        assert(s@.commitments =~= old(s)@.commitments + batch.take(0));
        assert(commitments_ret@ =~= batch.take(0));
    }
    let mut k: usize = 0;
    while k < attendee_user_ids.len()
        invariant
            wf(s@),
            k <= attendee_user_ids.len(),
            commitments_ret@ == batch.take(k as int),
            s@ == (StoreModel {
                commitments: old(s)@.commitments + batch.take(k as int),
                ..old(s)@
            }),
        decreases attendee_user_ids.len() - k,
    {
        let c = commitment_service::add(
            s,
            user_id,
            attendee_user_ids[k],
            session_id,
            active,
            now,
        );
        commitments_ret.push(c);
        proof {
            assert(commitments_ret@ =~= batch.take(k as int + 1));
            assert(s@.commitments =~= old(s)@.commitments + batch.take(k as int + 1));
            assert(s@ =~= (StoreModel {
                commitments: old(s)@.commitments + batch.take(k as int + 1),
                ..old(s)@
            }));
        }
        k = k + 1;
    }
    proof {
        assert(batch.take(attendee_user_ids@.len() as int) =~= batch);
        assert(s@ =~= commitment_new_spec(
            old(s)@, user_id, session_id, attendee_user_ids@, active, now,
        ).0);
    }
    Ok(commitments_ret)
}

/// Outcome of `encounter_new`: the location must exist and be active, and
/// the caller must instruct an active course at it.  The appended
/// observation is marked manual.
pub open spec fn encounter_new_spec(
    m: StoreModel,
    user_id: u64,
    location_id: u64,
    attendee_user_id: u64,
    now: u64,
) -> (StoreModel, Result<Encounter, HoursError>) {
    if location_by_id(m, location_id) is None {
        (m, Err(HoursError::LocationNonexistent))
    } else if !location_is_active(m, location_id) {
        (m, Err(HoursError::LocationArchived))
    } else if !is_instructor_at_spec(m, user_id, location_id) {
        (m, Err(HoursError::ApiKeyUnauthorized))
    } else {
        let e = Encounter {
            encounter_id: m.encounters.len() as u64,
            creation_time: now,
            creator_user_id: user_id,
            location_id,
            attendee_user_id,
            encounter_kind: EncounterKind::Manual,
        };
        (StoreModel { encounters: m.encounters.push(e), ..m }, Ok(e))
    }
}

/// Records a manual physical-presence observation at a location.
pub fn encounter_new(
    s: &mut Store,
    user_id: u64,
    location_id: u64,
    attendee_user_id: u64,
    now: u64,
) -> (r: Result<Encounter, HoursError>)
    requires
        wf(old(s)@),
    ensures
        wf(final(s)@),
        extends(old(s)@, final(s)@),
        linked(old(s)@) ==> linked(final(s)@),
        final(s)@ == encounter_new_spec(old(s)@, user_id, location_id, attendee_user_id, now).0,
        r == encounter_new_spec(old(s)@, user_id, location_id, attendee_user_id, now).1,
{
    if location_service::get_by_location_id(s, location_id).is_none() {
        return Err(HoursError::LocationNonexistent);
    }
    if !location_data_service::is_active_by_location_id(s, location_id) {
        return Err(HoursError::LocationArchived);
    }
    if !course_membership_service::is_instructor_at(s, user_id, location_id) {
        return Err(HoursError::ApiKeyUnauthorized);
    }
    Ok(encounter_service::add(
        s,
        user_id,
        location_id,
        attendee_user_id,
        EncounterKind::Manual,
        now,
    ))
}

/// One endpoint of a stay, resolved from an optional encounter reference
/// and an optional explicit timestamp: exactly one must be given, a
/// referenced encounter must exist and match the stay's location and
/// attendee, and the endpoint's effective time is the encounter's creation
/// time or the explicit timestamp.
pub open spec fn stay_bound_spec(
    m: StoreModel,
    location_id: u64,
    attendee_user_id: u64,
    encounter_id: Option<u64>,
    time: Option<u64>,
) -> Result<(StayBound, u64), HoursError> {
    match (encounter_id, time) {
        (Option::None, Option::None) => Err(HoursError::StayProvidedNoTime),
        (Option::Some(_), Option::Some(_)) => Err(HoursError::StayProvidedDoubleTime),
        (Option::None, Option::Some(t)) => Ok((StayBound::AtTime(t), t)),
        (Option::Some(eid), Option::None) => match encounter_by_id(m, eid) {
            None => Err(HoursError::EncounterNonexistent),
            Some(e) => if e.location_id != location_id {
                Err(HoursError::StayEncounterWrongLocation)
            } else if e.attendee_user_id != attendee_user_id {
                Err(HoursError::StayEncounterWrongUser)
            } else {
                Ok((StayBound::ByEncounter(eid), e.creation_time))
            },
        },
    }
}

/// Resolves one stay endpoint against the store.
fn resolve_stay_bound(
    s: &Store,
    location_id: u64,
    attendee_user_id: u64,
    encounter_id: Option<u64>,
    time: Option<u64>,
) -> (r: Result<(StayBound, u64), HoursError>)
    requires
        wf(s@),
    ensures
        r == stay_bound_spec(s@, location_id, attendee_user_id, encounter_id, time),
{
    match (encounter_id, time) {
        (None, None) => Err(HoursError::StayProvidedNoTime),
        (Some(_), Some(_)) => Err(HoursError::StayProvidedDoubleTime),
        (None, Some(t)) => Ok((StayBound::AtTime(t), t)),
        (Some(eid), None) => {
            let e = match encounter_service::get_by_encounter_id(s, eid) {
                None => {
                    return Err(HoursError::EncounterNonexistent);
                },
                Some(x) => x,
            };
            if e.location_id != location_id {
                Err(HoursError::StayEncounterWrongLocation)
            } else if e.attendee_user_id != attendee_user_id {
                Err(HoursError::StayEncounterWrongUser)
            } else {
                Ok((StayBound::ByEncounter(eid), e.creation_time))
            }
        },
    }
}

/// Outcome of `stay_new`: the location must exist, both endpoints must
/// resolve, the interval must not be negative, and the caller must
/// instruct an active course at the location.  The stay and its first
/// (active) data record are appended in one step.  The attendee's
/// existence is the external user directory's business.
pub open spec fn stay_new_spec(
    m: StoreModel,
    user_id: u64,
    attendee_user_id: u64,
    location_id: u64,
    fst_encounter_id: Option<u64>,
    fst_time: Option<u64>,
    snd_encounter_id: Option<u64>,
    snd_time: Option<u64>,
    now: u64,
) -> (StoreModel, Result<StayData, HoursError>) {
    if location_by_id(m, location_id) is None {
        (m, Err(HoursError::LocationNonexistent))
    } else {
        match stay_bound_spec(m, location_id, attendee_user_id, fst_encounter_id, fst_time) {
            Err(e) => (m, Err(e)),
            Ok((fst, fst_t)) => match stay_bound_spec(
                m,
                location_id,
                attendee_user_id,
                snd_encounter_id,
                snd_time,
            ) {
                Err(e) => (m, Err(e)),
                Ok((snd, snd_t)) => if fst_t > snd_t {
                    (m, Err(HoursError::NegativeDuration))
                } else if !is_instructor_at_spec(m, user_id, location_id) {
                    (m, Err(HoursError::ApiKeyUnauthorized))
                } else {
                    let stay = Stay {
                        stay_id: m.stays.len() as u64,
                        creation_time: now,
                        creator_user_id: user_id,
                        attendee_user_id,
                        location_id,
                    };
                    let sd = StayData {
                        stay_data_id: m.stay_datas.len() as u64,
                        creation_time: now,
                        creator_user_id: user_id,
                        stay_id: stay.stay_id,
                        fst,
                        snd,
                        active: true,
                    };
                    (
                        StoreModel {
                            stays: m.stays.push(stay),
                            stay_datas: m.stay_datas.push(sd),
                            ..m
                        },
                        Ok(sd),
                    )
                },
            },
        }
    }
}

/// Creates a stay for an attendee at a location, bounded by two encounters
/// or explicit timestamps.
pub fn stay_new(
    s: &mut Store,
    user_id: u64,
    attendee_user_id: u64,
    location_id: u64,
    fst_encounter_id: Option<u64>,
    fst_time: Option<u64>,
    snd_encounter_id: Option<u64>,
    snd_time: Option<u64>,
    now: u64,
) -> (r: Result<StayData, HoursError>)
    requires
        wf(old(s)@),
    ensures
        wf(final(s)@),
        extends(old(s)@, final(s)@),
        linked(old(s)@) ==> linked(final(s)@),
        final(s)@ == stay_new_spec(
            old(s)@, user_id, attendee_user_id, location_id, fst_encounter_id, fst_time,
            snd_encounter_id, snd_time, now,
        ).0,
        r == stay_new_spec(
            old(s)@, user_id, attendee_user_id, location_id, fst_encounter_id, fst_time,
            snd_encounter_id, snd_time, now,
        ).1,
{
    if location_service::get_by_location_id(s, location_id).is_none() {
        return Err(HoursError::LocationNonexistent);
    }
    let (fst, fst_t) = match resolve_stay_bound(
        s,
        location_id,
        attendee_user_id,
        fst_encounter_id,
        fst_time,
    ) {
        Err(e) => {
            return Err(e);
        },
        Ok(x) => x,
    };
    let (snd, snd_t) = match resolve_stay_bound(
        s,
        location_id,
        attendee_user_id,
        snd_encounter_id,
        snd_time,
    ) {
        Err(e) => {
            return Err(e);
        },
        Ok(x) => x,
    };
    if fst_t > snd_t {
        return Err(HoursError::NegativeDuration);
    }
    if !course_membership_service::is_instructor_at(s, user_id, location_id) {
        return Err(HoursError::ApiKeyUnauthorized);
    }
    let stay = stay_service::add(s, user_id, attendee_user_id, location_id, now);
    let stay_data = stay_data_service::add(s, user_id, stay.stay_id, fst, snd, true, now);
    proof {
        assert(s@ =~= stay_new_spec(
            old(s)@, user_id, attendee_user_id, location_id, fst_encounter_id, fst_time,
            snd_encounter_id, snd_time, now,
        ).0);
    }
    Ok(stay_data)
}

/// Outcome of `stay_data_new`: the stay must exist, the caller must
/// instruct an active course at the stay's location, both endpoints must
/// resolve against the stay's location and attendee, and the interval must
/// not be negative.
pub open spec fn stay_data_new_spec(
    m: StoreModel,
    user_id: u64,
    stay_id: u64,
    fst_encounter_id: Option<u64>,
    fst_time: Option<u64>,
    snd_encounter_id: Option<u64>,
    snd_time: Option<u64>,
    active: bool,
    now: u64,
) -> (StoreModel, Result<StayData, HoursError>) {
    match stay_by_id(m, stay_id) {
        None => (m, Err(HoursError::StayNonexistent)),
        Some(stay) => if !is_instructor_at_spec(m, user_id, stay.location_id) {
            (m, Err(HoursError::ApiKeyUnauthorized))
        } else {
            match stay_bound_spec(
                m,
                stay.location_id,
                stay.attendee_user_id,
                fst_encounter_id,
                fst_time,
            ) {
                Err(e) => (m, Err(e)),
                Ok((fst, fst_t)) => match stay_bound_spec(
                    m,
                    stay.location_id,
                    stay.attendee_user_id,
                    snd_encounter_id,
                    snd_time,
                ) {
                    Err(e) => (m, Err(e)),
                    Ok((snd, snd_t)) => if fst_t > snd_t {
                        (m, Err(HoursError::NegativeDuration))
                    } else {
                        let sd = StayData {
                            stay_data_id: m.stay_datas.len() as u64,
                            creation_time: now,
                            creator_user_id: user_id,
                            stay_id,
                            fst,
                            snd,
                            active,
                        };
                        (StoreModel { stay_datas: m.stay_datas.push(sd), ..m }, Ok(sd))
                    },
                },
            }
        },
    }
}

/// Appends new interval data (or an archival flag) for a stay.
pub fn stay_data_new(
    s: &mut Store,
    user_id: u64,
    stay_id: u64,
    fst_encounter_id: Option<u64>,
    fst_time: Option<u64>,
    snd_encounter_id: Option<u64>,
    snd_time: Option<u64>,
    active: bool,
    now: u64,
) -> (r: Result<StayData, HoursError>)
    requires
        wf(old(s)@),
    ensures
        wf(final(s)@),
        extends(old(s)@, final(s)@),
        linked(old(s)@) ==> linked(final(s)@),
        final(s)@ == stay_data_new_spec(
            old(s)@, user_id, stay_id, fst_encounter_id, fst_time, snd_encounter_id, snd_time,
            active, now,
        ).0,
        r == stay_data_new_spec(
            old(s)@, user_id, stay_id, fst_encounter_id, fst_time, snd_encounter_id, snd_time,
            active, now,
        ).1,
{
    let stay = match stay_service::get_by_stay_id(s, stay_id) {
        None => {
            return Err(HoursError::StayNonexistent);
        },
        Some(x) => x,
    };
    if !course_membership_service::is_instructor_at(s, user_id, stay.location_id) {
        return Err(HoursError::ApiKeyUnauthorized);
    }
    let (fst, fst_t) = match resolve_stay_bound(
        s,
        stay.location_id,
        stay.attendee_user_id,
        fst_encounter_id,
        fst_time,
    ) {
        Err(e) => {
            return Err(e);
        },
        Ok(x) => x,
    };
    let (snd, snd_t) = match resolve_stay_bound(
        s,
        stay.location_id,
        stay.attendee_user_id,
        snd_encounter_id,
        snd_time,
    ) {
        Err(e) => {
            return Err(e);
        },
        Ok(x) => x,
    };
    if fst_t > snd_t {
        return Err(HoursError::NegativeDuration);
    }
    Ok(stay_data_service::add(s, user_id, stay_id, fst, snd, active, now))
}

} // verus!
