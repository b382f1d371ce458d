//! Cancellation semantics: cancel is additive, and the no-orphan guards on
//! instructors and admins.

use innexgo_hours::handlers;
use innexgo_hours::store::Store;
use innexgo_hours::types::{CourseMembershipKind, HoursError, SubscriptionKind};
use innexgo_hours::{adminship_service, course_membership_service};

/// A world with school 0, location 0, course 0 instructed by user 1, and
/// user 2 enrolled as a student through key 900.
fn world_with_student() -> Store {
    let mut s = Store::new();
    handlers::subscription_new(&mut s, 1, SubscriptionKind::Valid, 1);
    handlers::school_new(&mut s, 1, "School".to_string(), "".to_string(), true, 2).unwrap();
    handlers::location_new(
        &mut s,
        1,
        0,
        "Hall".to_string(),
        "1 Main St".to_string(),
        "555".to_string(),
        3,
    )
    .unwrap();
    handlers::course_new(&mut s, 1, 0, 0, "Math".to_string(), "".to_string(), false, 4).unwrap();
    handlers::course_key_new(
        &mut s,
        1,
        0,
        900,
        10,
        CourseMembershipKind::Student,
        0,
        1000,
        5,
    )
    .unwrap();
    handlers::course_membership_new_key(&mut s, 2, 900, 6).unwrap();
    s
}

#[test]
fn cancel_is_additive_for_membership() {
    let mut s = world_with_student();
    let records_before = course_membership_service::get_by_course_key_key(&s, 900).len();
    assert!(course_membership_service::is_student(&s, 2, 0));
    let cancel = handlers::course_membership_new_cancel(&mut s, 2, 2, 0, 7).unwrap();
    assert_eq!(cancel.course_membership_kind, CourseMembershipKind::Cancel);
    // The predicate flips immediately...
    assert!(!course_membership_service::is_student(&s, 2, 0));
    assert!(!course_membership_service::is_member(&s, 2, 0));
    // ...but no history was removed.
    let records_after = course_membership_service::get_by_course_key_key(&s, 900).len();
    assert_eq!(records_before, records_after);
    assert!(course_membership_service::get_by_course_membership_id(&s, 1).is_some());
}

#[test]
fn sole_instructor_cannot_leave_course() {
    let mut s = world_with_student();
    assert_eq!(course_membership_service::count_instructors(&s, 0), 1);
    assert_eq!(
        handlers::course_membership_new_cancel(&mut s, 1, 1, 0, 7).unwrap_err(),
        HoursError::CourseMembershipCannotLeaveEmpty
    );
    // The refused operation changed nothing.
    assert!(course_membership_service::is_instructor(&s, 1, 0));
    assert_eq!(course_membership_service::count_instructors(&s, 0), 1);
}

#[test]
fn second_instructor_may_leave_leaving_one() {
    let mut s = world_with_student();
    handlers::course_key_new(
        &mut s,
        1,
        0,
        901,
        1,
        CourseMembershipKind::Instructor,
        0,
        1000,
        8,
    )
    .unwrap();
    handlers::course_membership_new_key(&mut s, 3, 901, 9).unwrap();
    assert_eq!(course_membership_service::count_instructors(&s, 0), 2);
    handlers::course_membership_new_cancel(&mut s, 3, 3, 0, 10).unwrap();
    assert_eq!(course_membership_service::count_instructors(&s, 0), 1);
    assert!(course_membership_service::is_instructor(&s, 1, 0));
    assert!(!course_membership_service::is_instructor(&s, 3, 0));
}

#[test]
fn instructor_may_cancel_student_but_stranger_may_not() {
    let mut s = world_with_student();
    // A stranger may not cancel someone else's membership.
    assert_eq!(
        handlers::course_membership_new_cancel(&mut s, 9, 2, 0, 7).unwrap_err(),
        HoursError::ApiKeyUnauthorized
    );
    // The guard counts instructors whenever an instructor cancels, so the
    // sole instructor cannot even cancel a student.
    assert_eq!(
        handlers::course_membership_new_cancel(&mut s, 1, 2, 0, 8).unwrap_err(),
        HoursError::CourseMembershipCannotLeaveEmpty
    );
    // With a second instructor present the cancellation goes through.
    handlers::course_key_new(
        &mut s,
        1,
        0,
        902,
        1,
        CourseMembershipKind::Instructor,
        0,
        1000,
        9,
    )
    .unwrap();
    handlers::course_membership_new_key(&mut s, 5, 902, 10).unwrap();
    handlers::course_membership_new_cancel(&mut s, 1, 2, 0, 11).unwrap();
    assert!(!course_membership_service::is_member(&s, 2, 0));
}

#[test]
fn cancel_is_additive_for_adminship() {
    let mut s = world_with_student();
    // A second admin joins through a school key.
    handlers::school_key_new(&mut s, 1, 0, 950, 0, 1000, 9).unwrap();
    handlers::adminship_new_key(&mut s, 4, 950, 10).unwrap();
    assert!(adminship_service::is_admin(&s, 4, 0));
    let n_before = adminship_service::get_by_user_id(&s, 4).len();
    handlers::adminship_new_cancel(&mut s, 1, 4, 0, 11).unwrap();
    assert!(!adminship_service::is_admin(&s, 4, 0));
    // The cancelled chain still has a (new) head; nothing was deleted.
    assert_eq!(adminship_service::get_by_user_id(&s, 4).len(), n_before);
    assert!(adminship_service::get_by_user_id_school_id(&s, 4, 0).is_some());
}

#[test]
fn sole_admin_cannot_leave_school() {
    let mut s = world_with_student();
    assert_eq!(adminship_service::count_admins(&s, 0), 1);
    assert_eq!(
        handlers::adminship_new_cancel(&mut s, 1, 1, 0, 7).unwrap_err(),
        HoursError::AdminshipCannotLeaveEmpty
    );
    assert!(adminship_service::is_admin(&s, 1, 0));
}

#[test]
fn adminship_cancel_requires_live_school() {
    let mut s = world_with_student();
    // A school with no record at all is a not-found fault, not an
    // archived one.
    assert_eq!(
        handlers::adminship_new_cancel(&mut s, 1, 1, 44, 7).unwrap_err(),
        HoursError::SchoolNonexistent
    );
    handlers::school_data_new(&mut s, 1, 0, "School".to_string(), "".to_string(), false, 8)
        .unwrap();
    assert_eq!(
        handlers::adminship_new_cancel(&mut s, 1, 1, 0, 9).unwrap_err(),
        HoursError::SchoolArchived
    );
}

#[test]
fn membership_cancel_requires_live_course() {
    let mut s = world_with_student();
    assert_eq!(
        handlers::course_membership_new_cancel(&mut s, 2, 2, 55, 7).unwrap_err(),
        HoursError::CourseNonexistent
    );
    handlers::course_data_new(
        &mut s,
        1,
        0,
        0,
        "Math".to_string(),
        "".to_string(),
        false,
        false,
        8,
    )
    .unwrap();
    assert_eq!(
        handlers::course_membership_new_cancel(&mut s, 2, 2, 0, 9).unwrap_err(),
        HoursError::CourseArchived
    );
}
