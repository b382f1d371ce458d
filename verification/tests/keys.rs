//! Enrollment key redemption: use caps, expiry boundaries, and single-use
//! school keys.

use innexgo_hours::handlers;
use innexgo_hours::store::Store;
use innexgo_hours::types::{CourseMembershipKind, HoursError, SubscriptionKind};

/// A world with one school (id 0), one location (0), and one active course
/// (0) instructed by user 1.
fn world_with_course() -> Store {
    let mut s = Store::new();
    handlers::subscription_new(&mut s, 1, SubscriptionKind::Valid, 1);
    handlers::school_new(&mut s, 1, "School".to_string(), "".to_string(), true, 2).unwrap();
    handlers::location_new(
        &mut s,
        1,
        0,
        "Hall".to_string(),
        "1 Main St".to_string(),
        "555".to_string(),
        3,
    )
    .unwrap();
    handlers::course_new(&mut s, 1, 0, 0, "Math".to_string(), "".to_string(), false, 4).unwrap();
    s
}

#[test]
fn course_key_respects_max_uses() {
    let mut s = world_with_course();
    handlers::course_key_new(
        &mut s,
        1,
        0,
        777,
        2,
        CourseMembershipKind::Student,
        100,
        200,
        5,
    )
    .unwrap();
    let m1 = handlers::course_membership_new_key(&mut s, 11, 777, 150).unwrap();
    assert_eq!(m1.course_membership_kind, CourseMembershipKind::Student);
    assert_eq!(m1.course_key_key, Some(777));
    let m2 = handlers::course_membership_new_key(&mut s, 12, 777, 151).unwrap();
    assert_eq!(m2.user_id, 12);
    let third = handlers::course_membership_new_key(&mut s, 13, 777, 152);
    assert_eq!(third.unwrap_err(), HoursError::CourseKeyUsed);
}

#[test]
fn course_key_expiry_boundaries() {
    let mut s = world_with_course();
    handlers::course_key_new(
        &mut s,
        1,
        0,
        888,
        10,
        CourseMembershipKind::Student,
        100,
        200,
        5,
    )
    .unwrap();
    assert_eq!(
        handlers::course_membership_new_key(&mut s, 21, 888, 99).unwrap_err(),
        HoursError::CourseKeyExpired
    );
    assert!(handlers::course_membership_new_key(&mut s, 21, 888, 100).is_ok());
    assert!(handlers::course_membership_new_key(&mut s, 22, 888, 200).is_ok());
    assert_eq!(
        handlers::course_membership_new_key(&mut s, 23, 888, 201).unwrap_err(),
        HoursError::CourseKeyExpired
    );
}

#[test]
fn course_key_unknown_token_rejected() {
    let mut s = world_with_course();
    assert_eq!(
        handlers::course_membership_new_key(&mut s, 5, 424242, 100).unwrap_err(),
        HoursError::CourseKeyNonexistent
    );
}

#[test]
fn course_key_needs_instructor_and_active_course() {
    let mut s = world_with_course();
    // User 9 is not an instructor of course 0.
    assert_eq!(
        handlers::course_key_new(&mut s, 9, 0, 1, 5, CourseMembershipKind::Student, 0, 10, 5)
            .unwrap_err(),
        HoursError::ApiKeyUnauthorized
    );
    // Negative window is rejected before anything else.
    assert_eq!(
        handlers::course_key_new(&mut s, 1, 0, 1, 5, CourseMembershipKind::Student, 10, 9, 5)
            .unwrap_err(),
        HoursError::NegativeDuration
    );
    // Archive the course, then key creation is rejected.
    handlers::course_data_new(
        &mut s,
        1,
        0,
        0,
        "Math".to_string(),
        "".to_string(),
        false,
        false,
        6,
    )
    .unwrap();
    assert_eq!(
        handlers::course_key_new(&mut s, 1, 0, 1, 5, CourseMembershipKind::Student, 0, 10, 7)
            .unwrap_err(),
        HoursError::CourseArchived
    );
}

#[test]
fn course_key_token_collision_is_storage_fault() {
    let mut s = world_with_course();
    handlers::course_key_new(&mut s, 1, 0, 5, 3, CourseMembershipKind::Student, 0, 10, 5)
        .unwrap();
    assert_eq!(
        handlers::course_key_new(&mut s, 1, 0, 5, 3, CourseMembershipKind::Student, 0, 10, 6)
            .unwrap_err(),
        HoursError::InternalServerError
    );
}

#[test]
fn redeeming_archived_course_key_fails() {
    let mut s = world_with_course();
    handlers::course_key_new(&mut s, 1, 0, 6, 3, CourseMembershipKind::Student, 0, 100, 5)
        .unwrap();
    handlers::course_data_new(
        &mut s,
        1,
        0,
        0,
        "Math".to_string(),
        "".to_string(),
        false,
        false,
        6,
    )
    .unwrap();
    assert_eq!(
        handlers::course_membership_new_key(&mut s, 30, 6, 50).unwrap_err(),
        HoursError::CourseArchived
    );
}

#[test]
fn school_key_is_single_use() {
    let mut s = world_with_course();
    handlers::school_key_new(&mut s, 1, 0, 999, 100, 200, 5).unwrap();
    let adm = handlers::adminship_new_key(&mut s, 41, 999, 150).unwrap();
    assert_eq!(adm.school_key_key, Some(999));
    assert_eq!(adm.user_id, 41);
    assert_eq!(
        handlers::adminship_new_key(&mut s, 42, 999, 151).unwrap_err(),
        HoursError::SchoolKeyUsed
    );
}

#[test]
fn school_key_expiry_and_unknown_token() {
    let mut s = world_with_course();
    handlers::school_key_new(&mut s, 1, 0, 1000, 100, 200, 5).unwrap();
    assert_eq!(
        handlers::adminship_new_key(&mut s, 41, 1000, 99).unwrap_err(),
        HoursError::SchoolKeyExpired
    );
    assert_eq!(
        handlers::adminship_new_key(&mut s, 41, 1000, 201).unwrap_err(),
        HoursError::SchoolKeyExpired
    );
    assert_eq!(
        handlers::adminship_new_key(&mut s, 41, 31337, 150).unwrap_err(),
        HoursError::SchoolKeyNonexistent
    );
}

#[test]
fn school_key_data_can_deactivate_definition() {
    let mut s = world_with_course();
    handlers::school_key_new(&mut s, 1, 0, 70, 0, 10, 5).unwrap();
    let kd = handlers::school_key_data_new(&mut s, 1, 70, false, 6).unwrap();
    assert!(!kd.active);
    assert_eq!(
        handlers::school_key_data_new(&mut s, 1, 71, false, 7).unwrap_err(),
        HoursError::SchoolKeyNonexistent
    );
    assert_eq!(
        handlers::school_key_data_new(&mut s, 9, 70, false, 7).unwrap_err(),
        HoursError::ApiKeyUnauthorized
    );
}

#[test]
fn course_key_data_can_deactivate_definition() {
    let mut s = world_with_course();
    handlers::course_key_new(&mut s, 1, 0, 80, 3, CourseMembershipKind::Student, 0, 10, 5)
        .unwrap();
    let kd = handlers::course_key_data_new(&mut s, 1, 80, false, 6).unwrap();
    assert!(!kd.active);
    assert_eq!(
        handlers::course_key_data_new(&mut s, 1, 81, false, 7).unwrap_err(),
        HoursError::CourseKeyNonexistent
    );
}
