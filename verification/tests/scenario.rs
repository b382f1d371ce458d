//! End-to-end: a school, its first course, a capped enrollment key, and
//! two redemption attempts.

use innexgo_hours::handlers;
use innexgo_hours::store::Store;
use innexgo_hours::types::{CourseMembershipKind, HoursError, SubscriptionKind};
use innexgo_hours::{adminship_service, course_membership_service};

#[test]
fn school_course_key_redemption_flow() {
    let user_a: u64 = 100;
    let user_b: u64 = 200;
    let user_c: u64 = 300;
    let mut s = Store::new();
    handlers::subscription_new(&mut s, user_a, SubscriptionKind::Valid, 1);

    // Create school S by user A: A is head Admin of S.
    let school = handlers::school_new(
        &mut s,
        user_a,
        "S".to_string(),
        "a school".to_string(),
        true,
        2,
    )
    .unwrap();
    let school_id = school.school_id;
    assert!(adminship_service::is_admin(&s, user_a, school_id));

    // Create course C in S by A: A is head Instructor of C.
    handlers::location_new(
        &mut s,
        user_a,
        school_id,
        "L".to_string(),
        "addr".to_string(),
        "tel".to_string(),
        3,
    )
    .unwrap();
    let course = handlers::course_new(
        &mut s,
        user_a,
        school_id,
        0,
        "C".to_string(),
        "a course".to_string(),
        false,
        4,
    )
    .unwrap();
    let course_id = course.course_id;
    assert!(course_membership_service::is_instructor(&s, user_a, course_id));

    // Create a course key for C with max_uses = 1 and a window covering now.
    let token: u64 = 0xfeed;
    let now: u64 = 50;
    handlers::course_key_new(
        &mut s,
        user_a,
        course_id,
        token,
        1,
        CourseMembershipKind::Student,
        40,
        60,
        5,
    )
    .unwrap();

    // User B redeems the key: B becomes head Student of C, and the
    // membership cites the key token.
    let membership = handlers::course_membership_new_key(&mut s, user_b, token, now).unwrap();
    assert_eq!(membership.user_id, user_b);
    assert_eq!(membership.course_id, course_id);
    assert_eq!(membership.course_membership_kind, CourseMembershipKind::Student);
    assert_eq!(membership.course_key_key, Some(token));
    assert!(course_membership_service::is_student(&s, user_b, course_id));

    // A second redemption attempt by user C with the same key fails.
    assert_eq!(
        handlers::course_membership_new_key(&mut s, user_c, token, now).unwrap_err(),
        HoursError::CourseKeyUsed
    );
    assert!(!course_membership_service::is_member(&s, user_c, course_id));
}
