//! Remaining service-level behavior: key use counting, per-course head
//! listing, instructor-at-location resolution, subscriptions, and external
//! events.

use innexgo_hours::handlers;
use innexgo_hours::store::Store;
use innexgo_hours::types::{CourseMembershipKind, SubscriptionKind};
use innexgo_hours::{
    course_membership_service, external_event_service, school_key_service, subscription_service,
};

fn world_course_at_location() -> Store {
    let mut s = Store::new();
    handlers::subscription_new(&mut s, 1, SubscriptionKind::Valid, 1);
    handlers::school_new(&mut s, 1, "School".to_string(), "".to_string(), true, 2).unwrap();
    handlers::location_new(
        &mut s,
        1,
        0,
        "Hall".to_string(),
        "1 Main St".to_string(),
        "555".to_string(),
        3,
    )
    .unwrap();
    handlers::course_new(&mut s, 1, 0, 0, "Math".to_string(), "".to_string(), false, 4).unwrap();
    s
}

#[test]
fn key_uses_count_every_referencing_record() {
    let mut s = world_course_at_location();
    handlers::course_key_new(
        &mut s,
        1,
        0,
        44,
        10,
        CourseMembershipKind::Student,
        0,
        100,
        5,
    )
    .unwrap();
    assert_eq!(course_membership_service::count_course_key_uses(&s, 44), 0);
    handlers::course_membership_new_key(&mut s, 2, 44, 10).unwrap();
    handlers::course_membership_new_key(&mut s, 3, 44, 11).unwrap();
    assert_eq!(course_membership_service::count_course_key_uses(&s, 44), 2);
    // Cancelling a membership does not refund a use: counting is over
    // history, not heads.
    handlers::course_membership_new_cancel(&mut s, 2, 2, 0, 12).unwrap();
    assert_eq!(course_membership_service::count_course_key_uses(&s, 44), 2);
    assert_eq!(course_membership_service::get_by_course_key_key(&s, 44).len(), 2);
}

#[test]
fn current_memberships_of_course() {
    let mut s = world_course_at_location();
    handlers::course_key_new(
        &mut s,
        1,
        0,
        45,
        10,
        CourseMembershipKind::Student,
        0,
        100,
        5,
    )
    .unwrap();
    handlers::course_membership_new_key(&mut s, 2, 45, 10).unwrap();
    handlers::course_membership_new_key(&mut s, 3, 45, 11).unwrap();
    handlers::course_membership_new_cancel(&mut s, 3, 3, 0, 12).unwrap();
    let heads = course_membership_service::get_by_course_id(&s, 0);
    // One head per user: instructor 1, student 2, cancelled 3.
    assert_eq!(heads.len(), 3);
    let of_three: Vec<_> = heads.iter().filter(|m| m.user_id == 3).collect();
    assert_eq!(of_three.len(), 1);
    assert_eq!(
        of_three[0].course_membership_kind,
        CourseMembershipKind::Cancel
    );
}

#[test]
fn instructor_at_follows_current_course_location() {
    let mut s = world_course_at_location();
    assert!(course_membership_service::is_instructor_at(&s, 1, 0));
    assert!(!course_membership_service::is_instructor_at(&s, 2, 0));
    // Move the course to a new location: the instructor follows.
    handlers::location_new(
        &mut s,
        1,
        0,
        "Annex".to_string(),
        "2 Main St".to_string(),
        "556".to_string(),
        5,
    )
    .unwrap();
    handlers::course_data_new(
        &mut s,
        1,
        0,
        1,
        "Math".to_string(),
        "".to_string(),
        false,
        true,
        6,
    )
    .unwrap();
    assert!(!course_membership_service::is_instructor_at(&s, 1, 0));
    assert!(course_membership_service::is_instructor_at(&s, 1, 1));
    // Archiving the course ends it.
    handlers::course_data_new(
        &mut s,
        1,
        0,
        1,
        "Math".to_string(),
        "".to_string(),
        false,
        false,
        7,
    )
    .unwrap();
    assert!(!course_membership_service::is_instructor_at(&s, 1, 1));
}

#[test]
fn subscription_head_is_latest() {
    let mut s = Store::new();
    let first = handlers::subscription_new(&mut s, 5, SubscriptionKind::Valid, 1);
    let second = handlers::subscription_new(&mut s, 5, SubscriptionKind::Cancel, 2);
    let head = subscription_service::get_by_user_id(&s, 5).unwrap();
    assert_eq!(head.subscription_id, second.subscription_id);
    assert_eq!(head.subscription_kind, SubscriptionKind::Cancel);
    assert!(subscription_service::get_by_subscription_id(&s, first.subscription_id).is_some());
    assert!(subscription_service::get_by_user_id(&s, 6).is_none());
}

#[test]
fn school_key_lookup_by_token() {
    let mut s = world_course_at_location();
    handlers::school_key_new(&mut s, 1, 0, 77, 5, 50, 5).unwrap();
    let key = school_key_service::get_by_school_key_key(&s, 77).unwrap();
    assert_eq!(key.school_id, 0);
    assert_eq!(key.start_time, 5);
    assert_eq!(key.end_time, 50);
    assert!(school_key_service::get_by_school_key_key(&s, 78).is_none());
}

#[test]
fn external_events_are_recorded() {
    let mut s = Store::new();
    let e = external_event_service::add(&mut s, 9, 123);
    assert_eq!(e.external_event_id, 0);
    assert_eq!(
        external_event_service::get_by_external_event_id(&s, 0)
            .unwrap()
            .creation_time,
        123
    );
    assert!(external_event_service::get_by_external_event_id(&s, 1).is_none());
}
