//! One input per error variant, and the upstream auth-error mapping.

use innexgo_hours::handlers;
use innexgo_hours::store::Store;
use innexgo_hours::types::{AuthError, HoursError, SubscriptionKind};

fn world_bare() -> Store {
    let mut s = Store::new();
    handlers::subscription_new(&mut s, 1, SubscriptionKind::Valid, 1);
    handlers::school_new(&mut s, 1, "School".to_string(), "".to_string(), true, 2).unwrap();
    s
}

#[test]
fn school_creation_needs_subscription_with_uses() {
    let mut s = Store::new();
    assert_eq!(
        handlers::school_new(&mut s, 1, "S".to_string(), "".to_string(), true, 1).unwrap_err(),
        HoursError::SubscriptionNonexistent
    );
    // One subscription allows one school; the second is over the cap.
    handlers::subscription_new(&mut s, 1, SubscriptionKind::Valid, 1);
    handlers::school_new(&mut s, 1, "S1".to_string(), "".to_string(), true, 2).unwrap();
    assert_eq!(
        handlers::school_new(&mut s, 1, "S2".to_string(), "".to_string(), true, 3).unwrap_err(),
        HoursError::SubscriptionLimited
    );
}

#[test]
fn location_errors() {
    let mut s = world_bare();
    assert_eq!(
        handlers::location_new(
            &mut s,
            1,
            9,
            "L".to_string(),
            "a".to_string(),
            "p".to_string(),
            3
        )
        .unwrap_err(),
        HoursError::SchoolNonexistent
    );
    assert_eq!(
        handlers::location_new(
            &mut s,
            8,
            0,
            "L".to_string(),
            "a".to_string(),
            "p".to_string(),
            3
        )
        .unwrap_err(),
        HoursError::ApiKeyUnauthorized
    );
    // Archive the school: creation is then refused.
    handlers::school_data_new(&mut s, 1, 0, "School".to_string(), "".to_string(), false, 4)
        .unwrap();
    assert_eq!(
        handlers::location_new(
            &mut s,
            1,
            0,
            "L".to_string(),
            "a".to_string(),
            "p".to_string(),
            5
        )
        .unwrap_err(),
        HoursError::SchoolArchived
    );
}

#[test]
fn location_data_errors() {
    let mut s = world_bare();
    assert_eq!(
        handlers::location_data_new(
            &mut s,
            1,
            9,
            "L".to_string(),
            "a".to_string(),
            "p".to_string(),
            true,
            3
        )
        .unwrap_err(),
        HoursError::LocationNonexistent
    );
    handlers::location_new(
        &mut s,
        1,
        0,
        "L".to_string(),
        "a".to_string(),
        "p".to_string(),
        3,
    )
    .unwrap();
    // Neither an instructor at the location nor a school admin.
    assert_eq!(
        handlers::location_data_new(
            &mut s,
            7,
            0,
            "L".to_string(),
            "a".to_string(),
            "p".to_string(),
            true,
            4
        )
        .unwrap_err(),
        HoursError::ApiKeyUnauthorized
    );
    // The school admin may update it.
    assert!(handlers::location_data_new(
        &mut s,
        1,
        0,
        "L2".to_string(),
        "a".to_string(),
        "p".to_string(),
        true,
        5
    )
    .is_ok());
}

#[test]
fn course_creation_errors() {
    let mut s = world_bare();
    handlers::location_new(
        &mut s,
        1,
        0,
        "L".to_string(),
        "a".to_string(),
        "p".to_string(),
        3,
    )
    .unwrap();
    // A missing location is a not-found fault of its own.
    assert_eq!(
        handlers::course_new(&mut s, 1, 0, 9, "C".to_string(), "".to_string(), false, 4)
            .unwrap_err(),
        HoursError::LocationNonexistent
    );
    // Archive the location: course creation is refused.
    handlers::location_data_new(
        &mut s,
        1,
        0,
        "L".to_string(),
        "a".to_string(),
        "p".to_string(),
        false,
        5,
    )
    .unwrap();
    assert_eq!(
        handlers::course_new(&mut s, 1, 0, 0, "C".to_string(), "".to_string(), false, 6)
            .unwrap_err(),
        HoursError::LocationArchived
    );
}

#[test]
fn school_duration_errors() {
    let mut s = world_bare();
    assert_eq!(
        handlers::school_duration_data_new(&mut s, 1, 9, 1, 10, 20, true, 3).unwrap_err(),
        HoursError::SchoolDurationNonexistent
    );
    assert_eq!(
        handlers::school_duration_new(&mut s, 1, 9, 3).unwrap_err(),
        HoursError::SchoolNonexistent
    );
    assert_eq!(
        handlers::school_duration_new(&mut s, 8, 0, 3).unwrap_err(),
        HoursError::ApiKeyUnauthorized
    );
    let dur = handlers::school_duration_new(&mut s, 1, 0, 3).unwrap();
    let dd = handlers::school_duration_data_new(
        &mut s,
        1,
        dur.school_duration_id,
        1,
        10,
        20,
        true,
        4,
    )
    .unwrap();
    assert_eq!(dd.minute_start, 10);
}

#[test]
fn auth_error_mapping_preserves_distinctions() {
    assert_eq!(
        handlers::report_auth_err(AuthError::ApiKeyNonexistent),
        HoursError::ApiKeyNonexistent
    );
    assert_eq!(
        handlers::report_auth_err(AuthError::ApiKeyUnauthorized),
        HoursError::ApiKeyUnauthorized
    );
    assert_eq!(
        handlers::report_auth_err(AuthError::InternalServerError),
        HoursError::AuthInternalServerError
    );
    assert_eq!(
        handlers::report_auth_err(AuthError::MethodNotAllowed),
        HoursError::AuthBadRequest
    );
    assert_eq!(
        handlers::report_auth_err(AuthError::BadRequest),
        HoursError::AuthBadRequest
    );
    assert_eq!(handlers::report_auth_err(AuthError::Other), HoursError::AuthOther);
}
