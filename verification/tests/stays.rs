//! Encounters and stays: presence observations and the derived intervals.

use innexgo_hours::handlers;
use innexgo_hours::store::Store;
use innexgo_hours::types::{CourseMembershipKind, HoursError, StayBound, SubscriptionKind};

/// A world where user 1 instructs active course 0 held at location 0, so
/// user 1 may record encounters and stays there.
fn world_with_location() -> Store {
    let mut s = Store::new();
    handlers::subscription_new(&mut s, 1, SubscriptionKind::Valid, 1);
    handlers::school_new(&mut s, 1, "School".to_string(), "".to_string(), true, 2).unwrap();
    handlers::location_new(
        &mut s,
        1,
        0,
        "Hall".to_string(),
        "1 Main St".to_string(),
        "555".to_string(),
        3,
    )
    .unwrap();
    handlers::course_new(&mut s, 1, 0, 0, "Math".to_string(), "".to_string(), false, 4).unwrap();
    s
}

#[test]
fn encounter_requires_location_and_instructor() {
    let mut s = world_with_location();
    assert_eq!(
        handlers::encounter_new(&mut s, 1, 9, 2, 10).unwrap_err(),
        HoursError::LocationNonexistent
    );
    assert_eq!(
        handlers::encounter_new(&mut s, 7, 0, 2, 10).unwrap_err(),
        HoursError::ApiKeyUnauthorized
    );
    let e = handlers::encounter_new(&mut s, 1, 0, 2, 10).unwrap();
    assert_eq!(e.encounter_id, 0);
    assert_eq!(e.attendee_user_id, 2);
}

#[test]
fn stay_from_two_encounters() {
    let mut s = world_with_location();
    let e1 = handlers::encounter_new(&mut s, 1, 0, 2, 10).unwrap();
    let e2 = handlers::encounter_new(&mut s, 1, 0, 2, 30).unwrap();
    let sd = handlers::stay_new(
        &mut s,
        1,
        2,
        0,
        Some(e1.encounter_id),
        None,
        Some(e2.encounter_id),
        None,
        40,
    )
    .unwrap();
    assert_eq!(sd.fst, StayBound::ByEncounter(e1.encounter_id));
    assert_eq!(sd.snd, StayBound::ByEncounter(e2.encounter_id));
    assert!(sd.active);
}

#[test]
fn stay_endpoint_validation() {
    let mut s = world_with_location();
    let e1 = handlers::encounter_new(&mut s, 1, 0, 2, 10).unwrap();
    // No endpoint at all.
    assert_eq!(
        handlers::stay_new(&mut s, 1, 2, 0, None, None, None, Some(20), 40).unwrap_err(),
        HoursError::StayProvidedNoTime
    );
    // Both an encounter and an explicit time.
    assert_eq!(
        handlers::stay_new(
            &mut s,
            1,
            2,
            0,
            Some(e1.encounter_id),
            Some(5),
            None,
            Some(20),
            40
        )
        .unwrap_err(),
        HoursError::StayProvidedDoubleTime
    );
    // A dangling encounter reference.
    assert_eq!(
        handlers::stay_new(&mut s, 1, 2, 0, Some(9), None, None, Some(20), 40).unwrap_err(),
        HoursError::EncounterNonexistent
    );
    // An interval running backwards.
    assert_eq!(
        handlers::stay_new(&mut s, 1, 2, 0, None, Some(30), None, Some(20), 40).unwrap_err(),
        HoursError::NegativeDuration
    );
}

#[test]
fn stay_endpoint_must_match_location_and_user() {
    let mut s = world_with_location();
    // A second location (id 1) with its own course so user 1 instructs
    // there too.
    handlers::location_new(
        &mut s,
        1,
        0,
        "Annex".to_string(),
        "2 Main St".to_string(),
        "556".to_string(),
        5,
    )
    .unwrap();
    handlers::course_new(&mut s, 1, 0, 1, "Art".to_string(), "".to_string(), false, 6).unwrap();
    let at_annex = handlers::encounter_new(&mut s, 1, 1, 2, 10).unwrap();
    let of_other_user = handlers::encounter_new(&mut s, 1, 0, 3, 10).unwrap();
    assert_eq!(
        handlers::stay_new(
            &mut s,
            1,
            2,
            0,
            Some(at_annex.encounter_id),
            None,
            None,
            Some(20),
            40
        )
        .unwrap_err(),
        HoursError::StayEncounterWrongLocation
    );
    assert_eq!(
        handlers::stay_new(
            &mut s,
            1,
            2,
            0,
            Some(of_other_user.encounter_id),
            None,
            None,
            Some(20),
            40
        )
        .unwrap_err(),
        HoursError::StayEncounterWrongUser
    );
}

#[test]
fn stay_data_revises_interval() {
    let mut s = world_with_location();
    handlers::stay_new(&mut s, 1, 2, 0, None, Some(10), None, Some(20), 40).unwrap();
    assert_eq!(
        handlers::stay_data_new(&mut s, 1, 9, None, Some(10), None, Some(25), true, 41).unwrap_err(),
        HoursError::StayNonexistent
    );
    assert_eq!(
        handlers::stay_data_new(&mut s, 7, 0, None, Some(10), None, Some(25), true, 41).unwrap_err(),
        HoursError::ApiKeyUnauthorized
    );
    let sd = handlers::stay_data_new(&mut s, 1, 0, None, Some(10), None, Some(25), true, 41).unwrap();
    assert_eq!(sd.snd, StayBound::AtTime(25));
    let sd2 = handlers::stay_data_new(&mut s, 1, 0, None, Some(10), None, Some(25), true, 42)
        .unwrap();
    assert_ne!(sd2.stay_data_id, sd.stay_data_id);
}

#[test]
fn archived_location_blocks_encounters() {
    let mut s = world_with_location();
    handlers::location_data_new(
        &mut s,
        1,
        0,
        "Hall".to_string(),
        "1 Main St".to_string(),
        "555".to_string(),
        false,
        5,
    )
    .unwrap();
    assert_eq!(
        handlers::encounter_new(&mut s, 1, 0, 2, 10).unwrap_err(),
        HoursError::LocationArchived
    );
}

#[test]
fn membership_kind_from_key_is_recorded() {
    let mut s = world_with_location();
    handlers::course_key_new(
        &mut s,
        1,
        0,
        321,
        5,
        CourseMembershipKind::Instructor,
        0,
        100,
        5,
    )
    .unwrap();
    let m = handlers::course_membership_new_key(&mut s, 8, 321, 50).unwrap();
    assert_eq!(m.course_membership_kind, CourseMembershipKind::Instructor);
}
