//! The session-request workflow: request creation, single resolution,
//! accept idempotence, and session/commitment creation.

use innexgo_hours::handlers;
use innexgo_hours::store::Store;
use innexgo_hours::types::{CourseMembershipKind, HoursError, SubscriptionKind};
use innexgo_hours::{commitment_service, session_request_response_service};

/// A world with school 0, location 0, course 0 instructed by user 1, and
/// user 2 enrolled as a student.
fn world_for_workflow() -> Store {
    let mut s = Store::new();
    handlers::subscription_new(&mut s, 1, SubscriptionKind::Valid, 1);
    handlers::school_new(&mut s, 1, "School".to_string(), "".to_string(), true, 2).unwrap();
    handlers::location_new(
        &mut s,
        1,
        0,
        "Hall".to_string(),
        "1 Main St".to_string(),
        "555".to_string(),
        3,
    )
    .unwrap();
    handlers::course_new(&mut s, 1, 0, 0, "Math".to_string(), "".to_string(), false, 4).unwrap();
    handlers::course_key_new(
        &mut s,
        1,
        0,
        900,
        10,
        CourseMembershipKind::Student,
        0,
        1000,
        5,
    )
    .unwrap();
    handlers::course_membership_new_key(&mut s, 2, 900, 6).unwrap();
    s
}

#[test]
fn request_requires_student_and_valid_window() {
    let mut s = world_for_workflow();
    assert_eq!(
        handlers::session_request_new(&mut s, 2, 0, "help".to_string(), 20, 10, 7).unwrap_err(),
        HoursError::NegativeDuration
    );
    assert_eq!(
        handlers::session_request_new(&mut s, 1, 0, "help".to_string(), 10, 20, 7).unwrap_err(),
        HoursError::ApiKeyUnauthorized
    );
    assert_eq!(
        handlers::session_request_new(&mut s, 2, 9, "help".to_string(), 10, 20, 7).unwrap_err(),
        HoursError::CourseNonexistent
    );
    let req = handlers::session_request_new(&mut s, 2, 0, "help".to_string(), 10, 20, 7)
        .unwrap();
    assert_eq!(req.session_request_id, 0);
    assert_eq!(req.creator_user_id, 2);
}

#[test]
fn request_resolved_exactly_once() {
    let mut s = world_for_workflow();
    handlers::session_request_new(&mut s, 2, 0, "help".to_string(), 10, 20, 7).unwrap();
    // First resolution (a self-decline) succeeds.
    let resp = handlers::session_request_response_new(
        &mut s,
        2,
        0,
        "never mind".to_string(),
        None,
        8,
    )
    .unwrap();
    assert_eq!(resp.commitment_id, None);
    // Any later attempt, by anyone, fails: the response is permanent.
    assert_eq!(
        handlers::session_request_response_new(&mut s, 1, 0, "ok".to_string(), None, 9)
            .unwrap_err(),
        HoursError::SessionRequestResponseExistent
    );
    assert_eq!(
        session_request_response_service::get_by_session_request_id(&s, 0)
            .unwrap()
            .message,
        "never mind"
    );
}

#[test]
fn only_requester_or_instructor_may_decline() {
    let mut s = world_for_workflow();
    handlers::session_request_new(&mut s, 2, 0, "help".to_string(), 10, 20, 7).unwrap();
    assert_eq!(
        handlers::session_request_response_new(&mut s, 9, 0, "no".to_string(), None, 8)
            .unwrap_err(),
        HoursError::ApiKeyUnauthorized
    );
    assert_eq!(
        handlers::session_request_response_new(&mut s, 9, 5, "no".to_string(), None, 8)
            .unwrap_err(),
        HoursError::SessionRequestNonexistent
    );
}

#[test]
fn accept_creates_commitment_and_is_idempotent() {
    let mut s = world_for_workflow();
    // Two pending requests from student 2.
    handlers::session_request_new(&mut s, 2, 0, "monday".to_string(), 10, 20, 7).unwrap();
    handlers::session_request_new(&mut s, 2, 0, "also monday".to_string(), 10, 20, 8).unwrap();
    // An instructor creates a session for the course.
    let session_data = handlers::session_new(
        &mut s,
        1,
        0,
        "office hours".to_string(),
        10,
        20,
        Vec::new(),
        9,
    )
    .unwrap();
    let session_id = session_data.session_id;
    // Only an instructor may accept into a session.
    assert_eq!(
        handlers::session_request_response_new(
            &mut s,
            2,
            0,
            "me".to_string(),
            Some(session_id),
            10
        )
        .unwrap_err(),
        HoursError::ApiKeyUnauthorized
    );
    // First acceptance creates the commitment.
    let r1 = handlers::session_request_response_new(
        &mut s,
        1,
        0,
        "come".to_string(),
        Some(session_id),
        11,
    )
    .unwrap();
    let commitment_id = r1.commitment_id.unwrap();
    let n_commitments = s.commitments.len();
    // Second acceptance, different request, same student and session:
    // the existing commitment is reused and none is appended.
    let r2 = handlers::session_request_response_new(
        &mut s,
        1,
        1,
        "same time".to_string(),
        Some(session_id),
        12,
    )
    .unwrap();
    assert_eq!(r2.commitment_id, Some(commitment_id));
    assert_eq!(s.commitments.len(), n_commitments);
    let head = commitment_service::get_by_attendee_user_id_session_id(&s, 2, session_id)
        .unwrap();
    assert_eq!(head.commitment_id, commitment_id);
    assert!(head.active);
}

#[test]
fn accept_rejects_session_of_other_course() {
    let mut s = world_for_workflow();
    // A second course (id 1) with its own session.
    handlers::course_new(&mut s, 1, 0, 0, "Art".to_string(), "".to_string(), false, 7).unwrap();
    let other = handlers::session_new(
        &mut s,
        1,
        1,
        "other".to_string(),
        10,
        20,
        Vec::new(),
        8,
    )
    .unwrap();
    handlers::session_request_new(&mut s, 2, 0, "help".to_string(), 10, 20, 9).unwrap();
    assert_eq!(
        handlers::session_request_response_new(
            &mut s,
            1,
            0,
            "wrong".to_string(),
            Some(other.session_id),
            10
        )
        .unwrap_err(),
        HoursError::ApiKeyUnauthorized
    );
    assert_eq!(
        handlers::session_request_response_new(&mut s, 1, 0, "gone".to_string(), Some(77), 10)
            .unwrap_err(),
        HoursError::SessionNonexistent
    );
}

#[test]
fn session_new_commits_listed_students() {
    let mut s = world_for_workflow();
    let before = s.commitments.len();
    let sd = handlers::session_new(
        &mut s,
        1,
        0,
        "lab".to_string(),
        10,
        20,
        vec![2],
        9,
    )
    .unwrap();
    assert_eq!(s.commitments.len(), before + 1);
    let head = commitment_service::get_by_attendee_user_id_session_id(&s, 2, sd.session_id)
        .unwrap();
    assert_eq!(head.attendee_user_id, 2);
    // A non-student attendee aborts the whole operation.
    let n_sessions = s.sessions.len();
    assert_eq!(
        handlers::session_new(&mut s, 1, 0, "bad".to_string(), 10, 20, vec![2, 9], 10)
            .unwrap_err(),
        HoursError::UserNonexistent
    );
    assert_eq!(s.sessions.len(), n_sessions);
    assert_eq!(s.commitments.len(), before + 1);
}

#[test]
fn commitment_new_requires_instructor_and_students() {
    let mut s = world_for_workflow();
    let sd = handlers::session_new(
        &mut s,
        1,
        0,
        "lab".to_string(),
        10,
        20,
        Vec::new(),
        9,
    )
    .unwrap();
    assert_eq!(
        handlers::commitment_new(&mut s, 2, sd.session_id, vec![2], true, 10).unwrap_err(),
        HoursError::ApiKeyUnauthorized
    );
    assert_eq!(
        handlers::commitment_new(&mut s, 1, 55, vec![2], true, 10).unwrap_err(),
        HoursError::SessionNonexistent
    );
    let made = handlers::commitment_new(&mut s, 1, sd.session_id, vec![2], true, 10).unwrap();
    assert_eq!(made.len(), 1);
    assert_eq!(made[0].attendee_user_id, 2);
    assert_eq!(
        handlers::commitment_new(&mut s, 1, sd.session_id, vec![7], true, 11).unwrap_err(),
        HoursError::UserNonexistent
    );
}

#[test]
fn session_data_new_requires_instructor() {
    let mut s = world_for_workflow();
    let sd = handlers::session_new(
        &mut s,
        1,
        0,
        "lab".to_string(),
        10,
        20,
        Vec::new(),
        9,
    )
    .unwrap();
    assert_eq!(
        handlers::session_data_new(
            &mut s,
            2,
            sd.session_id,
            "moved".to_string(),
            15,
            25,
            true,
            10
        )
        .unwrap_err(),
        HoursError::ApiKeyUnauthorized
    );
    let updated = handlers::session_data_new(
        &mut s,
        1,
        sd.session_id,
        "moved".to_string(),
        15,
        25,
        true,
        10,
    )
    .unwrap();
    assert_eq!(updated.start_time, 15);
    assert_eq!(
        handlers::session_data_new(&mut s, 1, 44, "x".to_string(), 15, 25, true, 10)
            .unwrap_err(),
        HoursError::SessionNonexistent
    );
}
