//! Authorization filtering of the read endpoints.

use innexgo_hours::handlers;
use innexgo_hours::store::Store;
use innexgo_hours::types::{CourseMembershipKind, SubscriptionKind};
use innexgo_hours::views;

/// A world with two courses in school 0: course 0 instructed by user 1
/// with student 2, course 1 instructed by user 3 (via an instructor key).
fn world_two_courses() -> Store {
    let mut s = Store::new();
    handlers::subscription_new(&mut s, 1, SubscriptionKind::Valid, 1);
    handlers::school_new(&mut s, 1, "School".to_string(), "".to_string(), true, 2).unwrap();
    handlers::location_new(
        &mut s,
        1,
        0,
        "Hall".to_string(),
        "1 Main St".to_string(),
        "555".to_string(),
        3,
    )
    .unwrap();
    handlers::course_new(&mut s, 1, 0, 0, "Math".to_string(), "".to_string(), false, 4).unwrap();
    handlers::course_new(&mut s, 1, 0, 0, "Art".to_string(), "".to_string(), false, 5).unwrap();
    handlers::course_key_new(
        &mut s,
        1,
        0,
        11,
        5,
        CourseMembershipKind::Student,
        0,
        100,
        6,
    )
    .unwrap();
    handlers::course_membership_new_key(&mut s, 2, 11, 7).unwrap();
    handlers::course_key_new(
        &mut s,
        1,
        1,
        12,
        5,
        CourseMembershipKind::Instructor,
        0,
        100,
        8,
    )
    .unwrap();
    handlers::course_membership_new_key(&mut s, 3, 12, 9).unwrap();
    s
}

#[test]
fn subscription_view_keeps_own_rows() {
    let s = world_two_courses();
    let rows = s.subscriptions.clone();
    assert_eq!(views::subscription_view(&s, 1, &rows).len(), 1);
    assert_eq!(views::subscription_view(&s, 2, &rows).len(), 0);
}

#[test]
fn course_view_filters_by_membership_or_adminship() {
    let s = world_two_courses();
    let rows = s.courses.clone();
    // The admin of school 0 sees both courses.
    assert_eq!(views::course_view(&s, 1, &rows).len(), 2);
    // Student 2 sees only the course they joined.
    let seen = views::course_view(&s, 2, &rows);
    assert_eq!(seen.len(), 1);
    assert_eq!(seen[0].course_id, 0);
    // A stranger sees nothing.
    assert_eq!(views::course_view(&s, 9, &rows).len(), 0);
}

#[test]
fn course_key_view_only_for_instructors() {
    let s = world_two_courses();
    let rows = s.course_keys.clone();
    // User 3 instructs only course 1, so sees only its key.
    let seen = views::course_key_view(&s, 3, &rows);
    assert_eq!(seen.len(), 1);
    assert_eq!(seen[0].course_key_key, 12);
    // The student sees no keys.
    assert_eq!(views::course_key_view(&s, 2, &rows).len(), 0);
}

#[test]
fn membership_and_session_views_follow_membership() {
    let mut s = world_two_courses();
    handlers::session_new(&mut s, 1, 0, "lab".to_string(), 10, 20, Vec::new(), 10).unwrap();
    handlers::session_new(&mut s, 3, 1, "studio".to_string(), 10, 20, Vec::new(), 11).unwrap();
    let memberships = s.course_memberships.clone();
    let sessions = s.sessions.clone();
    // Student 2 is a member of course 0 only.
    let m_seen = views::course_membership_view(&s, 2, &memberships);
    assert!(m_seen.iter().all(|m| m.course_id == 0));
    assert!(!m_seen.is_empty());
    let s_seen = views::session_view(&s, 2, &sessions);
    assert_eq!(s_seen.len(), 1);
    assert_eq!(s_seen[0].course_id, 0);
}

#[test]
fn adminship_and_school_key_views_only_for_admins() {
    let mut s = world_two_courses();
    handlers::school_key_new(&mut s, 1, 0, 55, 0, 100, 10).unwrap();
    let keys = s.school_keys.clone();
    let adminships = s.adminships.clone();
    assert_eq!(views::school_key_view(&s, 1, &keys).len(), 1);
    assert_eq!(views::school_key_view(&s, 2, &keys).len(), 0);
    assert_eq!(views::adminship_view(&s, 1, &adminships).len(), 1);
    assert_eq!(views::adminship_view(&s, 3, &adminships).len(), 0);
}

#[test]
fn request_and_response_views_for_parties_only() {
    let mut s = world_two_courses();
    handlers::session_request_new(&mut s, 2, 0, "help".to_string(), 10, 20, 10).unwrap();
    let sd = handlers::session_new(&mut s, 1, 0, "lab".to_string(), 10, 20, Vec::new(), 11)
        .unwrap();
    handlers::session_request_response_new(
        &mut s,
        1,
        0,
        "come".to_string(),
        Some(sd.session_id),
        12,
    )
    .unwrap();
    let requests = s.session_requests.clone();
    let responses = s.session_request_responses.clone();
    // The requester and the instructor see the request; user 3 does not.
    assert_eq!(views::session_request_view(&s, 2, &requests).len(), 1);
    assert_eq!(views::session_request_view(&s, 1, &requests).len(), 1);
    assert_eq!(views::session_request_view(&s, 3, &requests).len(), 0);
    // Same for the response.
    assert_eq!(views::session_request_response_view(&s, 2, &responses).unwrap().len(), 1);
    assert_eq!(views::session_request_response_view(&s, 3, &responses).unwrap().len(), 0);
}

#[test]
fn open_views_keep_all_rows() {
    let mut s = world_two_courses();
    handlers::encounter_new(&mut s, 1, 0, 2, 20).unwrap();
    let schools = s.schools.clone();
    let school_datas = s.school_datas.clone();
    let locations = s.locations.clone();
    let location_datas = s.location_datas.clone();
    let encounters = s.encounters.clone();
    // Rows every caller may see come back unchanged, whoever asks.
    assert_eq!(views::school_view(&s, 9, &schools).len(), schools.len());
    assert_eq!(views::school_data_view(&s, 9, &school_datas).len(), school_datas.len());
    assert_eq!(views::location_view(&s, 9, &locations).len(), locations.len());
    assert_eq!(views::location_data_view(&s, 9, &location_datas).len(), location_datas.len());
    assert_eq!(views::encounter_view(&s, 9, &encounters).len(), encounters.len());
}

#[test]
fn data_views_report_consistency_faults() {
    let mut s = world_two_courses();
    handlers::session_new(&mut s, 1, 0, "lab".to_string(), 10, 20, Vec::new(), 10).unwrap();
    handlers::session_new(&mut s, 3, 1, "studio".to_string(), 10, 20, Vec::new(), 11).unwrap();
    let session_datas = s.session_datas.clone();
    // Session data follows course membership: student 2 sees only the
    // session of their own course, a stranger sees none.
    let student_rows = views::session_data_view(&s, 2, &session_datas).unwrap();
    assert_eq!(student_rows.len(), 1);
    assert_eq!(student_rows[0].name, "lab");
    assert_eq!(views::session_data_view(&s, 9, &session_datas).unwrap().len(), 0);
    // A data row pointing at a session the store does not hold is a
    // consistency fault.
    let mut broken = session_datas.clone();
    broken[0].session_id = 99;
    assert!(views::session_data_view(&s, 2, &broken).is_err());
    // Course data rows are kept for members and admins only.
    let course_datas = s.course_datas.clone();
    assert_eq!(views::course_data_view(&s, 1, &course_datas).unwrap().len(), 2);
    let student_sees = views::course_data_view(&s, 2, &course_datas).unwrap();
    assert_eq!(student_sees.len(), 1);
    assert_eq!(student_sees[0].course_id, 0);
    // Key data rows follow the instructor / admin rules of their keys.
    let course_key_datas = s.course_key_datas.clone();
    assert_eq!(
        views::course_key_data_view(&s, 3, &course_key_datas).unwrap().len(),
        1
    );
    assert_eq!(
        views::course_key_data_view(&s, 2, &course_key_datas).unwrap().len(),
        0
    );
    handlers::school_key_new(&mut s, 1, 0, 60, 0, 100, 11).unwrap();
    let school_key_datas = s.school_key_datas.clone();
    assert_eq!(
        views::school_key_data_view(&s, 1, &school_key_datas).unwrap().len(),
        1
    );
    assert_eq!(
        views::school_key_data_view(&s, 2, &school_key_datas).unwrap().len(),
        0
    );
}

#[test]
fn commitment_view_for_attendee_or_instructor() {
    let mut s = world_two_courses();
    let sd = handlers::session_new(&mut s, 1, 0, "lab".to_string(), 10, 20, vec![2], 10)
        .unwrap();
    let commitments = s.commitments.clone();
    // The attendee sees their commitment.
    assert_eq!(views::commitment_view(&s, 2, &commitments).unwrap().len(), 1);
    // The course instructor sees it too.
    assert_eq!(views::commitment_view(&s, 1, &commitments).unwrap().len(), 1);
    // The other instructor does not.
    assert_eq!(views::commitment_view(&s, 3, &commitments).unwrap().len(), 0);
    assert_eq!(sd.session_id, 0);
}
