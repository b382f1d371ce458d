//! Chain mechanics: fresh increasing identifiers, head resolution, and the
//! append-only shape of the store.

use innexgo_hours::store::Store;
use innexgo_hours::types::{AdminshipKind, CourseMembershipKind};
use innexgo_hours::{adminship_service, course_membership_service, school_data_service};

#[test]
fn identifiers_increase_with_insertion_order() {
    let mut s = Store::new();
    let a = adminship_service::add(&mut s, 1, 1, 7, AdminshipKind::Admin, None, 100);
    let b = adminship_service::add(&mut s, 1, 2, 7, AdminshipKind::Admin, None, 101);
    let c = adminship_service::add(&mut s, 1, 1, 8, AdminshipKind::Admin, None, 102);
    assert_eq!(a.adminship_id, 0);
    assert_eq!(b.adminship_id, 1);
    assert_eq!(c.adminship_id, 2);
    assert_eq!(
        adminship_service::get_by_adminship_id(&s, 1).unwrap().user_id,
        2
    );
    assert!(adminship_service::get_by_adminship_id(&s, 3).is_none());
}

#[test]
fn head_is_maximum_identifier_of_chain() {
    let mut s = Store::new();
    adminship_service::add(&mut s, 1, 5, 7, AdminshipKind::Admin, None, 100);
    adminship_service::add(&mut s, 1, 6, 7, AdminshipKind::Admin, None, 101);
    adminship_service::add(&mut s, 1, 5, 7, AdminshipKind::Cancel, None, 102);
    let head = adminship_service::get_by_user_id_school_id(&s, 5, 7).unwrap();
    assert_eq!(head.adminship_id, 2);
    assert_eq!(head.adminship_kind, AdminshipKind::Cancel);
    let other = adminship_service::get_by_user_id_school_id(&s, 6, 7).unwrap();
    assert_eq!(other.adminship_id, 1);
    assert!(adminship_service::get_by_user_id_school_id(&s, 9, 7).is_none());
}

#[test]
fn resolve_none_iff_chain_empty() {
    let mut s = Store::new();
    assert!(course_membership_service::get_by_user_id_course_id(&s, 4, 2).is_none());
    course_membership_service::add(&mut s, 4, 4, 2, CourseMembershipKind::Student, None, 50);
    assert!(course_membership_service::get_by_user_id_course_id(&s, 4, 2).is_some());
}

#[test]
fn appends_preserve_existing_records() {
    let mut s = Store::new();
    let first = school_data_service::add(
        &mut s,
        1,
        0,
        "North".to_string(),
        "first".to_string(),
        true,
        10,
    );
    school_data_service::add(&mut s, 1, 0, "South".to_string(), "second".to_string(), false, 11);
    // The superseded record is still present and unchanged.
    let kept = school_data_service::get_by_school_data_id(&s, first.school_data_id).unwrap();
    assert_eq!(kept.name, "North");
    assert_eq!(kept.description, "first");
    assert!(kept.active);
    // The head moved to the newer record.
    let head = school_data_service::get_by_school_id(&s, 0).unwrap();
    assert_eq!(head.name, "South");
    assert!(!school_data_service::is_active_by_school_id(&s, 0));
}

#[test]
fn head_per_user_listing() {
    let mut s = Store::new();
    adminship_service::add(&mut s, 1, 5, 7, AdminshipKind::Admin, None, 100);
    adminship_service::add(&mut s, 1, 5, 8, AdminshipKind::Admin, None, 101);
    adminship_service::add(&mut s, 1, 5, 7, AdminshipKind::Cancel, None, 102);
    let heads = adminship_service::get_by_user_id(&s, 5);
    assert_eq!(heads.len(), 2);
    assert_eq!(adminship_service::count_valid_adminships_by_user_id(&s, 5), 1);
    assert_eq!(adminship_service::count_admins(&s, 8), 1);
    assert_eq!(adminship_service::count_admins(&s, 7), 0);
}
