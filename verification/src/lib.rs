//! Append-only versioned-entity store with an authorization-gated workflow
//! engine for schools, courses, and attendance.
//!
//! Every mutable fact (membership, adminship, active flags, scheduling) is an
//! immutable record in a time-ordered version chain; "current state" is the
//! record with the highest identifier among those sharing a natural key.
//! Mutating operations resolve current state, check the caller's role, check
//! structural invariants, and append new records — or fail leaving the store
//! untouched.

pub mod types;
pub mod store;
pub mod subscription_service;
pub mod school_service;
pub mod school_data_service;
pub mod school_duration_service;
pub mod school_duration_data_service;
pub mod school_key_service;
pub mod school_key_data_service;
pub mod adminship_service;
pub mod location_service;
pub mod location_data_service;
pub mod course_service;
pub mod course_data_service;
pub mod course_key_service;
pub mod course_key_data_service;
pub mod course_membership_service;
pub mod session_service;
pub mod session_data_service;
pub mod session_request_service;
pub mod session_request_response_service;
pub mod commitment_service;
pub mod encounter_service;
pub mod stay_service;
pub mod stay_data_service;
pub mod external_event_service;
pub mod handlers;
pub mod views;
pub mod laws;
