//! Record types for every version chain, the role/kind enums, and the error
//! taxonomy shared by all operations.

use vstd::prelude::*;

verus! {

/// Role granted by an adminship record; `Cancel` marks the relationship
/// inactive without deleting history.
#[derive(Clone, Copy, Debug, PartialEq, Eq, Structural)]
pub enum AdminshipKind {
    Admin,
    Cancel,
}

/// Role granted by a course membership record.
#[derive(Clone, Copy, Debug, PartialEq, Eq, Structural)]
pub enum CourseMembershipKind {
    Student,
    Instructor,
    Cancel,
}

/// Kind of a subscription record.
#[derive(Clone, Copy, Debug, PartialEq, Eq, Structural)]
pub enum SubscriptionKind {
    Valid,
    Cancel,
}

/// How a physical-presence observation was produced.
#[derive(Clone, Copy, Debug, PartialEq, Eq, Structural)]
pub enum EncounterKind {
    Manual,
    Hardware,
}

/// One endpoint of a stay interval: either a reference to an encounter
/// record or an explicit timestamp.
#[derive(Clone, Copy, Debug, PartialEq, Eq, Structural)]
pub enum StayBound {
    ByEncounter(u64),
    AtTime(u64),
}

/// Error taxonomy returned by every operation.
#[derive(Clone, Copy, Debug, PartialEq, Eq, Structural)]
pub enum HoursError {
    ApiKeyNonexistent,
    ApiKeyUnauthorized,
    SubscriptionNonexistent,
    SubscriptionLimited,
    SchoolNonexistent,
    SchoolArchived,
    SchoolDurationNonexistent,
    SchoolKeyNonexistent,
    SchoolKeyExpired,
    SchoolKeyUsed,
    AdminshipCannotLeaveEmpty,
    LocationNonexistent,
    LocationArchived,
    CourseNonexistent,
    CourseArchived,
    CourseKeyNonexistent,
    CourseKeyExpired,
    CourseKeyUsed,
    CourseMembershipCannotLeaveEmpty,
    SessionNonexistent,
    SessionRequestNonexistent,
    SessionRequestResponseExistent,
    CommitmentNonexistent,
    EncounterNonexistent,
    StayNonexistent,
    StayProvidedNoTime,
    StayProvidedDoubleTime,
    StayEncounterWrongLocation,
    StayEncounterWrongUser,
    UserNonexistent,
    NegativeDuration,
    AuthInternalServerError,
    AuthBadRequest,
    AuthOther,
    InternalServerError,
}

/// Error categories of the external identity-verification service, as the
/// core sees them.  Categories beyond the ones the core distinguishes are
/// collapsed into `Other`.
#[derive(Clone, Copy, Debug, PartialEq, Eq, Structural)]
pub enum AuthError {
    ApiKeyNonexistent,
    ApiKeyUnauthorized,
    InternalServerError,
    MethodNotAllowed,
    BadRequest,
    Other,
}

/// A per-user subscription; its head (by creator) caps how many schools the
/// user may administer.
#[derive(Clone, Copy, Debug, PartialEq, Eq, Structural)]
pub struct Subscription {
    pub subscription_id: u64,
    pub creation_time: u64,
    pub creator_user_id: u64,
    pub subscription_kind: SubscriptionKind,
    pub max_uses: u64,
    pub payment_id: u64,
}

/// Immutable existence record of a school.
#[derive(Clone, Copy, Debug, PartialEq, Eq, Structural)]
pub struct School {
    pub school_id: u64,
    pub creation_time: u64,
    pub creator_user_id: u64,
    pub whole: bool,
}

/// Versioned descriptive data of a school; the head carries the current
/// name, description and active flag.
#[derive(Debug)]
pub struct SchoolData {
    pub school_data_id: u64,
    pub creation_time: u64,
    pub creator_user_id: u64,
    pub school_id: u64,
    pub name: String,
    pub description: String,
    pub active: bool,
}

impl Clone for SchoolData {
    fn clone(&self) -> (r: Self)
        ensures
            r == *self,
    {
        SchoolData {
            school_data_id: self.school_data_id,
            creation_time: self.creation_time,
            creator_user_id: self.creator_user_id,
            school_id: self.school_id,
            name: self.name.clone(),
            description: self.description.clone(),
            active: self.active,
        }
    }
}

/// Immutable existence record of a recurring school duration.
#[derive(Clone, Copy, Debug, PartialEq, Eq, Structural)]
pub struct SchoolDuration {
    pub school_duration_id: u64,
    pub creation_time: u64,
    pub creator_user_id: u64,
    pub school_id: u64,
}

/// Versioned data of a school duration.
#[derive(Clone, Copy, Debug, PartialEq, Eq, Structural)]
pub struct SchoolDurationData {
    pub school_duration_data_id: u64,
    pub creation_time: u64,
    pub creator_user_id: u64,
    pub school_duration_id: u64,
    pub day: u64,
    pub minute_start: u64,
    pub minute_end: u64,
    pub active: bool,
}

/// Immutable definition of a single-use school adminship key: an opaque
/// token valid in `[start_time, end_time]`.
#[derive(Clone, Copy, Debug, PartialEq, Eq, Structural)]
pub struct SchoolKey {
    pub school_key_key: u64,
    pub creation_time: u64,
    pub creator_user_id: u64,
    pub school_id: u64,
    pub start_time: u64,
    pub end_time: u64,
}

/// Versioned active flag of a school key definition.
#[derive(Clone, Copy, Debug, PartialEq, Eq, Structural)]
pub struct SchoolKeyData {
    pub school_key_data_id: u64,
    pub creation_time: u64,
    pub creator_user_id: u64,
    pub school_key_key: u64,
    pub active: bool,
}

/// One record in the adminship chain keyed by (user, school).
#[derive(Clone, Copy, Debug, PartialEq, Eq, Structural)]
pub struct Adminship {
    pub adminship_id: u64,
    pub creation_time: u64,
    pub creator_user_id: u64,
    pub user_id: u64,
    pub school_id: u64,
    pub adminship_kind: AdminshipKind,
    pub school_key_key: Option<u64>,
}

/// Immutable existence record of a location.
#[derive(Clone, Copy, Debug, PartialEq, Eq, Structural)]
pub struct Location {
    pub location_id: u64,
    pub creation_time: u64,
    pub creator_user_id: u64,
    pub school_id: u64,
}

/// Versioned descriptive data of a location.
#[derive(Debug)]
pub struct LocationData {
    pub location_data_id: u64,
    pub creation_time: u64,
    pub creator_user_id: u64,
    pub location_id: u64,
    pub name: String,
    pub address: String,
    pub phone: String,
    pub active: bool,
}

impl Clone for LocationData {
    fn clone(&self) -> (r: Self)
        ensures
            r == *self,
    {
        LocationData {
            location_data_id: self.location_data_id,
            creation_time: self.creation_time,
            creator_user_id: self.creator_user_id,
            location_id: self.location_id,
            name: self.name.clone(),
            address: self.address.clone(),
            phone: self.phone.clone(),
            active: self.active,
        }
    }
}

/// Immutable existence record of a course.
#[derive(Clone, Copy, Debug, PartialEq, Eq, Structural)]
pub struct Course {
    pub course_id: u64,
    pub creation_time: u64,
    pub creator_user_id: u64,
    pub school_id: u64,
}

/// Versioned descriptive data of a course; the head carries the current
/// location, name and active flag.
#[derive(Debug)]
pub struct CourseData {
    pub course_data_id: u64,
    pub creation_time: u64,
    pub creator_user_id: u64,
    pub course_id: u64,
    pub location_id: u64,
    pub name: String,
    pub description: String,
    pub homeroom: bool,
    pub active: bool,
}

impl Clone for CourseData {
    fn clone(&self) -> (r: Self)
        ensures
            r == *self,
    {
        CourseData {
            course_data_id: self.course_data_id,
            creation_time: self.creation_time,
            creator_user_id: self.creator_user_id,
            course_id: self.course_id,
            location_id: self.location_id,
            name: self.name.clone(),
            description: self.description.clone(),
            homeroom: self.homeroom,
            active: self.active,
        }
    }
}

/// Immutable definition of a use-capped course enrollment key.
#[derive(Clone, Copy, Debug, PartialEq, Eq, Structural)]
pub struct CourseKey {
    pub course_key_key: u64,
    pub creation_time: u64,
    pub creator_user_id: u64,
    pub course_id: u64,
    pub max_uses: u64,
    pub course_membership_kind: CourseMembershipKind,
    pub start_time: u64,
    pub end_time: u64,
}

/// Versioned active flag of a course key definition.
#[derive(Clone, Copy, Debug, PartialEq, Eq, Structural)]
pub struct CourseKeyData {
    pub course_key_data_id: u64,
    pub creation_time: u64,
    pub creator_user_id: u64,
    pub course_key_key: u64,
    pub active: bool,
}

/// One record in the course membership chain keyed by (user, course).
#[derive(Clone, Copy, Debug, PartialEq, Eq, Structural)]
pub struct CourseMembership {
    pub course_membership_id: u64,
    pub creation_time: u64,
    pub creator_user_id: u64,
    pub user_id: u64,
    pub course_id: u64,
    pub course_membership_kind: CourseMembershipKind,
    pub course_key_key: Option<u64>,
}

/// Immutable existence record of a session.
#[derive(Clone, Copy, Debug, PartialEq, Eq, Structural)]
pub struct Session {
    pub session_id: u64,
    pub creation_time: u64,
    pub creator_user_id: u64,
    pub course_id: u64,
}

/// Versioned descriptive data of a session.
#[derive(Debug)]
pub struct SessionData {
    pub session_data_id: u64,
    pub creation_time: u64,
    pub creator_user_id: u64,
    pub session_id: u64,
    pub name: String,
    pub start_time: u64,
    pub end_time: u64,
    pub active: bool,
}

impl Clone for SessionData {
    fn clone(&self) -> (r: Self)
        ensures
            r == *self,
    {
        SessionData {
            session_data_id: self.session_data_id,
            creation_time: self.creation_time,
            creator_user_id: self.creator_user_id,
            session_id: self.session_id,
            name: self.name.clone(),
            start_time: self.start_time,
            end_time: self.end_time,
            active: self.active,
        }
    }
}

/// Immutable record of a student's request for a session in a time window.
#[derive(Debug)]
pub struct SessionRequest {
    pub session_request_id: u64,
    pub creation_time: u64,
    pub creator_user_id: u64,
    pub course_id: u64,
    pub message: String,
    pub start_time: u64,
    pub end_time: u64,
}

impl Clone for SessionRequest {
    fn clone(&self) -> (r: Self)
        ensures
            r == *self,
    {
        SessionRequest {
            session_request_id: self.session_request_id,
            creation_time: self.creation_time,
            creator_user_id: self.creator_user_id,
            course_id: self.course_id,
            message: self.message.clone(),
            start_time: self.start_time,
            end_time: self.end_time,
        }
    }
}

/// The unique resolution of a session request; `commitment_id` is fixed
/// forever: set means accepted, unset means declined.
#[derive(Debug)]
pub struct SessionRequestResponse {
    pub session_request_id: u64,
    pub creation_time: u64,
    pub creator_user_id: u64,
    pub message: String,
    pub commitment_id: Option<u64>,
}

impl Clone for SessionRequestResponse {
    fn clone(&self) -> (r: Self)
        ensures
            r == *self,
    {
        SessionRequestResponse {
            session_request_id: self.session_request_id,
            creation_time: self.creation_time,
            creator_user_id: self.creator_user_id,
            message: self.message.clone(),
            commitment_id: self.commitment_id,
        }
    }
}

/// One record in the attendance commitment chain keyed by
/// (attendee, session).
#[derive(Clone, Copy, Debug, PartialEq, Eq, Structural)]
pub struct Commitment {
    pub commitment_id: u64,
    pub creation_time: u64,
    pub creator_user_id: u64,
    pub attendee_user_id: u64,
    pub session_id: u64,
    pub active: bool,
}

/// Immutable timestamped physical-presence observation.
#[derive(Clone, Copy, Debug, PartialEq, Eq, Structural)]
pub struct Encounter {
    pub encounter_id: u64,
    pub creation_time: u64,
    pub creator_user_id: u64,
    pub location_id: u64,
    pub attendee_user_id: u64,
    pub encounter_kind: EncounterKind,
}

/// Immutable existence record of a stay.
#[derive(Clone, Copy, Debug, PartialEq, Eq, Structural)]
pub struct Stay {
    pub stay_id: u64,
    pub creation_time: u64,
    pub creator_user_id: u64,
    pub attendee_user_id: u64,
    pub location_id: u64,
}

/// Versioned interval data of a stay, bounded by two encounters or explicit
/// timestamps.
#[derive(Clone, Copy, Debug, PartialEq, Eq, Structural)]
pub struct StayData {
    pub stay_data_id: u64,
    pub creation_time: u64,
    pub creator_user_id: u64,
    pub stay_id: u64,
    pub fst: StayBound,
    pub snd: StayBound,
    pub active: bool,
}

/// Immutable marker record for an externally-sourced event.
#[derive(Clone, Copy, Debug, PartialEq, Eq, Structural)]
pub struct ExternalEvent {
    pub external_event_id: u64,
    pub creation_time: u64,
    pub creator_user_id: u64,
}

} // verus!
