//! Immutable session request records: a student's request for a session in
//! a time window.

use vstd::prelude::*;
use crate::types::SessionRequest;
use crate::store::{Store, StoreModel, wf};

verus! {

/// The session request with the given identifier, if it was ever created.
pub open spec fn session_request_by_id(m: StoreModel, session_request_id: u64) -> Option<
    SessionRequest,
> {
    if session_request_id < m.session_requests.len() {
        Some(m.session_requests[session_request_id as int])
    } else {
        None
    }
}

/// Appends a new session request with a fresh identifier.
pub fn add(
    s: &mut Store,
    creator_user_id: u64,
    course_id: u64,
    message: String,
    start_time: u64,
    end_time: u64,
    now: u64,
) -> (r: SessionRequest)
    requires
        wf(old(s)@),
    ensures
        wf(final(s)@),
        final(s)@ == (StoreModel {
            session_requests: old(s)@.session_requests.push(r),
            ..old(s)@
        }),
        r == (SessionRequest {
            session_request_id: old(s)@.session_requests.len() as u64,
            creation_time: now,
            creator_user_id,
            course_id,
            message,
            start_time,
            end_time,
        }),
{
    let r = SessionRequest {
        session_request_id: s.session_requests.len() as u64,
        creation_time: now,
        creator_user_id,
        course_id,
        message,
        start_time,
        end_time,
    };
    let r2 = r.clone();
    s.session_requests.push(r2);
    proof {
        assert(s@ =~= (StoreModel {
            session_requests: old(s)@.session_requests.push(r),
            ..old(s)@
        }));
    }
    r
}

/// Looks a session request up by identifier.
pub fn get_by_session_request_id(s: &Store, session_request_id: u64) -> (r: Option<
    SessionRequest,
>)
    requires
        wf(s@),
    ensures
        r == session_request_by_id(s@, session_request_id),
{
    if session_request_id < s.session_requests.len() as u64 {
        Some(s.session_requests[session_request_id as usize].clone())
    } else {
        None
    }
}

} // verus!
