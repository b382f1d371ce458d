//! Immutable session existence records.

use vstd::prelude::*;
use crate::types::Session;
use crate::store::{Store, StoreModel, wf};

verus! {

/// The session with the given identifier, if it was ever created.
pub open spec fn session_by_id(m: StoreModel, session_id: u64) -> Option<Session> {
    if session_id < m.sessions.len() {
        Some(m.sessions[session_id as int])
    } else {
        None
    }
}

/// Appends a new session record with a fresh identifier.
pub fn add(s: &mut Store, creator_user_id: u64, course_id: u64, now: u64) -> (r: Session)
    requires
        wf(old(s)@),
    ensures
        wf(final(s)@),
        final(s)@ == (StoreModel { sessions: old(s)@.sessions.push(r), ..old(s)@ }),
        r == (Session {
            session_id: old(s)@.sessions.len() as u64,
            creation_time: now,
            creator_user_id,
            course_id,
        }),
{
    let r = Session {
        session_id: s.sessions.len() as u64,
        creation_time: now,
        creator_user_id,
        course_id,
    };
    s.sessions.push(r);
    proof {
        assert(s@ =~= (StoreModel { sessions: old(s)@.sessions.push(r), ..old(s)@ }));
    }
    r
}

/// Looks a session up by identifier.
pub fn get_by_session_id(s: &Store, session_id: u64) -> (r: Option<Session>)
    requires
        wf(s@),
    ensures
        r == session_by_id(s@, session_id),
{
    if session_id < s.sessions.len() as u64 {
        Some(s.sessions[session_id as usize])
    } else {
        None
    }
}

} // verus!
