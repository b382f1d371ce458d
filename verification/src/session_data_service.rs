//! Versioned descriptive data of sessions.

use vstd::prelude::*;
use crate::types::SessionData;
use crate::store::{Store, StoreModel, wf, head_of};

verus! {

/// The current data record of a session: the head of its version chain.
pub open spec fn session_data_head(m: StoreModel, session_id: u64) -> Option<SessionData> {
    head_of(m.session_datas, |d: SessionData| d.session_id == session_id)
}

/// Appends a new data record for a session, making it the session's head.
pub fn add(
    s: &mut Store,
    creator_user_id: u64,
    session_id: u64,
    name: String,
    start_time: u64,
    end_time: u64,
    active: bool,
    now: u64,
) -> (r: SessionData)
    requires
        wf(old(s)@),
    ensures
        wf(final(s)@),
        final(s)@ == (StoreModel {
            session_datas: old(s)@.session_datas.push(r),
            ..old(s)@
        }),
        r == (SessionData {
            session_data_id: old(s)@.session_datas.len() as u64,
            creation_time: now,
            creator_user_id,
            session_id,
            name,
            start_time,
            end_time,
            active,
        }),
{
    let r = SessionData {
        session_data_id: s.session_datas.len() as u64,
        creation_time: now,
        creator_user_id,
        session_id,
        name,
        start_time,
        end_time,
        active,
    };
    let r2 = r.clone();
    s.session_datas.push(r2);
    proof {
        assert(s@ =~= (StoreModel { session_datas: old(s)@.session_datas.push(r), ..old(s)@ }));
    }
    r
}

} // verus!
