//! Immutable marker records for externally-sourced events.

use vstd::prelude::*;
use crate::types::ExternalEvent;
use crate::store::{Store, StoreModel, wf};

verus! {

/// The external event with the given identifier, if it was ever recorded.
pub open spec fn external_event_by_id(m: StoreModel, external_event_id: u64) -> Option<
    ExternalEvent,
> {
    if external_event_id < m.external_events.len() {
        Some(m.external_events[external_event_id as int])
    } else {
        None
    }
}

/// Appends a new external event record with a fresh identifier.
pub fn add(s: &mut Store, creator_user_id: u64, now: u64) -> (r: ExternalEvent)
    requires
        wf(old(s)@),
    ensures
        wf(final(s)@),
        final(s)@ == (StoreModel {
            external_events: old(s)@.external_events.push(r),
            ..old(s)@
        }),
        r == (ExternalEvent {
            external_event_id: old(s)@.external_events.len() as u64,
            creation_time: now,
            creator_user_id,
        }),
{
    let r = ExternalEvent {
        external_event_id: s.external_events.len() as u64,
        creation_time: now,
        creator_user_id,
    };
    s.external_events.push(r);
    proof {
        assert(s@ =~= (StoreModel {
            external_events: old(s)@.external_events.push(r),
            ..old(s)@
        }));
    }
    r
}

/// Looks an external event up by identifier.
pub fn get_by_external_event_id(s: &Store, external_event_id: u64) -> (r: Option<ExternalEvent>)
    requires
        wf(s@),
    ensures
        r == external_event_by_id(s@, external_event_id),
{
    if external_event_id < s.external_events.len() as u64 {
        Some(s.external_events[external_event_id as usize])
    } else {
        None
    }
}

} // verus!
