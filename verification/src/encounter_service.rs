//! Immutable physical-presence observations.

use vstd::prelude::*;
use crate::types::{Encounter, EncounterKind};
use crate::store::{Store, StoreModel, wf};

verus! {

/// The encounter with the given identifier, if it was ever recorded.
pub open spec fn encounter_by_id(m: StoreModel, encounter_id: u64) -> Option<Encounter> {
    if encounter_id < m.encounters.len() {
        Some(m.encounters[encounter_id as int])
    } else {
        None
    }
}

/// Appends a new encounter record with a fresh identifier.
pub fn add(
    s: &mut Store,
    creator_user_id: u64,
    location_id: u64,
    attendee_user_id: u64,
    encounter_kind: EncounterKind,
    now: u64,
) -> (r: Encounter)
    requires
        wf(old(s)@),
    ensures
        wf(final(s)@),
        final(s)@ == (StoreModel { encounters: old(s)@.encounters.push(r), ..old(s)@ }),
        r == (Encounter {
            encounter_id: old(s)@.encounters.len() as u64,
            creation_time: now,
            creator_user_id,
            location_id,
            attendee_user_id,
            encounter_kind,
        }),
{
    let r = Encounter {
        encounter_id: s.encounters.len() as u64,
        creation_time: now,
        creator_user_id,
        location_id,
        attendee_user_id,
        encounter_kind,
    };
    s.encounters.push(r);
    proof {
        assert(s@ =~= (StoreModel { encounters: old(s)@.encounters.push(r), ..old(s)@ }));
    }
    r
}

/// Looks an encounter up by identifier.
pub fn get_by_encounter_id(s: &Store, encounter_id: u64) -> (r: Option<Encounter>)
    requires
        wf(s@),
    ensures
        r == encounter_by_id(s@, encounter_id),
{
    if encounter_id < s.encounters.len() as u64 {
        Some(s.encounters[encounter_id as usize])
    } else {
        None
    }
}

} // verus!
