//! Immutable location existence records.

use vstd::prelude::*;
use crate::types::Location;
use crate::store::{Store, StoreModel, wf};

verus! {

/// The location with the given identifier, if it was ever created.
pub open spec fn location_by_id(m: StoreModel, location_id: u64) -> Option<Location> {
    if location_id < m.locations.len() {
        Some(m.locations[location_id as int])
    } else {
        None
    }
}

/// Appends a new location record with a fresh identifier.
pub fn add(s: &mut Store, creator_user_id: u64, school_id: u64, now: u64) -> (r: Location)
    requires
        wf(old(s)@),
    ensures
        wf(final(s)@),
        final(s)@ == (StoreModel { locations: old(s)@.locations.push(r), ..old(s)@ }),
        r == (Location {
            location_id: old(s)@.locations.len() as u64,
            creation_time: now,
            creator_user_id,
            school_id,
        }),
{
    let r = Location {
        location_id: s.locations.len() as u64,
        creation_time: now,
        creator_user_id,
        school_id,
    };
    s.locations.push(r);
    proof {
        assert(s@ =~= (StoreModel { locations: old(s)@.locations.push(r), ..old(s)@ }));
    }
    r
}

/// Looks a location up by identifier.
pub fn get_by_location_id(s: &Store, location_id: u64) -> (r: Option<Location>)
    requires
        wf(s@),
    ensures
        r == location_by_id(s@, location_id),
{
    if location_id < s.locations.len() as u64 {
        Some(s.locations[location_id as usize])
    } else {
        None
    }
}

} // verus!
