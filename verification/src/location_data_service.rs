//! Versioned descriptive data of locations; the chain is keyed by location.

use vstd::prelude::*;
use crate::types::LocationData;
use crate::store::{
    Store, StoreModel, wf, head_of, lemma_head_of_take_full, lemma_head_of_take_succ,
};

verus! {

/// The current data record of a location: the head of its version chain.
pub open spec fn location_data_head(m: StoreModel, location_id: u64) -> Option<LocationData> {
    head_of(m.location_datas, |d: LocationData| d.location_id == location_id)
}

/// A location is active when its current data record says so.
pub open spec fn location_is_active(m: StoreModel, location_id: u64) -> bool {
    match location_data_head(m, location_id) {
        Some(d) => d.active,
        None => false,
    }
}

/// Appends a new data record for a location, making it the location's head.
pub fn add(
    s: &mut Store,
    creator_user_id: u64,
    location_id: u64,
    name: String,
    address: String,
    phone: String,
    active: bool,
    now: u64,
) -> (r: LocationData)
    requires
        wf(old(s)@),
    ensures
        wf(final(s)@),
        final(s)@ == (StoreModel {
            location_datas: old(s)@.location_datas.push(r),
            ..old(s)@
        }),
        r == (LocationData {
            location_data_id: old(s)@.location_datas.len() as u64,
            creation_time: now,
            creator_user_id,
            location_id,
            name,
            address,
            phone,
            active,
        }),
{
    let r = LocationData {
        location_data_id: s.location_datas.len() as u64,
        creation_time: now,
        creator_user_id,
        location_id,
        name,
        address,
        phone,
        active,
    };
    let r2 = r.clone();
    s.location_datas.push(r2);
    proof {
        assert(s@ =~= (StoreModel { location_datas: old(s)@.location_datas.push(r), ..old(s)@ }));
    }
    r
}

/// Resolves the current data record of a location.
#[verifier::loop_isolation(false)]
pub fn get_by_location_id(s: &Store, location_id: u64) -> (r: Option<LocationData>)
    ensures
        r == location_data_head(s@, location_id),
{
    let ghost p = |d: LocationData| d.location_id == location_id;
    let mut i = s.location_datas.len();
    proof {
        lemma_head_of_take_full(s@.location_datas, p);
    }
    while i > 0
        invariant
            i <= s.location_datas.len(),
            head_of(s@.location_datas, p) == head_of(s@.location_datas.take(i as int), p),
        decreases i,
    {
        i = i - 1;
        proof {
            lemma_head_of_take_succ(s@.location_datas, p, i as int);
        }
        if s.location_datas[i].location_id == location_id {
            return Some(s.location_datas[i].clone());
        }
    }
    None
}

/// Resolves whether a location's current data is active.
pub fn is_active_by_location_id(s: &Store, location_id: u64) -> (r: bool)
    ensures
        r == location_is_active(s@, location_id),
{
    match get_by_location_id(s, location_id) {
        Some(d) => d.active,
        None => false,
    }
}

} // verus!
