//! Versioned interval data of stays.

use vstd::prelude::*;
use crate::types::{StayBound, StayData};
use crate::store::{Store, StoreModel, wf, head_of};

verus! {

/// The current data record of a stay: the head of its version chain.
pub open spec fn stay_data_head(m: StoreModel, stay_id: u64) -> Option<StayData> {
    head_of(m.stay_datas, |d: StayData| d.stay_id == stay_id)
}

/// Appends a new data record for a stay, making it the stay's head.
pub fn add(
    s: &mut Store,
    creator_user_id: u64,
    stay_id: u64,
    fst: StayBound,
    snd: StayBound,
    active: bool,
    now: u64,
) -> (r: StayData)
    requires
        wf(old(s)@),
    ensures
        wf(final(s)@),
        final(s)@ == (StoreModel { stay_datas: old(s)@.stay_datas.push(r), ..old(s)@ }),
        r == (StayData {
            stay_data_id: old(s)@.stay_datas.len() as u64,
            creation_time: now,
            creator_user_id,
            stay_id,
            fst,
            snd,
            active,
        }),
{
    let r = StayData {
        stay_data_id: s.stay_datas.len() as u64,
        creation_time: now,
        creator_user_id,
        stay_id,
        fst,
        snd,
        active,
    };
    s.stay_datas.push(r);
    proof {
        assert(s@ =~= (StoreModel { stay_datas: old(s)@.stay_datas.push(r), ..old(s)@ }));
    }
    r
}

} // verus!
