//! Versioned active flags of school key definitions, keyed by token.

use vstd::prelude::*;
use crate::types::SchoolKeyData;
use crate::store::{Store, StoreModel, wf, head_of};

verus! {

/// The current data record of a school key: the head of its chain.
pub open spec fn school_key_data_head(m: StoreModel, school_key_key: u64) -> Option<
    SchoolKeyData,
> {
    head_of(m.school_key_datas, |d: SchoolKeyData| d.school_key_key == school_key_key)
}

/// Appends a new data record for a school key, making it the key's head.
pub fn add(
    s: &mut Store,
    creator_user_id: u64,
    school_key_key: u64,
    active: bool,
    now: u64,
) -> (r: SchoolKeyData)
    requires
        wf(old(s)@),
    ensures
        wf(final(s)@),
        final(s)@ == (StoreModel {
            school_key_datas: old(s)@.school_key_datas.push(r),
            ..old(s)@
        }),
        r == (SchoolKeyData {
            school_key_data_id: old(s)@.school_key_datas.len() as u64,
            creation_time: now,
            creator_user_id,
            school_key_key,
            active,
        }),
{
    let r = SchoolKeyData {
        school_key_data_id: s.school_key_datas.len() as u64,
        creation_time: now,
        creator_user_id,
        school_key_key,
        active,
    };
    s.school_key_datas.push(r);
    proof {
        assert(s@ =~= (StoreModel {
            school_key_datas: old(s)@.school_key_datas.push(r),
            ..old(s)@
        }));
    }
    r
}

} // verus!
