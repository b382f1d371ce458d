//! Versioned descriptive data of schools; the chain is keyed by school.

use vstd::prelude::*;
use crate::types::SchoolData;
use crate::store::{
    Store, StoreModel, wf, head_of, lemma_head_of_take_full, lemma_head_of_take_succ,
};

verus! {

/// The current data record of a school: the head of its version chain.
pub open spec fn school_data_head(m: StoreModel, school_id: u64) -> Option<SchoolData> {
    head_of(m.school_datas, |d: SchoolData| d.school_id == school_id)
}

/// A school is active when its current data record says so; a school with
/// no data record is not active.
pub open spec fn school_is_active(m: StoreModel, school_id: u64) -> bool {
    match school_data_head(m, school_id) {
        Some(d) => d.active,
        None => false,
    }
}

/// Appends a new data record for a school, making it the school's head.
pub fn add(
    s: &mut Store,
    creator_user_id: u64,
    school_id: u64,
    name: String,
    description: String,
    active: bool,
    now: u64,
) -> (r: SchoolData)
    requires
        wf(old(s)@),
    ensures
        wf(final(s)@),
        final(s)@ == (StoreModel {
            school_datas: old(s)@.school_datas.push(r),
            ..old(s)@
        }),
        r == (SchoolData {
            school_data_id: old(s)@.school_datas.len() as u64,
            creation_time: now,
            creator_user_id,
            school_id,
            name,
            description,
            active,
        }),
{
    let r = SchoolData {
        school_data_id: s.school_datas.len() as u64,
        creation_time: now,
        creator_user_id,
        school_id,
        name,
        description,
        active,
    };
    let r2 = r.clone();
    s.school_datas.push(r2);
    proof {
        assert(s@ =~= (StoreModel { school_datas: old(s)@.school_datas.push(r), ..old(s)@ }));
    }
    r
}

/// Looks a data record up by its own identifier.
pub fn get_by_school_data_id(s: &Store, school_data_id: u64) -> (r: Option<SchoolData>)
    requires
        wf(s@),
    ensures
        r == if school_data_id < s@.school_datas.len() {
            Some(s@.school_datas[school_data_id as int])
        } else {
            None::<SchoolData>
        },
{
    if school_data_id < s.school_datas.len() as u64 {
        Some(s.school_datas[school_data_id as usize].clone())
    } else {
        None
    }
}

/// Resolves the current data record of a school.
#[verifier::loop_isolation(false)]
pub fn get_by_school_id(s: &Store, school_id: u64) -> (r: Option<SchoolData>)
    ensures
        r == school_data_head(s@, school_id),
{
    let ghost p = |d: SchoolData| d.school_id == school_id;
    let mut i = s.school_datas.len();
    proof {
        lemma_head_of_take_full(s@.school_datas, p);
    }
    while i > 0
        invariant
            i <= s.school_datas.len(),
            head_of(s@.school_datas, p) == head_of(s@.school_datas.take(i as int), p),
        decreases i,
    {
        i = i - 1;
        proof {
            lemma_head_of_take_succ(s@.school_datas, p, i as int);
        }
        if s.school_datas[i].school_id == school_id {
            return Some(s.school_datas[i].clone());
        }
    }
    None
}

/// Resolves whether a school's current data is active.
pub fn is_active_by_school_id(s: &Store, school_id: u64) -> (r: bool)
    ensures
        r == school_is_active(s@, school_id),
{
    match get_by_school_id(s, school_id) {
        Some(d) => d.active,
        None => false,
    }
}

} // verus!
