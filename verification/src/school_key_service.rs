//! Immutable school key definitions, keyed by their opaque token.

use vstd::prelude::*;
use crate::types::{HoursError, SchoolKey};
use crate::store::{
    Store, StoreModel, wf, head_of, lemma_head_of_none, lemma_head_of_take_full,
    lemma_head_of_take_succ,
};

verus! {

/// The school key definition carrying the given token, if any.  Tokens are
/// unique, so the chain for a token has at most one record.
pub open spec fn school_key_by_key(m: StoreModel, school_key_key: u64) -> Option<SchoolKey> {
    head_of(m.school_keys, |k: SchoolKey| k.school_key_key == school_key_key)
}

/// Appends a new school key definition.  A token collision is a storage
/// fault: it is rejected as an opaque internal error and nothing changes.
pub fn add(
    s: &mut Store,
    school_key_key: u64,
    creator_user_id: u64,
    school_id: u64,
    start_time: u64,
    end_time: u64,
    now: u64,
) -> (r: Result<SchoolKey, HoursError>)
    requires
        wf(old(s)@),
    ensures
        wf(final(s)@),
        school_key_by_key(old(s)@, school_key_key) is Some ==> {
            &&& r == Err::<SchoolKey, HoursError>(HoursError::InternalServerError)
            &&& final(s)@ == old(s)@
        },
        school_key_by_key(old(s)@, school_key_key) is None ==> {
            let k = SchoolKey {
                school_key_key,
                creation_time: now,
                creator_user_id,
                school_id,
                start_time,
                end_time,
            };
            &&& r == Ok::<SchoolKey, HoursError>(k)
            &&& final(s)@ == (StoreModel {
                school_keys: old(s)@.school_keys.push(k),
                ..old(s)@
            })
        },
{
    match get_by_school_key_key(s, school_key_key) {
        Some(_) => Err(HoursError::InternalServerError),
        None => {
            let k = SchoolKey {
                school_key_key,
                creation_time: now,
                creator_user_id,
                school_id,
                start_time,
                end_time,
            };
            s.school_keys.push(k);
            proof {
                lemma_head_of_none(
                    old(s)@.school_keys,
                    |x: SchoolKey| x.school_key_key == school_key_key,
                );
                assert(s@ =~= (StoreModel {
                    school_keys: old(s)@.school_keys.push(k),
                    ..old(s)@
                }));
                assert forall|i: int, j: int| 0 <= i < j < s@.school_keys.len()
                    implies (#[trigger] s@.school_keys[i]).school_key_key
                        != (#[trigger] s@.school_keys[j]).school_key_key by {
                    if j == s@.school_keys.len() - 1 {
                        assert(s@.school_keys[i] == old(s)@.school_keys[i]);
                    }
                }
            }
            Ok(k)
        },
    }
}

/// Resolves a school key definition by token.
#[verifier::loop_isolation(false)]
pub fn get_by_school_key_key(s: &Store, school_key_key: u64) -> (r: Option<SchoolKey>)
    ensures
        r == school_key_by_key(s@, school_key_key),
{
    let ghost p = |k: SchoolKey| k.school_key_key == school_key_key;
    let mut i = s.school_keys.len();
    proof {
        lemma_head_of_take_full(s@.school_keys, p);
    }
    while i > 0
        invariant
            i <= s.school_keys.len(),
            head_of(s@.school_keys, p) == head_of(s@.school_keys.take(i as int), p),
        decreases i,
    {
        i = i - 1;
        proof {
            lemma_head_of_take_succ(s@.school_keys, p, i as int);
        }
        let k = s.school_keys[i];
        if k.school_key_key == school_key_key {
            return Some(k);
        }
    }
    None
}

} // verus!
