//! Immutable course key definitions, keyed by their opaque token.

use vstd::prelude::*;
use crate::types::{CourseKey, CourseMembershipKind, HoursError};
use crate::store::{
    Store, StoreModel, wf, head_of, lemma_head_of_none, lemma_head_of_take_full,
    lemma_head_of_take_succ,
};

verus! {

/// The course key definition carrying the given token, if any.  Tokens are
/// unique, so the chain for a token has at most one record.
pub open spec fn course_key_by_key(m: StoreModel, course_key_key: u64) -> Option<CourseKey> {
    head_of(m.course_keys, |k: CourseKey| k.course_key_key == course_key_key)
}

/// Appends a new course key definition.  A token collision is a storage
/// fault: it is rejected as an opaque internal error and nothing changes.
pub fn add(
    s: &mut Store,
    course_key_key: u64,
    creator_user_id: u64,
    course_id: u64,
    max_uses: u64,
    course_membership_kind: CourseMembershipKind,
    start_time: u64,
    end_time: u64,
    now: u64,
) -> (r: Result<CourseKey, HoursError>)
    requires
        wf(old(s)@),
    ensures
        wf(final(s)@),
        course_key_by_key(old(s)@, course_key_key) is Some ==> {
            &&& r == Err::<CourseKey, HoursError>(HoursError::InternalServerError)
            &&& final(s)@ == old(s)@
        },
        course_key_by_key(old(s)@, course_key_key) is None ==> {
            let k = CourseKey {
                course_key_key,
                creation_time: now,
                creator_user_id,
                course_id,
                max_uses,
                course_membership_kind,
                start_time,
                end_time,
            };
            &&& r == Ok::<CourseKey, HoursError>(k)
            &&& final(s)@ == (StoreModel {
                course_keys: old(s)@.course_keys.push(k),
                ..old(s)@
            })
        },
{
    match get_by_course_key_key(s, course_key_key) {
        Some(_) => Err(HoursError::InternalServerError),
        None => {
            let k = CourseKey {
                course_key_key,
                creation_time: now,
                creator_user_id,
                course_id,
                max_uses,
                course_membership_kind,
                start_time,
                end_time,
            };
            s.course_keys.push(k);
            proof {
                lemma_head_of_none(
                    old(s)@.course_keys,
                    |x: CourseKey| x.course_key_key == course_key_key,
                );
                assert(s@ =~= (StoreModel {
                    course_keys: old(s)@.course_keys.push(k),
                    ..old(s)@
                }));
                assert forall|i: int, j: int| 0 <= i < j < s@.course_keys.len()
                    implies (#[trigger] s@.course_keys[i]).course_key_key
                        != (#[trigger] s@.course_keys[j]).course_key_key by {
                    if j == s@.course_keys.len() - 1 {
                        assert(s@.course_keys[i] == old(s)@.course_keys[i]);
                    }
                }
            }
            Ok(k)
        },
    }
}

/// Resolves a course key definition by token.
#[verifier::loop_isolation(false)]
pub fn get_by_course_key_key(s: &Store, course_key_key: u64) -> (r: Option<CourseKey>)
    ensures
        r == course_key_by_key(s@, course_key_key),
{
    let ghost p = |k: CourseKey| k.course_key_key == course_key_key;
    let mut i = s.course_keys.len();
    proof {
        lemma_head_of_take_full(s@.course_keys, p);
    }
    while i > 0
        invariant
            i <= s.course_keys.len(),
            head_of(s@.course_keys, p) == head_of(s@.course_keys.take(i as int), p),
        decreases i,
    {
        i = i - 1;
        proof {
            lemma_head_of_take_succ(s@.course_keys, p, i as int);
        }
        let k = s.course_keys[i];
        if k.course_key_key == course_key_key {
            return Some(k);
        }
    }
    None
}

} // verus!
