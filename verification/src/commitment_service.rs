//! The attendance commitment chain, keyed by (attendee, session).

use vstd::prelude::*;
use crate::types::Commitment;
use crate::store::{
    Store, StoreModel, wf, head_of, lemma_head_of_take_full, lemma_head_of_take_succ,
};

verus! {

/// The current commitment record for (attendee, session).
pub open spec fn commitment_head(m: StoreModel, attendee_user_id: u64, session_id: u64) -> Option<
    Commitment,
> {
    head_of(
        m.commitments,
        |c: Commitment| c.attendee_user_id == attendee_user_id && c.session_id == session_id,
    )
}

/// Appends a new commitment record with a fresh identifier.
pub fn add(
    s: &mut Store,
    creator_user_id: u64,
    attendee_user_id: u64,
    session_id: u64,
    active: bool,
    now: u64,
) -> (r: Commitment)
    requires
        wf(old(s)@),
    ensures
        wf(final(s)@),
        final(s)@ == (StoreModel { commitments: old(s)@.commitments.push(r), ..old(s)@ }),
        r == (Commitment {
            commitment_id: old(s)@.commitments.len() as u64,
            creation_time: now,
            creator_user_id,
            attendee_user_id,
            session_id,
            active,
        }),
{
    let r = Commitment {
        commitment_id: s.commitments.len() as u64,
        creation_time: now,
        creator_user_id,
        attendee_user_id,
        session_id,
        active,
    };
    s.commitments.push(r);
    proof {
        assert(s@ =~= (StoreModel { commitments: old(s)@.commitments.push(r), ..old(s)@ }));
    }
    r
}

/// Looks a commitment up by its own identifier.
pub fn get_by_commitment_id(s: &Store, commitment_id: u64) -> (r: Option<Commitment>)
    requires
        wf(s@),
    ensures
        r == if commitment_id < s@.commitments.len() {
            Some(s@.commitments[commitment_id as int])
        } else {
            None::<Commitment>
        },
{
    if commitment_id < s.commitments.len() as u64 {
        Some(s.commitments[commitment_id as usize])
    } else {
        None
    }
}

/// Resolves the current commitment record for (attendee, session).
#[verifier::loop_isolation(false)]
pub fn get_by_attendee_user_id_session_id(
    s: &Store,
    attendee_user_id: u64,
    session_id: u64,
) -> (r: Option<Commitment>)
    ensures
        r == commitment_head(s@, attendee_user_id, session_id),
{
    let ghost p = |c: Commitment| c.attendee_user_id == attendee_user_id
        && c.session_id == session_id;
    let mut i = s.commitments.len();
    proof {
        lemma_head_of_take_full(s@.commitments, p);
    }
    while i > 0
        invariant
            i <= s.commitments.len(),
            head_of(s@.commitments, p) == head_of(s@.commitments.take(i as int), p),
        decreases i,
    {
        i = i - 1;
        proof {
            lemma_head_of_take_succ(s@.commitments, p, i as int);
        }
        let c = s.commitments[i];
        if c.attendee_user_id == attendee_user_id && c.session_id == session_id {
            return Some(c);
        }
    }
    None
}

} // verus!
