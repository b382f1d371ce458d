//! Session request resolutions: at most one per request, fixed forever.

use vstd::prelude::*;
use crate::types::{HoursError, SessionRequestResponse};
use crate::store::{
    Store, StoreModel, wf, head_of, lemma_head_of_none, lemma_head_of_take_full,
    lemma_head_of_take_succ,
};

verus! {

/// The resolution of a session request, if it has one.  Request identifiers
/// are unique among responses, so a request has at most one.
pub open spec fn response_by_request_id(m: StoreModel, session_request_id: u64) -> Option<
    SessionRequestResponse,
> {
    head_of(
        m.session_request_responses,
        |x: SessionRequestResponse| x.session_request_id == session_request_id,
    )
}

/// Appends the resolution of a session request.  A second resolution for
/// the same request violates the uniqueness constraint and is rejected as
/// an opaque internal error, leaving the store unchanged.
pub fn add(
    s: &mut Store,
    session_request_id: u64,
    creator_user_id: u64,
    message: String,
    commitment_id: Option<u64>,
    now: u64,
) -> (r: Result<SessionRequestResponse, HoursError>)
    requires
        wf(old(s)@),
    ensures
        wf(final(s)@),
        response_by_request_id(old(s)@, session_request_id) is Some ==> {
            &&& r == Err::<SessionRequestResponse, HoursError>(HoursError::InternalServerError)
            &&& final(s)@ == old(s)@
        },
        response_by_request_id(old(s)@, session_request_id) is None ==> {
            let x = SessionRequestResponse {
                session_request_id,
                creation_time: now,
                creator_user_id,
                message,
                commitment_id,
            };
            &&& r == Ok::<SessionRequestResponse, HoursError>(x)
            &&& final(s)@ == (StoreModel {
                session_request_responses: old(s)@.session_request_responses.push(x),
                ..old(s)@
            })
        },
{
    match get_by_session_request_id(s, session_request_id) {
        Some(_) => Err(HoursError::InternalServerError),
        None => {
            let x = SessionRequestResponse {
                session_request_id,
                creation_time: now,
                creator_user_id,
                message,
                commitment_id,
            };
            let x2 = x.clone();
            s.session_request_responses.push(x2);
            proof {
                lemma_head_of_none(
                    old(s)@.session_request_responses,
                    |y: SessionRequestResponse| y.session_request_id == session_request_id,
                );
                assert(s@ =~= (StoreModel {
                    session_request_responses: old(s)@.session_request_responses.push(x),
                    ..old(s)@
                }));
                assert forall|i: int, j: int|
                    0 <= i < j < s@.session_request_responses.len()
                    implies (#[trigger] s@.session_request_responses[i]).session_request_id
                        != (#[trigger] s@.session_request_responses[j]).session_request_id by {
                    if j == s@.session_request_responses.len() - 1 {
                        assert(s@.session_request_responses[i]
                            == old(s)@.session_request_responses[i]);
                    }
                }
            }
            Ok(x)
        },
    }
}

/// Resolves the response to a session request, if one exists.
#[verifier::loop_isolation(false)]
pub fn get_by_session_request_id(s: &Store, session_request_id: u64) -> (r: Option<
    SessionRequestResponse,
>)
    ensures
        r == response_by_request_id(s@, session_request_id),
{
    let ghost p = |x: SessionRequestResponse| x.session_request_id == session_request_id;
    let mut i = s.session_request_responses.len();
    proof {
        lemma_head_of_take_full(s@.session_request_responses, p);
    }
    while i > 0
        invariant
            i <= s.session_request_responses.len(),
            head_of(s@.session_request_responses, p) == head_of(
                s@.session_request_responses.take(i as int),
                p,
            ),
        decreases i,
    {
        i = i - 1;
        proof {
            lemma_head_of_take_succ(s@.session_request_responses, p, i as int);
        }
        if s.session_request_responses[i].session_request_id == session_request_id {
            return Some(s.session_request_responses[i].clone());
        }
    }
    None
}

} // verus!
