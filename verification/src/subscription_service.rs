//! Subscription records; the chain is keyed by the creating user.

use vstd::prelude::*;
use crate::types::{Subscription, SubscriptionKind};
use crate::store::{
    Store, StoreModel, wf, head_of, lemma_head_of_take_full, lemma_head_of_take_succ,
};

verus! {

/// The current subscription of a user: the head of the chain of
/// subscription records the user created.
pub open spec fn subscription_head(m: StoreModel, user_id: u64) -> Option<Subscription> {
    head_of(m.subscriptions, |x: Subscription| x.creator_user_id == user_id)
}

/// Appends a new subscription record with a fresh identifier.
pub fn add(
    s: &mut Store,
    creator_user_id: u64,
    subscription_kind: SubscriptionKind,
    max_uses: u64,
    payment_id: u64,
    now: u64,
) -> (r: Subscription)
    requires
        wf(old(s)@),
    ensures
        wf(final(s)@),
        final(s)@ == (StoreModel {
            subscriptions: old(s)@.subscriptions.push(r),
            ..old(s)@
        }),
        r == (Subscription {
            subscription_id: old(s)@.subscriptions.len() as u64,
            creation_time: now,
            creator_user_id,
            subscription_kind,
            max_uses,
            payment_id,
        }),
{
    let r = Subscription {
        subscription_id: s.subscriptions.len() as u64,
        creation_time: now,
        creator_user_id,
        subscription_kind,
        max_uses,
        payment_id,
    };
    s.subscriptions.push(r);
    proof {
        assert(s@ =~= (StoreModel { subscriptions: old(s)@.subscriptions.push(r), ..old(s)@ }));
    }
    r
}

/// Resolves the current subscription record of a user.
#[verifier::loop_isolation(false)]
pub fn get_by_user_id(s: &Store, user_id: u64) -> (r: Option<Subscription>)
    ensures
        r == subscription_head(s@, user_id),
{
    let ghost p = |x: Subscription| x.creator_user_id == user_id;
    let mut i = s.subscriptions.len();
    proof {
        lemma_head_of_take_full(s@.subscriptions, p);
    }
    while i > 0
        invariant
            i <= s.subscriptions.len(),
            head_of(s@.subscriptions, p) == head_of(s@.subscriptions.take(i as int), p),
        decreases i,
    {
        i = i - 1;
        proof {
            lemma_head_of_take_succ(s@.subscriptions, p, i as int);
        }
        let x = s.subscriptions[i];
        if x.creator_user_id == user_id {
            return Some(x);
        }
    }
    None
}

/// Looks a subscription record up by its own identifier.
pub fn get_by_subscription_id(s: &Store, subscription_id: u64) -> (r: Option<Subscription>)
    requires
        wf(s@),
    ensures
        r == if subscription_id < s@.subscriptions.len() {
            Some(s@.subscriptions[subscription_id as int])
        } else {
            None::<Subscription>
        },
{
    if subscription_id < s.subscriptions.len() as u64 {
        Some(s.subscriptions[subscription_id as usize])
    } else {
        None
    }
}

} // verus!
