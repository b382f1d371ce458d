//! The adminship version chain, keyed by (user, school): who currently
//! administers which school, and how school keys were spent.

use vstd::prelude::*;
use crate::types::{Adminship, AdminshipKind};
use crate::store::{
    Store, StoreModel, wf, head_of, head_at, count_where, filtered, lemma_head_of_take_full,
    lemma_head_of_take_succ, lemma_head_of_none, lemma_head_at_resolves,
    lemma_head_of_position, lemma_count_where_take_full,
    lemma_count_where_take_succ, lemma_filtered_take_full, lemma_filtered_take_succ,
};

verus! {

/// The natural key of the adminship chain.
pub open spec fn adminship_key(user_id: u64, school_id: u64) -> spec_fn(Adminship) -> bool {
    |a: Adminship| a.user_id == user_id && a.school_id == school_id
}

/// The current adminship record for (user, school).
pub open spec fn adminship_head(m: StoreModel, user_id: u64, school_id: u64) -> Option<Adminship> {
    head_of(m.adminships, adminship_key(user_id, school_id))
}

/// The user currently administers the school: the head of the chain exists
/// and its kind is `Admin` (a `Cancel` head means no).
pub open spec fn is_admin_spec(m: StoreModel, user_id: u64, school_id: u64) -> bool {
    match adminship_head(m, user_id, school_id) {
        Some(a) => a.adminship_kind is Admin,
        None => false,
    }
}

/// How many adminship records reference a school key token; redemption
/// counts are derived from history, not stored.
pub open spec fn school_key_uses(m: StoreModel, school_key_key: u64) -> nat {
    count_where(m.adminships, |a: Adminship| a.school_key_key == Some(school_key_key))
}

/// Position `i` holds the current record of its (user, school) chain: no
/// later record shares its key.
pub open spec fn adminship_head_position(s: Seq<Adminship>, i: int) -> bool {
    &&& 0 <= i < s.len()
    &&& forall|j: int| i < j < s.len()
            ==> !((#[trigger] s[j]).user_id == s[i].user_id && s[j].school_id == s[i].school_id)
}

/// Number of users whose chain head for `school_id`, among the first `n`
/// records, has kind `Admin`.
pub open spec fn admin_count(s: Seq<Adminship>, school_id: u64, n: int) -> nat
    decreases n,
{
    if n <= 0 {
        0
    } else {
        admin_count(s, school_id, n - 1)
            + if adminship_head_position(s, n - 1) && s[n - 1].school_id == school_id
                && s[n - 1].adminship_kind is Admin { 1nat } else { 0nat }
    }
}

/// Number of schools the user currently administers, among the first `n`
/// records.
pub open spec fn valid_adminship_count(s: Seq<Adminship>, user_id: u64, n: int) -> nat
    decreases n,
{
    if n <= 0 {
        0
    } else {
        valid_adminship_count(s, user_id, n - 1)
            + if adminship_head_position(s, n - 1) && s[n - 1].user_id == user_id
                && s[n - 1].adminship_kind is Admin { 1nat } else { 0nat }
    }
}

/// With identifiers equal to positions, the record at `i` is its chain's
/// head exactly when resolving its key returns a record with identifier `i`.
pub proof fn lemma_adminship_head_position_iff(s: Seq<Adminship>, i: int)
    requires
        forall|k: int| 0 <= k < s.len() ==> (#[trigger] s[k]).adminship_id == k,
        0 <= i < s.len(),
    ensures
        adminship_head_position(s, i) <==> match head_of(
            s,
            adminship_key(s[i].user_id, s[i].school_id),
        ) {
            Some(h) => h.adminship_id == i,
            None => false,
        },
{
    let p = adminship_key(s[i].user_id, s[i].school_id);
    assert(p(s[i]));
    match head_of(s, p) {
        Some(h) => {
            lemma_head_of_position(s, p, h);
            let w = choose|w: int| #[trigger] head_at(s, p, w) && s[w] == h;
            assert(s[w].adminship_id == w);
            if h.adminship_id == i {
                assert(w == i);
                assert(adminship_head_position(s, i));
            } else {
                if adminship_head_position(s, i) {
                    assert(head_at(s, p, i));
                    lemma_head_at_resolves(s, p, i);
                    assert(h == s[i]);
                }
            }
        },
        None => {
            lemma_head_of_none(s, p);
            assert(false);
        },
    }
}

/// Appends a new adminship record with a fresh identifier, making it the
/// head for (user, school).
pub fn add(
    s: &mut Store,
    creator_user_id: u64,
    user_id: u64,
    school_id: u64,
    adminship_kind: AdminshipKind,
    school_key_key: Option<u64>,
    now: u64,
) -> (r: Adminship)
    requires
        wf(old(s)@),
    ensures
        wf(final(s)@),
        final(s)@ == (StoreModel { adminships: old(s)@.adminships.push(r), ..old(s)@ }),
        r == (Adminship {
            adminship_id: old(s)@.adminships.len() as u64,
            creation_time: now,
            creator_user_id,
            user_id,
            school_id,
            adminship_kind,
            school_key_key,
        }),
{
    let r = Adminship {
        adminship_id: s.adminships.len() as u64,
        creation_time: now,
        creator_user_id,
        user_id,
        school_id,
        adminship_kind,
        school_key_key,
    };
    s.adminships.push(r);
    proof {
        assert(s@ =~= (StoreModel { adminships: old(s)@.adminships.push(r), ..old(s)@ }));
    }
    r
}

/// Looks an adminship record up by its own identifier.
pub fn get_by_adminship_id(s: &Store, adminship_id: u64) -> (r: Option<Adminship>)
    requires
        wf(s@),
    ensures
        r == if adminship_id < s@.adminships.len() {
            Some(s@.adminships[adminship_id as int])
        } else {
            None::<Adminship>
        },
{
    if adminship_id < s.adminships.len() as u64 {
        Some(s.adminships[adminship_id as usize])
    } else {
        None
    }
}

/// Resolves the current adminship record for (user, school).
#[verifier::loop_isolation(false)]
pub fn get_by_user_id_school_id(s: &Store, user_id: u64, school_id: u64) -> (r: Option<
    Adminship,
>)
    ensures
        r == adminship_head(s@, user_id, school_id),
{
    let ghost p = adminship_key(user_id, school_id);
    let mut i = s.adminships.len();
    proof {
        lemma_head_of_take_full(s@.adminships, p);
    }
    while i > 0
        invariant
            i <= s.adminships.len(),
            head_of(s@.adminships, p) == head_of(s@.adminships.take(i as int), p),
        decreases i,
    {
        i = i - 1;
        proof {
            lemma_head_of_take_succ(s@.adminships, p, i as int);
        }
        let a = s.adminships[i];
        if a.user_id == user_id && a.school_id == school_id {
            return Some(a);
        }
    }
    None
}

/// Whether the user currently administers the school.
pub fn is_admin(s: &Store, user_id: u64, school_id: u64) -> (r: bool)
    ensures
        r == is_admin_spec(s@, user_id, school_id),
{
    match get_by_user_id_school_id(s, user_id, school_id) {
        Some(a) => matches!(a.adminship_kind, AdminshipKind::Admin),
        None => false,
    }
}

/// All current adminship records of a user, one per school chain the user
/// appears in, in identifier order: exactly the records that are their
/// chain's head and carry the user.
#[verifier::loop_isolation(false)]
pub fn get_by_user_id(s: &Store, user_id: u64) -> (r: Vec<Adminship>)
    requires
        wf(s@),
    ensures
        r@ == filtered(
            s@.adminships,
            |a: Adminship| a.user_id == user_id
                && adminship_head_position(s@.adminships, a.adminship_id as int),
        ),
{
    let ghost p = |a: Adminship| a.user_id == user_id
        && adminship_head_position(s@.adminships, a.adminship_id as int);
    let mut r: Vec<Adminship> = Vec::new();
    let mut i: usize = 0;
    proof {
        assert(r@ =~= filtered(s@.adminships.take(0), p));
    }
    while i < s.adminships.len()
        invariant
            i <= s.adminships.len(),
            r@ == filtered(s@.adminships.take(i as int), p),
        decreases s.adminships.len() - i,
    {
        proof {
            lemma_filtered_take_succ(s@.adminships, p, i as int);
        }
        let a = s.adminships[i];
        if a.user_id == user_id {
            let keep = match get_by_user_id_school_id(s, a.user_id, a.school_id) {
                Some(h) => h.adminship_id == i as u64,
                None => false,
            };
            proof {
                lemma_adminship_head_position_iff(s@.adminships, i as int);
            }
            if keep {
                r.push(a);
            }
        }
        i = i + 1;
    }
    proof {
        lemma_filtered_take_full(s@.adminships, p);
    }
    r
}

/// Number of users whose current adminship at the school is `Admin`.
#[verifier::loop_isolation(false)]
pub fn count_admins(s: &Store, school_id: u64) -> (r: u64)
    requires
        wf(s@),
    ensures
        r as nat == admin_count(s@.adminships, school_id, s@.adminships.len() as int),
{
    let mut r: u64 = 0;
    let mut i: usize = 0;
    while i < s.adminships.len()
        invariant
            wf(s@),
            i <= s.adminships.len(),
            r as nat == admin_count(s@.adminships, school_id, i as int),
            r <= i,
        decreases s.adminships.len() - i,
    {
        let a = s.adminships[i];
        if a.school_id == school_id && matches!(a.adminship_kind, AdminshipKind::Admin) {
            let keep = match get_by_user_id_school_id(s, a.user_id, a.school_id) {
                Some(h) => h.adminship_id == i as u64,
                None => false,
            };
            proof {
                lemma_adminship_head_position_iff(s@.adminships, i as int);
            }
            if keep {
                r = r + 1;
            }
        } else {
            proof {
                assert(!(s@.adminships[i as int].school_id == school_id
                    && s@.adminships[i as int].adminship_kind is Admin));
            }
        }
        i = i + 1;
    }
    r
}

/// Number of schools the user currently administers.
#[verifier::loop_isolation(false)]
pub fn count_valid_adminships_by_user_id(s: &Store, user_id: u64) -> (r: u64)
    requires
        wf(s@),
    ensures
        r as nat == valid_adminship_count(s@.adminships, user_id, s@.adminships.len() as int),
{
    let mut r: u64 = 0;
    let mut i: usize = 0;
    while i < s.adminships.len()
        invariant
            wf(s@),
            i <= s.adminships.len(),
            r as nat == valid_adminship_count(s@.adminships, user_id, i as int),
            r <= i,
        decreases s.adminships.len() - i,
    {
        let a = s.adminships[i];
        if a.user_id == user_id && matches!(a.adminship_kind, AdminshipKind::Admin) {
            let keep = match get_by_user_id_school_id(s, a.user_id, a.school_id) {
                Some(h) => h.adminship_id == i as u64,
                None => false,
            };
            proof {
                lemma_adminship_head_position_iff(s@.adminships, i as int);
            }
            if keep {
                r = r + 1;
            }
        } else {
            proof {
                assert(!(s@.adminships[i as int].user_id == user_id
                    && s@.adminships[i as int].adminship_kind is Admin));
            }
        }
        i = i + 1;
    }
    r
}

/// Number of adminship records that were created by redeeming the given
/// school key token.
#[verifier::loop_isolation(false)]
pub fn count_school_key_uses(s: &Store, school_key_key: u64) -> (r: u64)
    ensures
        r as nat == school_key_uses(s@, school_key_key),
{
    let ghost p = |a: Adminship| a.school_key_key == Some(school_key_key);
    let mut r: u64 = 0;
    let mut i: usize = 0;
    while i < s.adminships.len()
        invariant
            i <= s.adminships.len(),
            r as nat == count_where(s@.adminships.take(i as int), p),
            r <= i,
        decreases s.adminships.len() - i,
    {
        proof {
            lemma_count_where_take_succ(s@.adminships, p, i as int);
        }
        let a = s.adminships[i];
        let hit = match a.school_key_key {
            Some(k) => k == school_key_key,
            None => false,
        };
        if hit {
            r = r + 1;
        }
        i = i + 1;
    }
    proof {
        lemma_count_where_take_full(s@.adminships, p);
    }
    r
}

} // verus!
