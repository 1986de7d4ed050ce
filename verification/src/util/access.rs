//! Which of a list of owned items a user may reach: those the user owns,
//! or all of them for a privileged user (a moderator or an admin, as the
//! route decides).
use vstd::prelude::*;
use crate::models::ids::UserId;

verus! {

/// Whether a user may reach an item owned by `owner`.
pub open spec fn spec_may_access(owner: UserId, user: UserId, privileged: bool) -> bool {
    owner == user || privileged
}

/// Whether a user may reach an item owned by `owner`.
pub fn may_access(owner: UserId, user: UserId, privileged: bool) -> (r: bool)
    ensures
        r == spec_may_access(owner, user, privileged),
{
    owner.0 == user.0 || privileged
}

/// The positions, in order, of the items the user may reach among items
/// owned by `owners`.
pub open spec fn spec_accessible_positions(owners: Seq<UserId>, user: UserId, privileged: bool) -> Seq<usize>
    decreases owners.len(),
{
    if owners.len() == 0 {
        Seq::empty()
    } else {
        let before = spec_accessible_positions(owners.drop_last(), user, privileged);
        if spec_may_access(owners.last(), user, privileged) {
            before.push((owners.len() - 1) as usize)
        } else {
            before
        }
    }
}

/// The positions of the items the user may reach, in order.
pub fn accessible_positions(owners: &[UserId], user: UserId, privileged: bool) -> (r: Vec<usize>)
    ensures
        r@ == spec_accessible_positions(owners@, user, privileged),
{
    let mut r: Vec<usize> = Vec::new();
    let mut i: usize = 0;
    while i < owners.len()
        invariant
            i <= owners@.len(),
            r@ == spec_accessible_positions(owners@.take(i as int), user, privileged),
        decreases owners@.len() - i,
    {
        assert(owners@.take(i + 1).drop_last() == owners@.take(i as int));
        if may_access(owners[i], user, privileged) {
            r.push(i);
        }
        i = i + 1;
    }
    assert(owners@.take(owners@.len() as int) == owners@);
    r
}

/// The positions kept are exactly those of the items the user may reach,
/// each once and in increasing order.
pub proof fn lemma_accessible_positions_exact(owners: Seq<UserId>, user: UserId, privileged: bool)
    requires
        owners.len() <= usize::MAX,
    ensures
        forall|i: int| 0 <= i < owners.len() ==>
            (spec_accessible_positions(owners, user, privileged).contains(i as usize)
                <==> spec_may_access(#[trigger] owners[i], user, privileged)),
        forall|j: int, k: int| 0 <= j < k < spec_accessible_positions(owners, user, privileged).len() ==>
            spec_accessible_positions(owners, user, privileged)[j] < spec_accessible_positions(owners, user, privileged)[k],
        forall|j: int| 0 <= j < spec_accessible_positions(owners, user, privileged).len() ==>
            spec_accessible_positions(owners, user, privileged)[j] < owners.len(),
    decreases owners.len(),
{
    if owners.len() > 0 {
        let prev = owners.drop_last();
        lemma_accessible_positions_exact(prev, user, privileged);
        let before = spec_accessible_positions(prev, user, privileged);
        let all = spec_accessible_positions(owners, user, privileged);
        assert forall|i: int| 0 <= i < owners.len() implies
            (all.contains(i as usize) <==> spec_may_access(#[trigger] owners[i], user, privileged)) by {
            if i < owners.len() - 1 {
                assert(prev[i] == owners[i]);
                if all.contains(i as usize) && !before.contains(i as usize) {
                    let j = choose|j: int| 0 <= j < all.len() && all[j] == i as usize;
                    assert(j == before.len());
                }
                if before.contains(i as usize) {
                    let j = choose|j: int| 0 <= j < before.len() && before[j] == i as usize;
                    assert(all[j] == i as usize);
                }
            } else {
                if all.contains(i as usize) && !spec_may_access(owners[i], user, privileged) {
                    let j = choose|j: int| 0 <= j < all.len() && all[j] == i as usize;
                    assert(before[j] < prev.len());
                }
                if spec_may_access(owners[i], user, privileged) {
                    assert(all[before.len() as int] == i as usize);
                }
            }
        }
    }
}

} // verus!
