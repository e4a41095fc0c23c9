//! The mathematical model behind vote tallies: how many users currently vote
//! a given direction on a given ad.

use vstd::prelude::*;
use crate::records::User;
use crate::vote::{lookup, VoteDirection};

verus! {

/// 1 if this user's current vote on ad `k` is `d`, else 0.
pub open spec fn vote_weight(u: User, k: u64, d: VoteDirection) -> nat {
    if lookup(u.votes_cast@, k) == Some(d) {
        1nat
    } else {
        0nat
    }
}

/// How many of `users` currently vote `d` on ad `k`.
pub open spec fn count_votes(users: Seq<User>, k: u64, d: VoteDirection) -> nat
    decreases users.len(),
{
    if users.len() == 0 {
        0nat
    } else {
        count_votes(users.drop_last(), k, d) + vote_weight(users.last(), k, d)
    }
}

/// A tally never exceeds the number of users.
pub proof fn lemma_count_bound(users: Seq<User>, k: u64, d: VoteDirection)
    ensures
        count_votes(users, k, d) <= users.len(),
    decreases users.len(),
{
    if users.len() > 0 {
        lemma_count_bound(users.drop_last(), k, d);
    }
}

/// Appending a user adds exactly that user's weight.
pub proof fn lemma_count_push(users: Seq<User>, u: User, k: u64, d: VoteDirection)
    ensures
        count_votes(users.push(u), k, d) == count_votes(users, k, d) + vote_weight(u, k, d),
{
    assert(users.push(u).drop_last() =~= users);
    assert(users.push(u).last() == u);
}

/// Replacing the user at `i` shifts the tally by the difference of the old
/// and new weights (stated additively).
pub proof fn lemma_count_update(users: Seq<User>, i: int, u2: User, k: u64, d: VoteDirection)
    requires
        0 <= i < users.len(),
    ensures
        count_votes(users.update(i, u2), k, d) + vote_weight(users[i], k, d) == count_votes(
            users,
            k,
            d,
        ) + vote_weight(u2, k, d),
    decreases users.len(),
{
    let t = users.update(i, u2);
    if i == users.len() - 1 {
        assert(t.last() == u2);
        assert(t.drop_last() =~= users.drop_last());
    } else {
        assert(t.last() == users.last());
        assert(t.drop_last() =~= users.drop_last().update(i, u2));
        assert(users.drop_last()[i] == users[i]);
        lemma_count_update(users.drop_last(), i, u2, k, d);
    }
}

/// The tally splits into the weight at `i` and the tally of the rest.
pub proof fn lemma_count_split(users: Seq<User>, i: int, k: u64, d: VoteDirection)
    requires
        0 <= i < users.len(),
    ensures
        count_votes(users, k, d) == count_votes(users.remove(i), k, d) + vote_weight(
            users[i],
            k,
            d,
        ),
    decreases users.len(),
{
    let t = users.remove(i);
    if i == users.len() - 1 {
        assert(t =~= users.drop_last());
    } else {
        assert(t.last() == users.last());
        assert(t.drop_last() =~= users.drop_last().remove(i));
        assert(users.drop_last()[i] == users[i]);
        lemma_count_split(users.drop_last(), i, k, d);
    }
}

/// A user who votes `d` on `k` makes the tally at least 1; one who does not
/// leaves room below the user count.
pub proof fn lemma_count_member(users: Seq<User>, i: int, k: u64, d: VoteDirection)
    requires
        0 <= i < users.len(),
    ensures
        vote_weight(users[i], k, d) == 1 ==> count_votes(users, k, d) >= 1,
        vote_weight(users[i], k, d) == 0 ==> count_votes(users, k, d) <= users.len() - 1,
{
    lemma_count_split(users, i, k, d);
    lemma_count_bound(users.remove(i), k, d);
}

/// If no user votes `d` on `k`, the tally is 0.
pub proof fn lemma_count_zero(users: Seq<User>, k: u64, d: VoteDirection)
    requires
        forall|i: int| 0 <= i < users.len() ==> vote_weight(#[trigger] users[i], k, d) == 0,
    ensures
        count_votes(users, k, d) == 0,
    decreases users.len(),
{
    if users.len() > 0 {
        assert(forall|i: int|
            0 <= i < users.len() - 1 ==> users.drop_last()[i] == #[trigger] users[i]);
        lemma_count_zero(users.drop_last(), k, d);
    }
}

} // verus!
