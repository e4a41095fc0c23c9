//! Laws relating successive operations, proved from the transition
//! predicates that the operations' contracts establish.

use vstd::prelude::*;
use crate::identity::Identity;
use crate::state::State;
use crate::tally::count_votes;
use crate::vote::{lookup, VoteDirection};

verus! {

/// In every well-formed state — and every operation returns one — an ad's
/// stored tallies equal the number of users whose current vote on that ad is
/// `Up` respectively `Down`.
pub proof fn lemma_tallies_count_votes(s: State, ad_id: u64)
    requires
        s.wf(),
        s.has_ad(ad_id),
    ensures
        s.ad_of(ad_id).ad.votes_up == count_votes(s.users@, ad_id, VoteDirection::Up),
        s.ad_of(ad_id).ad.votes_down == count_votes(s.users@, ad_id, VoteDirection::Down),
{
    assert(s.ads@[ad_id - 1].id == ad_id);
}

/// After a successful cast, the caller still sits at the same registry
/// index, is still registered, and identities are still unique.
proof fn lemma_cast_keeps_user(s0: State, s1: State, caller: Identity, ad_id: u64, d: VoteDirection, t: u64)
    requires
        s0.wf(),
        State::can_cast(s0, caller, ad_id),
        State::cast_applied(s0, s1, caller, ad_id, d, t),
    ensures
        s1.registered(caller),
        s1.user_index(caller) == s0.user_index(caller),
        s1.users@[s0.user_index(caller)].identity == caller,
{
    let ui = s0.user_index(caller);
    assert(s0.users@[ui].identity == caller);
    assert(s1.users@[ui].identity == caller);
    assert(s1.registered(caller));
    let wi = s1.user_index(caller);
    assert(s1.users@[wi].identity == caller);
    if wi != ui {
        assert(s0.users@[wi].identity == s1.users@[wi].identity);
    }
}

/// Casting the same direction twice on the same ad: the second cast leaves
/// both tallies exactly as the first left them, and the recorded vote still
/// holds that direction.
pub proof fn lemma_recast_same_direction(
    s0: State,
    s1: State,
    s2: State,
    caller: Identity,
    ad_id: u64,
    d: VoteDirection,
    t1: u64,
    t2: u64,
)
    requires
        s0.wf(),
        State::can_cast(s0, caller, ad_id),
        State::cast_applied(s0, s1, caller, ad_id, d, t1),
        State::cast_applied(s1, s2, caller, ad_id, d, t2),
    ensures
        s2.ad_of(ad_id).ad.votes_up == s1.ad_of(ad_id).ad.votes_up,
        s2.ad_of(ad_id).ad.votes_down == s1.ad_of(ad_id).ad.votes_down,
        lookup(s2.users@[s0.user_index(caller)].votes_cast@, ad_id) == Some(d),
{
    lemma_cast_keeps_user(s0, s1, caller, ad_id, d, t1);
    let ui = s0.user_index(caller);
    assert(lookup(s1.users@[ui].votes_cast@, ad_id) == Some(d));
}

/// Casting `Up` and then `Down` on the same ad: the second cast moves
/// exactly one unit from the up tally to the down tally.
pub proof fn lemma_cast_flip(
    s0: State,
    s1: State,
    s2: State,
    caller: Identity,
    ad_id: u64,
    t1: u64,
    t2: u64,
)
    requires
        s0.wf(),
        State::can_cast(s0, caller, ad_id),
        State::cast_applied(s0, s1, caller, ad_id, VoteDirection::Up, t1),
        State::cast_applied(s1, s2, caller, ad_id, VoteDirection::Down, t2),
    ensures
        s2.ad_of(ad_id).ad.votes_up == s1.ad_of(ad_id).ad.votes_up - 1,
        s2.ad_of(ad_id).ad.votes_down == s1.ad_of(ad_id).ad.votes_down + 1,
{
    lemma_cast_keeps_user(s0, s1, caller, ad_id, VoteDirection::Up, t1);
    let ui = s0.user_index(caller);
    assert(lookup(s1.users@[ui].votes_cast@, ad_id) == Some(VoteDirection::Up));
}

/// Retracting right after casting a fresh vote returns both tallies exactly
/// to their pre-cast values, and afterwards there is nothing left to
/// retract: a second retraction cannot succeed.
pub proof fn lemma_retract_after_cast(
    s0: State,
    s1: State,
    s2: State,
    caller: Identity,
    ad_id: u64,
    d: VoteDirection,
    t1: u64,
    t2: u64,
)
    requires
        s0.wf(),
        State::can_cast(s0, caller, ad_id),
        lookup(s0.users@[s0.user_index(caller)].votes_cast@, ad_id) is None,
        State::cast_applied(s0, s1, caller, ad_id, d, t1),
        State::retract_applied(s1, s2, caller, ad_id, t2),
    ensures
        s2.ad_of(ad_id).ad.votes_up == s0.ad_of(ad_id).ad.votes_up,
        s2.ad_of(ad_id).ad.votes_down == s0.ad_of(ad_id).ad.votes_down,
        !State::can_retract(s2, caller, ad_id),
{
    lemma_cast_keeps_user(s0, s1, caller, ad_id, d, t1);
    let ui = s0.user_index(caller);
    assert(lookup(s1.users@[ui].votes_cast@, ad_id) == Some(d));
    assert(lookup(s2.users@[ui].votes_cast@, ad_id) is None);
    assert(s2.users@[ui].identity == caller);
    let wi = s2.user_index(caller);
    assert(s2.users@[wi].identity == caller);
    if wi != ui {
        assert(s1.users@[wi].identity == s2.users@[wi].identity);
        assert(s0.users@[wi].identity == s1.users@[wi].identity);
    }
}

} // verus!
