//! Read-only derived views: snapshots, per-user lookups, the log tail,
//! counts, and the score-sorted listing.

use vstd::prelude::*;
use crate::identity::Identity;
use crate::records::{AdEntry, LogEntry, User};
use crate::state::State;
use crate::vote::{lookup, VoteDirection};

verus! {

/// The ordering of the score-sorted listing: higher score first, ties broken
/// by ascending id.
pub open spec fn score(e: AdEntry) -> int {
    e.ad.votes_up - e.ad.votes_down
}

/// `a` may stand at or before `b` in the sorted listing.
pub open spec fn precedes(a: AdEntry, b: AdEntry) -> bool {
    score(a) > score(b) || (score(a) == score(b) && a.id <= b.id)
}

/// Exec comparison deciding `precedes`.
fn precedes_exec(a: &AdEntry, b: &AdEntry) -> (r: bool)
    ensures
        r == precedes(*a, *b),
{
    let sa: i128 = a.ad.votes_up as i128 - a.ad.votes_down as i128;
    let sb: i128 = b.ad.votes_up as i128 - b.ad.votes_down as i128;
    sa > sb || (sa == sb && a.id <= b.id)
}

/// Appending an element extends a filtered sequence by that element exactly
/// when it satisfies the predicate.
proof fn lemma_filter_push(s: Seq<AdEntry>, e: AdEntry, pred: spec_fn(AdEntry) -> bool)
    ensures
        s.push(e).filter(pred) == (if pred(e) {
            s.filter(pred).push(e)
        } else {
            s.filter(pred)
        }),
{
    reveal(Seq::filter);
    assert(s.push(e).drop_last() =~= s);
    assert(s.push(e).last() == e);
}

impl State {
    /// A snapshot of every stored ad with its id, in id order.
    pub fn get_ads(&self) -> (r: Vec<AdEntry>)
        ensures
            r@ == self.ads@,
    {
        let mut r: Vec<AdEntry> = Vec::new();
        let mut i: usize = 0;
        while i < self.ads.len()
            invariant
                i <= self.ads@.len(),
                r@ == self.ads@.subrange(0, i as int),
            decreases self.ads@.len() - i,
        {
            r.push(self.ads[i].clone());
            i += 1;
        }
        proof {
            assert(r@ =~= self.ads@);
        }
        r
    }

    /// The caller's own registry record, if any; the anonymous identity
    /// always sees nothing.
    pub fn get_user_profile(&self, caller: Identity) -> (r: Option<User>)
        requires
            self.wf(),
        ensures
            r is Some <==> (!caller.spec_is_anonymous() && self.registered(caller)),
            r is Some ==> {
                let u = self.users@[self.user_index(caller)];
                &&& r->Some_0.identity == u.identity
                &&& r->Some_0.registered_at == u.registered_at
                &&& r->Some_0.ads_created@ == u.ads_created@
                &&& r->Some_0.votes_cast@ == u.votes_cast@
            },
    {
        if caller.is_anonymous() {
            return None;
        }
        match self.find_user(caller) {
            Some(i) => {
                proof {
                    let wi = self.user_index(caller);
                    assert(self.users@[wi].identity == caller);
                }
                Some(self.users[i].duplicate())
            },
            None => None,
        }
    }

    /// The caller's current vote on an ad, if any; the anonymous identity
    /// always sees nothing.
    pub fn get_user_vote_on_ad(&self, caller: Identity, ad_id: u64) -> (r: Option<VoteDirection>)
        requires
            self.wf(),
        ensures
            caller.spec_is_anonymous() ==> r is None,
            !caller.spec_is_anonymous() && !self.registered(caller) ==> r is None,
            !caller.spec_is_anonymous() && self.registered(caller) ==> r == lookup(
                self.users@[self.user_index(caller)].votes_cast@,
                ad_id,
            ),
    {
        if caller.is_anonymous() {
            return None;
        }
        match self.find_user(caller) {
            Some(i) => {
                proof {
                    let wi = self.user_index(caller);
                    assert(self.users@[wi].identity == caller);
                }
                crate::vote::votes_get(&self.users[i].votes_cast, ad_id)
            },
            None => None,
        }
    }

    /// The most recent `limit` log entries (default 100), oldest first,
    /// never more than are stored.
    pub fn get_logs(&self, limit: Option<u32>) -> (r: Vec<LogEntry>)
        ensures
            ({
                let lim: int = match limit {
                    Some(l) => l as int,
                    None => 100int,
                };
                let n: int = if self.logs@.len() <= lim {
                    self.logs@.len() as int
                } else {
                    lim
                };
                r@ == self.logs@.subrange(self.logs@.len() - n, self.logs@.len() as int)
            }),
    {
        let lim: usize = match limit {
            Some(l) => l as usize,
            None => 100,
        };
        let len = self.logs.len();
        let start: usize = if len > lim {
            len - lim
        } else {
            0
        };
        let mut r: Vec<LogEntry> = Vec::new();
        let mut i: usize = start;
        while i < len
            invariant
                start <= i <= len,
                len == self.logs@.len(),
                r@ == self.logs@.subrange(start as int, i as int),
            decreases len - i,
        {
            r.push(self.logs[i].clone());
            i += 1;
        }
        proof {
            assert(r@ =~= self.logs@.subrange(
                self.logs@.len() - (if self.logs@.len() <= (match limit {
                    Some(l) => l as int,
                    None => 100int,
                }) {
                    self.logs@.len() as int
                } else {
                    (match limit {
                        Some(l) => l as int,
                        None => 100int,
                    })
                }),
                self.logs@.len() as int,
            ));
        }
        r
    }

    /// How many ads, users and log entries are stored.
    pub fn get_stats(&self) -> (r: (u64, u64, u64))
        ensures
            r.0 == self.ads@.len(),
            r.1 == self.users@.len(),
            r.2 == self.logs@.len(),
    {
        (self.ads.len() as u64, self.users.len() as u64, self.logs.len() as u64)
    }

    /// Every stored ad owned by the given identity, in id order.
    pub fn get_ads_by_user(&self, owner: Identity) -> (r: Vec<AdEntry>)
        ensures
            r@ == self.ads@.filter(|e: AdEntry| e.ad.owner == owner),
    {
        let ghost pred = |e: AdEntry| e.ad.owner == owner;
        let mut r: Vec<AdEntry> = Vec::new();
        let mut i: usize = 0;
        proof {
            reveal(Seq::filter);
            assert(self.ads@.subrange(0, 0) =~= Seq::<AdEntry>::empty());
            assert(r@ == self.ads@.subrange(0, 0).filter(pred));
        }
        while i < self.ads.len()
            invariant
                i <= self.ads@.len(),
                r@ == self.ads@.subrange(0, i as int).filter(pred),
                pred == (|e: AdEntry| e.ad.owner == owner),
            decreases self.ads@.len() - i,
        {
            let ghost prefix = self.ads@.subrange(0, i as int);
            if self.ads[i].ad.owner.raw == owner.raw {
                assert(self.ads@[i as int].ad.owner == owner);
                r.push(self.ads[i].clone());
            }
            proof {
                lemma_filter_push(prefix, self.ads@[i as int], pred);
                assert(self.ads@.subrange(0, i + 1) =~= prefix.push(self.ads@[i as int]));
            }
            i += 1;
        }
        proof {
            assert(self.ads@.subrange(0, self.ads@.len() as int) =~= self.ads@);
        }
        r
    }

    /// The full listing sorted by score (upvotes minus downvotes) in
    /// descending order, equal scores ordered by ascending id. The result
    /// lists each stored ad exactly once.
    pub fn get_ads_sorted_by_votes(&self) -> (r: Vec<AdEntry>)
        requires
            self.wf(),
        ensures
            r@.len() == self.ads@.len(),
            forall|i: int|
                0 <= i < r@.len() ==> self.has_ad((#[trigger] r@[i]).id) && r@[i] == self.ads@[
                    r@[i].id - 1],
            forall|i: int, j: int| 0 <= i < j < r@.len() ==> (#[trigger] r@[i]).id != (
                #[trigger] r@[j]).id,
            forall|i: int, j: int| 0 <= i < j < r@.len() ==> precedes(#[trigger] r@[i], (
                #[trigger] r@[j])),
    {
        let mut r = self.get_ads();
        let n = r.len();
        proof {
            assert forall|i: int| 0 <= i < r@.len() implies self.has_ad((#[trigger] r@[i]).id)
                && r@[i] == self.ads@[r@[i].id - 1] by {
                assert(r@[i] == self.ads@[i]);
                assert(self.ads@[i].id == i + 1);
            }
        }
        let mut i: usize = 0;
        while i < n
            invariant
                i <= n,
                n == r@.len(),
                n == self.ads@.len(),
                forall|a: int|
                    0 <= a < r@.len() ==> self.has_ad((#[trigger] r@[a]).id) && r@[a] == self.ads@[
                        r@[a].id - 1],
                forall|a: int, b: int| 0 <= a < b < r@.len() ==> (#[trigger] r@[a]).id != (
                    #[trigger] r@[b]).id,
                forall|a: int, b: int| 0 <= a < b < i ==> precedes(#[trigger] r@[a], (
                    #[trigger] r@[b])),
                forall|a: int, b: int|
                    0 <= a < i && i <= b < r@.len() ==> precedes(#[trigger] r@[a], (
                        #[trigger] r@[b])),
            decreases n - i,
        {
            let mut best: usize = i;
            let mut j: usize = i + 1;
            while j < n
                invariant
                    i <= best < j <= n,
                    n == r@.len(),
                    forall|k: int| i <= k < j ==> precedes(r@[best as int], #[trigger] r@[k]),
                decreases n - j,
            {
                if precedes_exec(&r[j], &r[best]) {
                    best = j;
                }
                j += 1;
            }
            if best != i {
                let ghost before = r@;
                let eb = r.remove(best);
                let ei = r.remove(i);
                r.insert(i, eb);
                r.insert(best, ei);
                proof {
                    assert(r@ =~= before.update(i as int, before[best as int]).update(
                        best as int,
                        before[i as int],
                    ));
                }
            }
            i += 1;
        }
        r
    }
}

} // verus!
