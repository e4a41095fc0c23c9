//! The authoritative ledger state: registry, ad store, activity log and the
//! id counter, with the invariants that keep them mutually consistent, and
//! the write operations that preserve them.

use vstd::prelude::*;
use vstd::string::StrSliceExecFns;
use crate::identity::Identity;
use crate::records::{AdEntry, AddAdResponse, AuthResponse, LogEntry, LogLevel, User};
use crate::tally::{count_votes, lemma_count_push, vote_weight};
use crate::vote::{lookup, unique_keys, VoteDirection};

verus! {

/// The single authoritative state shared by all calls. One call runs to
/// completion before the next begins, so every operation below is atomic
/// with respect to other calls.
pub struct State {
    /// Registered users; at most one record per identity.
    pub users: Vec<User>,
    /// All ads; the ad with id `i + 1` sits at index `i`.
    pub ads: Vec<AdEntry>,
    /// The bounded activity log, oldest first.
    pub logs: Vec<LogEntry>,
    /// The id the next successful creation will take.
    pub next_id: u64,
}

/// `post` is `pre` with `e` appended, after evicting the oldest entry if the
/// log was full; `e` carries the given level, identity and timestamp.
pub open spec fn log_appended(
    pre: Seq<LogEntry>,
    post: Seq<LogEntry>,
    level: LogLevel,
    who: Option<Identity>,
    now: u64,
) -> bool {
    &&& post.len() >= 1
    &&& post.last().level == level
    &&& post.last().identity == who
    &&& post.last().timestamp == now
    &&& if pre.len() < 1000 {
        post == pre.push(post.last())
    } else {
        post == pre.subrange(1, pre.len() as int).push(post.last())
    }
}

impl State {
    /// Some user record carries this identity.
    pub open spec fn registered(self, id: Identity) -> bool {
        exists|i: int| 0 <= i < self.users@.len() && (#[trigger] self.users@[i]).identity == id
    }

    /// The index of the user record carrying this identity (meaningful only
    /// when `registered(id)`; well defined because identities are unique).
    pub open spec fn user_index(self, id: Identity) -> int {
        choose|i: int| 0 <= i < self.users@.len() && (#[trigger] self.users@[i]).identity == id
    }

    /// The ad store holds an ad with this id.
    pub open spec fn has_ad(self, ad_id: u64) -> bool {
        1 <= ad_id <= self.ads@.len()
    }

    /// The stored entry for this id (meaningful only when `has_ad(ad_id)`).
    pub open spec fn ad_of(self, ad_id: u64) -> AdEntry {
        self.ads@[ad_id - 1]
    }

    /// Ids are assigned 1, 2, ... in creation order and the counter points
    /// one past the newest.
    pub open spec fn ids_sequential(self) -> bool {
        &&& self.next_id == self.ads@.len() + 1
        &&& forall|i: int| 0 <= i < self.ads@.len() ==> (#[trigger] self.ads@[i]).id == i + 1
    }

    /// User records: unique identities, never the anonymous sentinel, vote
    /// records with unique keys, and votes only on stored ads.
    pub open spec fn users_well_formed(self) -> bool {
        &&& forall|i: int, j: int|
            0 <= i < j < self.users@.len() ==> (#[trigger] self.users@[i]).identity != (
            #[trigger] self.users@[j]).identity
        &&& forall|i: int|
            0 <= i < self.users@.len() ==> !(#[trigger] self.users@[i]).identity.spec_is_anonymous()
        &&& forall|i: int|
            0 <= i < self.users@.len() ==> unique_keys((#[trigger] self.users@[i]).votes_cast@)
        &&& forall|i: int, k: u64|
            0 <= i < self.users@.len() && #[trigger] lookup(
                self.users@[i].votes_cast@,
                k,
            ) is Some ==> 1 <= k <= self.ads@.len()
    }

    /// Every ad's tallies equal the number of users whose current vote on it
    /// is `Up` respectively `Down`.
    pub open spec fn tallies_consistent(self) -> bool {
        forall|i: int|
            0 <= i < self.ads@.len() ==> (#[trigger] self.ads@[i]).ad.votes_up == count_votes(
                self.users@,
                self.ads@[i].id,
                VoteDirection::Up,
            ) && self.ads@[i].ad.votes_down == count_votes(
                self.users@,
                self.ads@[i].id,
                VoteDirection::Down,
            )
    }

    /// No user holds a vote record for an ad they own.
    pub open spec fn no_self_votes(self) -> bool {
        forall|i: int, j: int|
            0 <= i < self.users@.len() && 0 <= j < self.ads@.len() && (
            #[trigger] self.ads@[j]).ad.owner == (#[trigger] self.users@[i]).identity ==> lookup(
                self.users@[i].votes_cast@,
                self.ads@[j].id,
            ) is None
    }

    /// The state invariant, restored by every operation before it returns.
    pub open spec fn wf(self) -> bool {
        &&& self.ids_sequential()
        &&& self.users_well_formed()
        &&& self.tallies_consistent()
        &&& self.no_self_votes()
        &&& self.logs@.len() <= 1000
    }

    /// Registry, ad store and id counter are untouched.
    pub open spec fn only_logs_changed(pre: State, post: State) -> bool {
        &&& post.users@ == pre.users@
        &&& post.ads@ == pre.ads@
        &&& post.next_id == pre.next_id
    }

    /// The empty ledger.
    pub fn new() -> (s: State)
        ensures
            s.wf(),
            s.users@.len() == 0,
            s.ads@.len() == 0,
            s.logs@.len() == 0,
            s.next_id == 1,
    {
        State { users: Vec::new(), ads: Vec::new(), logs: Vec::new(), next_id: 1 }
    }

    /// Appends one entry to the activity log, evicting the oldest entry when
    /// the log already holds 1000.
    pub fn record(&mut self, level: LogLevel, message: String, who: Option<Identity>, now: u64)
        requires
            old(self).logs@.len() <= 1000,
        ensures
            State::only_logs_changed(*old(self), *final(self)),
            final(self).logs@.len() <= 1000,
            log_appended(old(self).logs@, final(self).logs@, level, who, now),
            final(self).logs@.last().message == message,
    {
        let entry = LogEntry { timestamp: now, level, message, identity: who };
        self.logs.push(entry);
        if self.logs.len() > 1000 {
            self.logs.remove(0);
            proof {
                assert(final(self).logs@ =~= old(self).logs@.subrange(
                    1,
                    old(self).logs@.len() as int,
                ).push(final(self).logs@.last()));
            }
        }
    }

    /// Finds the index of the caller's user record.
    pub(crate) fn find_user(&self, id: Identity) -> (r: Option<usize>)
        ensures
            match r {
                Some(i) => i < self.users@.len() && self.users@[i as int].identity == id,
                None => !self.registered(id),
            },
            r is Some <==> self.registered(id),
    {
        let mut i: usize = 0;
        while i < self.users.len()
            invariant
                i <= self.users@.len(),
                forall|j: int| 0 <= j < i ==> (#[trigger] self.users@[j]).identity != id,
            decreases self.users@.len() - i,
        {
            if self.users[i].identity.raw == id.raw {
                assert(self.users@[i as int].identity == id);
                return Some(i);
            }
            i += 1;
        }
        None
    }

    /// Registers the caller. The anonymous identity is refused; an identity
    /// already registered is left exactly as it was (registration is
    /// idempotent); otherwise a fresh record with empty ad and vote lists is
    /// appended. A log entry is written either way.
    pub fn register_user(&mut self, caller: Identity, now: u64) -> (r: AuthResponse)
        requires
            old(self).wf(),
        ensures
            final(self).wf(),
            final(self).ads@ == old(self).ads@,
            final(self).next_id == old(self).next_id,
            r.identity == caller,
            r.success == !caller.spec_is_anonymous(),
            r.is_registered == !caller.spec_is_anonymous(),
            final(self).registered(caller) == !caller.spec_is_anonymous(),
            caller.spec_is_anonymous() ==> {
                &&& final(self).users@ == old(self).users@
                &&& log_appended(
                    old(self).logs@,
                    final(self).logs@,
                    LogLevel::Error,
                    Some(caller),
                    now,
                )
            },
            !caller.spec_is_anonymous() && old(self).registered(caller) ==> {
                &&& final(self).users@ == old(self).users@
                &&& log_appended(
                    old(self).logs@,
                    final(self).logs@,
                    LogLevel::Info,
                    Some(caller),
                    now,
                )
            },
            !caller.spec_is_anonymous() && !old(self).registered(caller) ==> {
                &&& final(self).users@ == old(self).users@.push(final(self).users@.last())
                &&& final(self).users@.last().identity == caller
                &&& final(self).users@.last().registered_at == now
                &&& final(self).users@.last().ads_created@ == Seq::<u64>::empty()
                &&& final(self).users@.last().votes_cast@ == Seq::<(u64, VoteDirection)>::empty()
                &&& log_appended(
                    old(self).logs@,
                    final(self).logs@,
                    LogLevel::Info,
                    Some(caller),
                    now,
                )
            },
    {
        if caller.is_anonymous() {
            self.record(
                LogLevel::Error,
                "anonymous caller attempted to register".to_owned(),
                Some(caller),
                now,
            );
            return AuthResponse { success: false, is_registered: false, identity: caller };
        }
        match self.find_user(caller) {
            Some(_) => {
                self.record(
                    LogLevel::Info,
                    "caller already registered".to_owned(),
                    Some(caller),
                    now,
                );
                AuthResponse { success: true, is_registered: true, identity: caller }
            },
            None => {
                let user = User {
                    identity: caller,
                    registered_at: now,
                    ads_created: Vec::new(),
                    votes_cast: Vec::new(),
                };
                let ghost pre_users = self.users@;
                self.users.push(user);
                proof {
                    let u = self.users@.last();
                    assert forall|i: int|
                        0 <= i < self.ads@.len() implies (#[trigger] self.ads@[i]).ad.votes_up
                        == count_votes(self.users@, self.ads@[i].id, VoteDirection::Up)
                        && self.ads@[i].ad.votes_down == count_votes(
                        self.users@,
                        self.ads@[i].id,
                        VoteDirection::Down,
                    ) by {
                        lemma_count_push(pre_users, u, self.ads@[i].id, VoteDirection::Up);
                        lemma_count_push(pre_users, u, self.ads@[i].id, VoteDirection::Down);
                    }
                }
                self.record(LogLevel::Info, "new caller registered".to_owned(), Some(caller), now);
                AuthResponse { success: true, is_registered: true, identity: caller }
            },
        }
    }

    /// Creating an ad succeeds exactly for an authenticated, registered
    /// caller whose title has at least 4 and description at least 16
    /// characters.
    pub open spec fn can_add(
        pre: State,
        caller: Identity,
        title: Seq<char>,
        description: Seq<char>,
    ) -> bool {
        &&& !caller.spec_is_anonymous()
        &&& pre.registered(caller)
        &&& title.len() >= 4
        &&& description.len() >= 16
    }

    /// Validates and stores a new ad. On success the ad takes the next id,
    /// starts with zero tallies, and its id is appended to the creator's
    /// list; the id counter moves up by one. On any failure nothing but the
    /// activity log changes, and no id is consumed.
    pub fn add_ad(
        &mut self,
        caller: Identity,
        now: u64,
        title: String,
        description: String,
        contact: String,
        technologies: String,
        development_time_months: u32,
        link: String,
    ) -> (r: AddAdResponse)
        requires
            old(self).wf(),
            old(self).next_id < u64::MAX,
        ensures
            final(self).wf(),
            r.success == State::can_add(*old(self), caller, title@, description@),
            caller.spec_is_anonymous() ==> {
                &&& r == (AddAdResponse {
                    success: false,
                    error: Some(crate::records::AdError::Unauthenticated),
                    ad_id: None,
                })
                &&& State::only_logs_changed(*old(self), *final(self))
                &&& log_appended(
                    old(self).logs@,
                    final(self).logs@,
                    LogLevel::Error,
                    Some(caller),
                    now,
                )
            },
            !caller.spec_is_anonymous() && !old(self).registered(caller) ==> {
                &&& r == (AddAdResponse {
                    success: false,
                    error: Some(crate::records::AdError::NotRegistered),
                    ad_id: None,
                })
                &&& State::only_logs_changed(*old(self), *final(self))
                &&& log_appended(
                    old(self).logs@,
                    final(self).logs@,
                    LogLevel::Error,
                    Some(caller),
                    now,
                )
            },
            !caller.spec_is_anonymous() && old(self).registered(caller) && title@.len() < 4 ==> {
                &&& r == (AddAdResponse {
                    success: false,
                    error: Some(crate::records::AdError::ValidationFailed(crate::records::ValidationField::Title)),
                    ad_id: None,
                })
                &&& State::only_logs_changed(*old(self), *final(self))
                &&& log_appended(
                    old(self).logs@,
                    final(self).logs@,
                    LogLevel::Warn,
                    Some(caller),
                    now,
                )
            },
            !caller.spec_is_anonymous() && old(self).registered(caller) && title@.len() >= 4
                && description@.len() < 16 ==> {
                &&& r == (AddAdResponse {
                    success: false,
                    error: Some(crate::records::AdError::ValidationFailed(crate::records::ValidationField::Description)),
                    ad_id: None,
                })
                &&& State::only_logs_changed(*old(self), *final(self))
                &&& log_appended(
                    old(self).logs@,
                    final(self).logs@,
                    LogLevel::Warn,
                    Some(caller),
                    now,
                )
            },
            State::can_add(*old(self), caller, title@, description@) ==> {
                let e = final(self).ads@.last();
                let ui = old(self).user_index(caller);
                &&& r == (AddAdResponse {
                    success: true,
                    error: None,
                    ad_id: Some(old(self).next_id),
                })
                &&& final(self).next_id == old(self).next_id + 1
                &&& final(self).ads@ == old(self).ads@.push(e)
                &&& e.id == old(self).next_id
                &&& e.ad.title == title
                &&& e.ad.description == description
                &&& e.ad.contact == contact
                &&& e.ad.technologies == technologies
                &&& e.ad.link == link
                &&& e.ad.development_time_months == development_time_months
                &&& e.ad.owner == caller
                &&& e.ad.votes_up == 0
                &&& e.ad.votes_down == 0
                &&& e.ad.created_at == now
                &&& final(self).users@ == old(self).users@.update(ui, final(self).users@[ui])
                &&& final(self).users@[ui].identity == caller
                &&& final(self).users@[ui].registered_at == old(self).users@[ui].registered_at
                &&& final(self).users@[ui].ads_created@ == old(self).users@[ui].ads_created@.push(
                    old(self).next_id,
                )
                &&& final(self).users@[ui].votes_cast@ == old(self).users@[ui].votes_cast@
                &&& log_appended(
                    old(self).logs@,
                    final(self).logs@,
                    LogLevel::Info,
                    Some(caller),
                    now,
                )
            },
    {
        if caller.is_anonymous() {
            self.record(
                LogLevel::Error,
                "anonymous caller attempted to create an ad".to_owned(),
                Some(caller),
                now,
            );
            return AddAdResponse {
                success: false,
                error: Some(crate::records::AdError::Unauthenticated),
                ad_id: None,
            };
        }
        let found = self.find_user(caller);
        if found.is_none() {
            self.record(
                LogLevel::Error,
                "unregistered caller attempted to create an ad".to_owned(),
                Some(caller),
                now,
            );
            return AddAdResponse {
                success: false,
                error: Some(crate::records::AdError::NotRegistered),
                ad_id: None,
            };
        }
        let ui = found.unwrap();
        if title.as_str().unicode_len() < 4 {
            self.record(
                LogLevel::Warn,
                "ad creation failed validation: title too short".to_owned(),
                Some(caller),
                now,
            );
            return AddAdResponse {
                success: false,
                error: Some(crate::records::AdError::ValidationFailed(crate::records::ValidationField::Title)),
                ad_id: None,
            };
        }
        if description.as_str().unicode_len() < 16 {
            self.record(
                LogLevel::Warn,
                "ad creation failed validation: description too short".to_owned(),
                Some(caller),
                now,
            );
            return AddAdResponse {
                success: false,
                error: Some(crate::records::AdError::ValidationFailed(crate::records::ValidationField::Description)),
                ad_id: None,
            };
        }
        let ghost pre = *self;
        proof {
            assert(pre.user_index(caller) == ui as int) by {
                let wi = pre.user_index(caller);
                assert(pre.users@[wi].identity == caller);
            }
        }
        let id = self.next_id;
        let ad = crate::records::ProjectAd {
            title,
            description,
            contact,
            technologies,
            development_time_months,
            link,
            owner: caller,
            votes_up: 0,
            votes_down: 0,
            created_at: now,
        };
        self.ads.push(AdEntry { id, ad });
        let mut user = self.users.remove(ui);
        user.ads_created.push(id);
        self.users.insert(ui, user);
        self.next_id = id + 1;
        proof {
            assert(self.users@ =~= pre.users@.update(ui as int, self.users@[ui as int]));
            let u2 = self.users@[ui as int];
            assert(u2.votes_cast@ == pre.users@[ui as int].votes_cast@);
            assert forall|i: int|
                0 <= i < self.ads@.len() implies (#[trigger] self.ads@[i]).ad.votes_up
                == count_votes(self.users@, self.ads@[i].id, VoteDirection::Up)
                && self.ads@[i].ad.votes_down == count_votes(
                self.users@,
                self.ads@[i].id,
                VoteDirection::Down,
            ) by {
                let k = self.ads@[i].id;
                crate::tally::lemma_count_update(
                    pre.users@,
                    ui as int,
                    u2,
                    k,
                    VoteDirection::Up,
                );
                crate::tally::lemma_count_update(
                    pre.users@,
                    ui as int,
                    u2,
                    k,
                    VoteDirection::Down,
                );
                if i < pre.ads@.len() {
                    assert(pre.ads@[i].ad.votes_up == count_votes(
                        pre.users@,
                        k,
                        VoteDirection::Up,
                    ));
                } else {
                    assert(forall|j: int|
                        0 <= j < self.users@.len() ==> vote_weight(
                            #[trigger] self.users@[j],
                            k,
                            VoteDirection::Up,
                        ) == 0);
                    assert(forall|j: int|
                        0 <= j < self.users@.len() ==> vote_weight(
                            #[trigger] self.users@[j],
                            k,
                            VoteDirection::Down,
                        ) == 0);
                    crate::tally::lemma_count_zero(self.users@, k, VoteDirection::Up);
                    crate::tally::lemma_count_zero(self.users@, k, VoteDirection::Down);
                }
            }
            assert(self.wf());
        }
        self.record(LogLevel::Info, "ad created".to_owned(), Some(caller), now);
        AddAdResponse { success: true, error: None, ad_id: Some(id) }
    }

    /// Casting succeeds exactly for an authenticated, registered caller, on
    /// a stored ad the caller does not own.
    pub open spec fn can_cast(pre: State, caller: Identity, ad_id: u64) -> bool {
        &&& !caller.spec_is_anonymous()
        &&& pre.registered(caller)
        &&& pre.has_ad(ad_id)
        &&& pre.ad_of(ad_id).ad.owner != caller
    }

    /// Everything of an ad but its tallies is the same.
    pub open spec fn same_ad_except_tallies(
        a: crate::records::ProjectAd,
        b: crate::records::ProjectAd,
    ) -> bool {
        &&& a.title == b.title
        &&& a.description == b.description
        &&& a.contact == b.contact
        &&& a.technologies == b.technologies
        &&& a.link == b.link
        &&& a.development_time_months == b.development_time_months
        &&& a.owner == b.owner
        &&& a.created_at == b.created_at
    }

    /// The successful transition of `vote_ad`: any prior vote by the caller
    /// on this ad is undone, the new direction is applied and recorded, and
    /// nothing else moves.
    pub open spec fn cast_applied(
        pre: State,
        post: State,
        caller: Identity,
        ad_id: u64,
        dir: VoteDirection,
        now: u64,
    ) -> bool {
        let ui = pre.user_index(caller);
        let ai = ad_id - 1;
        let prev = lookup(pre.users@[ui].votes_cast@, ad_id);
        &&& post.users@ == pre.users@.update(ui, post.users@[ui])
        &&& post.users@[ui].identity == pre.users@[ui].identity
        &&& post.users@[ui].registered_at == pre.users@[ui].registered_at
        &&& post.users@[ui].ads_created@ == pre.users@[ui].ads_created@
        &&& lookup(post.users@[ui].votes_cast@, ad_id) == Some(dir)
        &&& forall|k: u64|
            k != ad_id ==> lookup((#[trigger] post.users@[ui].votes_cast@), k) == lookup(
                pre.users@[ui].votes_cast@,
                k,
            )
        &&& post.ads@ == pre.ads@.update(ai, post.ads@[ai])
        &&& post.ads@[ai].id == pre.ads@[ai].id
        &&& State::same_ad_except_tallies(post.ads@[ai].ad, pre.ads@[ai].ad)
        &&& post.ads@[ai].ad.votes_up == pre.ads@[ai].ad.votes_up - (if prev == Some(
            VoteDirection::Up,
        ) {
            1int
        } else {
            0int
        }) + (if dir == VoteDirection::Up {
            1int
        } else {
            0int
        })
        &&& post.ads@[ai].ad.votes_down == pre.ads@[ai].ad.votes_down - (if prev == Some(
            VoteDirection::Down,
        ) {
            1int
        } else {
            0int
        }) + (if dir == VoteDirection::Down {
            1int
        } else {
            0int
        })
        &&& post.next_id == pre.next_id
        &&& log_appended(pre.logs@, post.logs@, LogLevel::Info, Some(caller), now)
    }

    /// Casts or changes the caller's vote on an ad. A prior vote in the same
    /// direction leaves the tallies unchanged in effect; a prior vote in the
    /// other direction moves one unit between the tallies. The response
    /// carries the tallies after the call (or, on failure, the values the
    /// caller should display).
    #[verifier::rlimit(80)]
    pub fn vote_ad(
        &mut self,
        caller: Identity,
        now: u64,
        ad_id: u64,
        vote_type: VoteDirection,
    ) -> (r: crate::records::VoteResponse)
        requires
            old(self).wf(),
        ensures
            final(self).wf(),
            r.success == State::can_cast(*old(self), caller, ad_id),
            caller.spec_is_anonymous() ==> {
                &&& r == (crate::records::VoteResponse {
                    success: false,
                    error: Some(crate::records::AdError::Unauthenticated),
                    new_votes_up: 0,
                    new_votes_down: 0,
                })
                &&& State::only_logs_changed(*old(self), *final(self))
                &&& log_appended(
                    old(self).logs@,
                    final(self).logs@,
                    LogLevel::Error,
                    Some(caller),
                    now,
                )
            },
            !caller.spec_is_anonymous() && !old(self).registered(caller) ==> {
                &&& r == (crate::records::VoteResponse {
                    success: false,
                    error: Some(crate::records::AdError::NotRegistered),
                    new_votes_up: 0,
                    new_votes_down: 0,
                })
                &&& State::only_logs_changed(*old(self), *final(self))
                &&& log_appended(
                    old(self).logs@,
                    final(self).logs@,
                    LogLevel::Error,
                    Some(caller),
                    now,
                )
            },
            !caller.spec_is_anonymous() && old(self).registered(caller) && !old(self).has_ad(ad_id)
                ==> {
                &&& r == (crate::records::VoteResponse {
                    success: false,
                    error: Some(crate::records::AdError::NotFound),
                    new_votes_up: 0,
                    new_votes_down: 0,
                })
                &&& State::only_logs_changed(*old(self), *final(self))
                &&& log_appended(
                    old(self).logs@,
                    final(self).logs@,
                    LogLevel::Warn,
                    Some(caller),
                    now,
                )
            },
            !caller.spec_is_anonymous() && old(self).registered(caller) && old(self).has_ad(ad_id)
                && old(self).ad_of(ad_id).ad.owner == caller ==> {
                &&& r == (crate::records::VoteResponse {
                    success: false,
                    error: Some(crate::records::AdError::OwnAdVote),
                    new_votes_up: old(self).ad_of(ad_id).ad.votes_up,
                    new_votes_down: old(self).ad_of(ad_id).ad.votes_down,
                })
                &&& State::only_logs_changed(*old(self), *final(self))
                &&& log_appended(
                    old(self).logs@,
                    final(self).logs@,
                    LogLevel::Warn,
                    Some(caller),
                    now,
                )
            },
            State::can_cast(*old(self), caller, ad_id) ==> {
                &&& State::cast_applied(*old(self), *final(self), caller, ad_id, vote_type, now)
                &&& r == (crate::records::VoteResponse {
                    success: true,
                    error: None,
                    new_votes_up: final(self).ad_of(ad_id).ad.votes_up,
                    new_votes_down: final(self).ad_of(ad_id).ad.votes_down,
                })
            },
    {
        if caller.is_anonymous() {
            self.record(
                LogLevel::Error,
                "anonymous caller attempted to vote".to_owned(),
                Some(caller),
                now,
            );
            return crate::records::VoteResponse {
                success: false,
                error: Some(crate::records::AdError::Unauthenticated),
                new_votes_up: 0,
                new_votes_down: 0,
            };
        }
        let found = self.find_user(caller);
        if found.is_none() {
            self.record(
                LogLevel::Error,
                "unregistered caller attempted to vote".to_owned(),
                Some(caller),
                now,
            );
            return crate::records::VoteResponse {
                success: false,
                error: Some(crate::records::AdError::NotRegistered),
                new_votes_up: 0,
                new_votes_down: 0,
            };
        }
        let ui = found.unwrap();
        if ad_id < 1 || ad_id > self.ads.len() as u64 {
            self.record(
                LogLevel::Warn,
                "vote attempted on an ad that does not exist".to_owned(),
                Some(caller),
                now,
            );
            return crate::records::VoteResponse {
                success: false,
                error: Some(crate::records::AdError::NotFound),
                new_votes_up: 0,
                new_votes_down: 0,
            };
        }
        let ai = (ad_id - 1) as usize;
        if self.ads[ai].ad.owner.raw == caller.raw {
            let up = self.ads[ai].ad.votes_up;
            let down = self.ads[ai].ad.votes_down;
            assert(self.ads@[ai as int].ad.owner == caller);
            self.record(
                LogLevel::Warn,
                "caller attempted to vote on their own ad".to_owned(),
                Some(caller),
                now,
            );
            return crate::records::VoteResponse {
                success: false,
                error: Some(crate::records::AdError::OwnAdVote),
                new_votes_up: up,
                new_votes_down: down,
            };
        }
        let ghost pre = *self;
        proof {
            assert(pre.user_index(caller) == ui as int) by {
                let wi = pre.user_index(caller);
                assert(pre.users@[wi].identity == caller);
            }
        }
        let n_users = self.users.len();
        let prev = crate::vote::votes_get(&self.users[ui].votes_cast, ad_id);
        let mut up = self.ads[ai].ad.votes_up;
        let mut down = self.ads[ai].ad.votes_down;
        proof {
            crate::tally::lemma_count_member(pre.users@, ui as int, ad_id, VoteDirection::Up);
            crate::tally::lemma_count_member(pre.users@, ui as int, ad_id, VoteDirection::Down);
        }
        match prev {
            Some(VoteDirection::Up) => {
                up = up - 1;
            },
            Some(VoteDirection::Down) => {
                down = down - 1;
            },
            None => {},
        }
        match vote_type {
            VoteDirection::Up => {
                up = up + 1;
            },
            VoteDirection::Down => {
                down = down + 1;
            },
        }
        let mut user = self.users.remove(ui);
        crate::vote::votes_set(&mut user.votes_cast, ad_id, vote_type);
        self.users.insert(ui, user);
        let mut entry = self.ads.remove(ai);
        entry.ad.votes_up = up;
        entry.ad.votes_down = down;
        self.ads.insert(ai, entry);
        proof {
            assert(self.users@ =~= pre.users@.update(ui as int, self.users@[ui as int]));
            assert(self.ads@ =~= pre.ads@.update(ai as int, self.ads@[ai as int]));
            let u2 = self.users@[ui as int];
            assert forall|i: int|
                0 <= i < self.ads@.len() implies (#[trigger] self.ads@[i]).ad.votes_up
                == count_votes(self.users@, self.ads@[i].id, VoteDirection::Up)
                && self.ads@[i].ad.votes_down == count_votes(
                self.users@,
                self.ads@[i].id,
                VoteDirection::Down,
            ) by {
                let k = self.ads@[i].id;
                crate::tally::lemma_count_update(
                    pre.users@,
                    ui as int,
                    u2,
                    k,
                    VoteDirection::Up,
                );
                crate::tally::lemma_count_update(
                    pre.users@,
                    ui as int,
                    u2,
                    k,
                    VoteDirection::Down,
                );
                assert(pre.ads@[i].ad.votes_up == count_votes(
                    pre.users@,
                    k,
                    VoteDirection::Up,
                ));
            }
            assert(self.wf());
        }
        self.record(LogLevel::Info, "vote recorded".to_owned(), Some(caller), now);
        crate::records::VoteResponse {
            success: true,
            error: None,
            new_votes_up: up,
            new_votes_down: down,
        }
    }

    /// Retracting succeeds exactly for an authenticated, registered caller
    /// who holds a vote on a stored ad.
    pub open spec fn can_retract(pre: State, caller: Identity, ad_id: u64) -> bool {
        &&& !caller.spec_is_anonymous()
        &&& pre.registered(caller)
        &&& pre.has_ad(ad_id)
        &&& lookup(pre.users@[pre.user_index(caller)].votes_cast@, ad_id) is Some
    }

    /// The successful transition of `remove_vote`: the caller's vote on this
    /// ad is erased and the matching tally goes down by one.
    pub open spec fn retract_applied(
        pre: State,
        post: State,
        caller: Identity,
        ad_id: u64,
        now: u64,
    ) -> bool {
        let ui = pre.user_index(caller);
        let ai = ad_id - 1;
        let prev = lookup(pre.users@[ui].votes_cast@, ad_id);
        &&& post.users@ == pre.users@.update(ui, post.users@[ui])
        &&& post.users@[ui].identity == pre.users@[ui].identity
        &&& post.users@[ui].registered_at == pre.users@[ui].registered_at
        &&& post.users@[ui].ads_created@ == pre.users@[ui].ads_created@
        &&& lookup(post.users@[ui].votes_cast@, ad_id) is None
        &&& forall|k: u64|
            k != ad_id ==> lookup((#[trigger] post.users@[ui].votes_cast@), k) == lookup(
                pre.users@[ui].votes_cast@,
                k,
            )
        &&& post.ads@ == pre.ads@.update(ai, post.ads@[ai])
        &&& post.ads@[ai].id == pre.ads@[ai].id
        &&& State::same_ad_except_tallies(post.ads@[ai].ad, pre.ads@[ai].ad)
        &&& post.ads@[ai].ad.votes_up == pre.ads@[ai].ad.votes_up - (if prev == Some(
            VoteDirection::Up,
        ) {
            1int
        } else {
            0int
        })
        &&& post.ads@[ai].ad.votes_down == pre.ads@[ai].ad.votes_down - (if prev == Some(
            VoteDirection::Down,
        ) {
            1int
        } else {
            0int
        })
        &&& post.next_id == pre.next_id
        &&& log_appended(pre.logs@, post.logs@, LogLevel::Info, Some(caller), now)
    }

    /// Removes the caller's vote on an ad, returning the tally to its value
    /// from before that vote was cast. With no prior vote the call fails and
    /// changes nothing.
    #[verifier::rlimit(80)]
    pub fn remove_vote(&mut self, caller: Identity, now: u64, ad_id: u64) -> (r:
        crate::records::VoteResponse)
        requires
            old(self).wf(),
        ensures
            final(self).wf(),
            r.success == State::can_retract(*old(self), caller, ad_id),
            caller.spec_is_anonymous() ==> {
                &&& r == (crate::records::VoteResponse {
                    success: false,
                    error: Some(crate::records::AdError::Unauthenticated),
                    new_votes_up: 0,
                    new_votes_down: 0,
                })
                &&& State::only_logs_changed(*old(self), *final(self))
                &&& log_appended(
                    old(self).logs@,
                    final(self).logs@,
                    LogLevel::Error,
                    Some(caller),
                    now,
                )
            },
            !caller.spec_is_anonymous() && !old(self).registered(caller) ==> {
                &&& r == (crate::records::VoteResponse {
                    success: false,
                    error: Some(crate::records::AdError::NotRegistered),
                    new_votes_up: 0,
                    new_votes_down: 0,
                })
                &&& State::only_logs_changed(*old(self), *final(self))
                &&& log_appended(
                    old(self).logs@,
                    final(self).logs@,
                    LogLevel::Error,
                    Some(caller),
                    now,
                )
            },
            !caller.spec_is_anonymous() && old(self).registered(caller) && !old(self).has_ad(ad_id)
                ==> {
                &&& r == (crate::records::VoteResponse {
                    success: false,
                    error: Some(crate::records::AdError::NotFound),
                    new_votes_up: 0,
                    new_votes_down: 0,
                })
                &&& *final(self) == *old(self)
            },
            !caller.spec_is_anonymous() && old(self).registered(caller) && old(self).has_ad(ad_id)
                && lookup(
                old(self).users@[old(self).user_index(caller)].votes_cast@,
                ad_id,
            ) is None ==> {
                &&& r == (crate::records::VoteResponse {
                    success: false,
                    error: Some(crate::records::AdError::NoPriorVote),
                    new_votes_up: old(self).ad_of(ad_id).ad.votes_up,
                    new_votes_down: old(self).ad_of(ad_id).ad.votes_down,
                })
                &&& *final(self) == *old(self)
            },
            State::can_retract(*old(self), caller, ad_id) ==> {
                &&& State::retract_applied(*old(self), *final(self), caller, ad_id, now)
                &&& r == (crate::records::VoteResponse {
                    success: true,
                    error: None,
                    new_votes_up: final(self).ad_of(ad_id).ad.votes_up,
                    new_votes_down: final(self).ad_of(ad_id).ad.votes_down,
                })
            },
    {
        if caller.is_anonymous() {
            self.record(
                LogLevel::Error,
                "anonymous caller attempted to remove a vote".to_owned(),
                Some(caller),
                now,
            );
            return crate::records::VoteResponse {
                success: false,
                error: Some(crate::records::AdError::Unauthenticated),
                new_votes_up: 0,
                new_votes_down: 0,
            };
        }
        let found = self.find_user(caller);
        if found.is_none() {
            self.record(
                LogLevel::Error,
                "unregistered caller attempted to remove a vote".to_owned(),
                Some(caller),
                now,
            );
            return crate::records::VoteResponse {
                success: false,
                error: Some(crate::records::AdError::NotRegistered),
                new_votes_up: 0,
                new_votes_down: 0,
            };
        }
        let ui = found.unwrap();
        if ad_id < 1 || ad_id > self.ads.len() as u64 {
            return crate::records::VoteResponse {
                success: false,
                error: Some(crate::records::AdError::NotFound),
                new_votes_up: 0,
                new_votes_down: 0,
            };
        }
        let ai = (ad_id - 1) as usize;
        let ghost pre = *self;
        proof {
            assert(pre.user_index(caller) == ui as int) by {
                let wi = pre.user_index(caller);
                assert(pre.users@[wi].identity == caller);
            }
            crate::tally::lemma_count_member(pre.users@, ui as int, ad_id, VoteDirection::Up);
            crate::tally::lemma_count_member(pre.users@, ui as int, ad_id, VoteDirection::Down);
        }
        let existing = crate::vote::votes_get(&self.users[ui].votes_cast, ad_id);
        if existing.is_none() {
            let up = self.ads[ai].ad.votes_up;
            let down = self.ads[ai].ad.votes_down;
            return crate::records::VoteResponse {
                success: false,
                error: Some(crate::records::AdError::NoPriorVote),
                new_votes_up: up,
                new_votes_down: down,
            };
        }
        let mut user = self.users.remove(ui);
        let prev = crate::vote::votes_remove(&mut user.votes_cast, ad_id);
        self.users.insert(ui, user);
        proof {
            assert(self.users@ =~= pre.users@.update(ui as int, self.users@[ui as int]));
        }
        let mut up = self.ads[ai].ad.votes_up;
        let mut down = self.ads[ai].ad.votes_down;
        match prev {
            Some(VoteDirection::Up) => {
                up = up - 1;
            },
            Some(VoteDirection::Down) => {
                down = down - 1;
            },
            None => {},
        }
        let mut entry = self.ads.remove(ai);
        entry.ad.votes_up = up;
        entry.ad.votes_down = down;
        self.ads.insert(ai, entry);
        proof {
            assert(self.ads@ =~= pre.ads@.update(ai as int, self.ads@[ai as int]));
            let u2 = self.users@[ui as int];
            assert forall|i: int|
                0 <= i < self.ads@.len() implies (#[trigger] self.ads@[i]).ad.votes_up
                == count_votes(self.users@, self.ads@[i].id, VoteDirection::Up)
                && self.ads@[i].ad.votes_down == count_votes(
                self.users@,
                self.ads@[i].id,
                VoteDirection::Down,
            ) by {
                let k = self.ads@[i].id;
                crate::tally::lemma_count_update(
                    pre.users@,
                    ui as int,
                    u2,
                    k,
                    VoteDirection::Up,
                );
                crate::tally::lemma_count_update(
                    pre.users@,
                    ui as int,
                    u2,
                    k,
                    VoteDirection::Down,
                );
                assert(pre.ads@[i].ad.votes_up == count_votes(
                    pre.users@,
                    k,
                    VoteDirection::Up,
                ));
            }
            assert(self.wf());
        }
        self.record(LogLevel::Info, "vote removed".to_owned(), Some(caller), now);
        crate::records::VoteResponse {
            success: true,
            error: None,
            new_votes_up: up,
            new_votes_down: down,
        }
    }

    /// The administrative reset: removes every ad, resets the id counter to
    /// 1, and empties every user's created-ad list and vote record, while
    /// keeping the users themselves registered and the log intact (plus one
    /// warning entry). Deliberately open to any caller: no authorization
    /// check gates it.
    pub fn clear_ads(&mut self, caller: Identity, now: u64)
        requires
            old(self).wf(),
        ensures
            final(self).wf(),
            final(self).ads@.len() == 0,
            final(self).next_id == 1,
            final(self).users@.len() == old(self).users@.len(),
            forall|i: int|
                0 <= i < old(self).users@.len() ==> {
                    &&& (#[trigger] final(self).users@[i]).identity == old(self).users@[i].identity
                    &&& final(self).users@[i].registered_at == old(self).users@[i].registered_at
                    &&& final(self).users@[i].ads_created@ == Seq::<u64>::empty()
                    &&& final(self).users@[i].votes_cast@ == Seq::<(u64, VoteDirection)>::empty()
                },
            log_appended(old(self).logs@, final(self).logs@, LogLevel::Warn, Some(caller), now),
    {
        self.record(LogLevel::Warn, "all ads cleared".to_owned(), Some(caller), now);
        let ghost pre = *self;
        self.ads.clear();
        self.next_id = 1;
        let mut i: usize = 0;
        while i < self.users.len()
            invariant
                i <= self.users@.len(),
                self.users@.len() == pre.users@.len(),
                forall|j: int|
                    0 <= j < i ==> {
                        &&& (#[trigger] self.users@[j]).identity == pre.users@[j].identity
                        &&& self.users@[j].registered_at == pre.users@[j].registered_at
                        &&& self.users@[j].ads_created@ == Seq::<u64>::empty()
                        &&& self.users@[j].votes_cast@ == Seq::<(u64, VoteDirection)>::empty()
                    },
                forall|j: int|
                    i <= j < self.users@.len() ==> #[trigger] self.users@[j] == pre.users@[j],
                self.ads@.len() == 0,
                self.next_id == 1,
                self.logs@ == pre.logs@,
            decreases self.users@.len() - i,
        {
            let mut user = self.users.remove(i);
            user.ads_created = Vec::new();
            user.votes_cast = Vec::new();
            self.users.insert(i, user);
            i += 1;
        }
        proof {
            assert(self.wf());
        }
    }

    /// Reports whether the caller is authenticated and registered, without
    /// touching any state.
    pub fn get_auth_status(&self, caller: Identity) -> (r: AuthResponse)
        ensures
            r.identity == caller,
            r.success == !caller.spec_is_anonymous(),
            r.is_registered == (!caller.spec_is_anonymous() && self.registered(caller)),
    {
        if caller.is_anonymous() {
            return AuthResponse { success: false, is_registered: false, identity: caller };
        }
        let is_registered = self.find_user(caller).is_some();
        AuthResponse { success: true, is_registered, identity: caller }
    }
}

} // verus!
