//! The ledger's records: users, project ads, log entries, and the structured
//! results the operations return.

use vstd::prelude::*;
use crate::identity::Identity;
use crate::vote::VoteDirection;

verus! {

/// A registered user: identity, registration time, the ids of the ads they
/// created (in creation order), and their current votes.
pub struct User {
    pub identity: Identity,
    pub registered_at: u64,
    pub ads_created: Vec<u64>,
    pub votes_cast: Vec<(u64, VoteDirection)>,
}

/// A project ad. Tallies count the users whose current vote on this ad is
/// `Up` respectively `Down`.
pub struct ProjectAd {
    pub title: String,
    pub description: String,
    pub contact: String,
    pub technologies: String,
    pub development_time_months: u32,
    pub link: String,
    pub owner: Identity,
    pub votes_up: usize,
    pub votes_down: usize,
    pub created_at: u64,
}

/// An ad together with its numeric id.
pub struct AdEntry {
    pub id: u64,
    pub ad: ProjectAd,
}

/// Severity of an activity-log entry.
#[derive(PartialEq, Eq, Structural, Clone, Copy, Debug)]
pub enum LogLevel {
    Info,
    Warn,
    Error,
}

/// One activity-log entry.
pub struct LogEntry {
    pub timestamp: u64,
    pub level: LogLevel,
    pub message: String,
    pub identity: Option<Identity>,
}

/// The field whose minimum length a creation request missed.
#[derive(PartialEq, Eq, Structural, Clone, Copy, Debug)]
pub enum ValidationField {
    /// The title must have at least 4 characters.
    Title,
    /// The description must have at least 16 characters.
    Description,
}

/// Why an operation was refused. Every error is detected before any mutation.
#[derive(PartialEq, Eq, Structural, Clone, Copy, Debug)]
pub enum AdError {
    /// The caller is the anonymous identity.
    Unauthenticated,
    /// The caller has no registry entry.
    NotRegistered,
    /// The named field is shorter than its minimum length.
    ValidationFailed(ValidationField),
    /// The referenced ad id does not exist.
    NotFound,
    /// The caller tried to vote on an ad they own.
    OwnAdVote,
    /// A retraction was attempted with no vote to retract.
    NoPriorVote,
}

/// Result of registration and of the authentication-status query.
#[derive(PartialEq, Eq, Structural, Clone, Copy, Debug)]
pub struct AuthResponse {
    pub success: bool,
    pub is_registered: bool,
    pub identity: Identity,
}

/// Result of creating an ad.
#[derive(PartialEq, Eq, Structural, Clone, Copy, Debug)]
pub struct AddAdResponse {
    pub success: bool,
    pub error: Option<AdError>,
    pub ad_id: Option<u64>,
}

/// Result of casting or retracting a vote, carrying the tallies the caller
/// should display.
#[derive(PartialEq, Eq, Structural, Clone, Copy, Debug)]
pub struct VoteResponse {
    pub success: bool,
    pub error: Option<AdError>,
    pub new_votes_up: usize,
    pub new_votes_down: usize,
}

impl Clone for ProjectAd {
    fn clone(&self) -> (r: Self)
        ensures
            r == *self,
    {
        ProjectAd {
            title: self.title.clone(),
            description: self.description.clone(),
            contact: self.contact.clone(),
            technologies: self.technologies.clone(),
            development_time_months: self.development_time_months,
            link: self.link.clone(),
            owner: self.owner,
            votes_up: self.votes_up,
            votes_down: self.votes_down,
            created_at: self.created_at,
        }
    }
}

impl Clone for AdEntry {
    fn clone(&self) -> (r: Self)
        ensures
            r == *self,
    {
        AdEntry { id: self.id, ad: self.ad.clone() }
    }
}

impl Clone for LogEntry {
    fn clone(&self) -> (r: Self)
        ensures
            r == *self,
    {
        LogEntry {
            timestamp: self.timestamp,
            level: self.level,
            message: self.message.clone(),
            identity: self.identity,
        }
    }
}

impl User {
    /// Field-for-field copy; the vectors of the copy hold the same elements.
    pub fn duplicate(&self) -> (r: User)
        ensures
            r.identity == self.identity,
            r.registered_at == self.registered_at,
            r.ads_created@ == self.ads_created@,
            r.votes_cast@ == self.votes_cast@,
    {
        let mut ads: Vec<u64> = Vec::new();
        let mut i: usize = 0;
        while i < self.ads_created.len()
            invariant
                i <= self.ads_created@.len(),
                ads@ == self.ads_created@.subrange(0, i as int),
            decreases self.ads_created@.len() - i,
        {
            ads.push(self.ads_created[i]);
            i += 1;
        }
        assert(ads@ =~= self.ads_created@);
        let mut votes: Vec<(u64, VoteDirection)> = Vec::new();
        let mut j: usize = 0;
        while j < self.votes_cast.len()
            invariant
                j <= self.votes_cast@.len(),
                votes@ == self.votes_cast@.subrange(0, j as int),
            decreases self.votes_cast@.len() - j,
        {
            votes.push(self.votes_cast[j]);
            j += 1;
        }
        assert(votes@ =~= self.votes_cast@);
        User {
            identity: self.identity,
            registered_at: self.registered_at,
            ads_created: ads,
            votes_cast: votes,
        }
    }
}

} // verus!
