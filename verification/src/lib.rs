//! An in-memory ledger of user-submitted project ads: registration-gated
//! creation, one vote per user per ad with vote-change semantics, a bounded
//! activity log, and read-only derived views.

pub mod identity;
pub mod laws;
pub mod query;
pub mod state;
pub mod records;
pub mod tally;
pub mod vote;

pub use identity::Identity;
pub use records::{AdEntry, AdError, AddAdResponse, AuthResponse, LogEntry, LogLevel, ProjectAd, ValidationField,
    User, VoteResponse};
pub use vote::VoteDirection;
