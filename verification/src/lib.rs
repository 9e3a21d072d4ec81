//! Governance of a shared treasury: spending proposals, a time-bounded vote
//! weighted by token balance, and a one-time transfer once quorum and
//! majority are reached.
//!
//! [`governor::Governor`] owns the proposals, the votes and the tallies, and
//! changes them through `propose`, `vote` and `execute`. It is handed the
//! time, the caller and the token figures with each call, and returns the
//! transfer that an execution owes instead of making it. The rules it
//! applies are functions on plain values in [`proposal`] and [`weight`], so
//! that a caller who keeps the state elsewhere can apply the same rules.
//! [`state`] says what each operation does to the governor as a
//! mathematical value, and [`theorems`] proves what follows from that.

pub mod address;
pub mod error;
pub mod governor;
pub mod proposal;
pub mod state;
pub mod theorems;
pub mod weight;

pub use address::Address;
pub use error::{DaoError, GovernorError};
pub use governor::Governor;
pub use proposal::{Proposal, ProposalId, ProposalVote, Transfer, VoteType};
