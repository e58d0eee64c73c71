//! Decision core of a proposal-based governance system.
//!
//! A proposal carries options; voters spread their weight over the options or
//! deny them all; finalisation classifies every option and moves the proposal
//! on; the operations attached to a winning option are admitted one by one.
//! Every function states its effect over the mathematical view of the
//! values it touches, and no function panics.
//!
//! - [`state`]: the lifecycle states and the steps between them.
//! - [`proposal`]: proposals and options, their size, and what holds of
//!   every proposal.
//! - [`capacity`]: insertion of options within the storage reserved.
//! - [`vote`]: votes and the ledger of the votes cast on a proposal.
//! - [`tally`]: what votes add to the tally and take from it, whatever
//!   their order.
//! - [`voting`]: casting and relinquishing votes.
//! - [`finalize`]: the winners of a vote and the state it ends in.
//! - [`ranking`]: why no more options win than may.
//! - [`execution`]: the conditions under which attached operations run.
//! - [`checks`]: the same invariants, checked at run time.
//! - [`error`]: what is reported when a request is refused.

pub mod capacity;
pub mod checks;
pub mod error;
pub mod execution;
pub mod finalize;
pub mod proposal;
pub mod ranking;
pub mod state;
pub mod tally;
pub mod vote;
pub mod voting;
