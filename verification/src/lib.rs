//! An era-based quadratic-voting state machine.
//!
//! Participants propose topics, which are queued until the next era
//! boundary, then promoted and opened for voting.  Each vote by the same
//! voter for the same topic costs quadratically more than the previous
//! one, and a per-era cap bounds how many votes a single voter may cast.
//! At every era boundary the votes of the closing era are tallied and a
//! single winner is resolved deterministically (highest vote count,
//! lowest hash on a tie).
//!
//! The engine is a pure, single-threaded state machine: fund
//! reservation and content hashing are reached only through the
//! [`ledger::Ledger`] and [`hasher::Hasher`] trait interfaces, and the
//! external clock drives it by explicit tick arguments.

pub mod engine;
pub mod hasher;
pub mod laws;
pub mod ledger;
pub mod queue;
pub mod tally;
pub mod topic;
