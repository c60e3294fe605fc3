//! Core of a community bug-catching contest: members submit evidence of
//! contributions (bug reports, bug confirmations, fix pull requests) against an
//! issue tracker, moderators verify each submission, and a ranked leaderboard
//! aggregates the approved records into per-user scores.
//!
//! This crate holds the verified core: the reference parser, the submission
//! classifier and validator, the submission and verification workflow state
//! machines, the persistence model, and the scoring and ranking engine. The
//! chat transport, the tracker HTTP client, and the database driver live
//! outside the core and exchange plain values with it.

pub mod actions;
pub mod config;
pub mod issues;
pub mod ranking;
pub mod score;
pub mod store;
pub mod submission;
pub mod validation;
pub mod verification;
