//! Keeps DNS records hosted by third-party providers in sync with the host's
//! public (WAN) address.
//!
//! The library holds the decisions: which names to verify, when a record is
//! stale, how each provider's update request is formed and how its answer is
//! read, and how per-record outcomes add up to a run's result. Network I/O is
//! left to the caller, which performs the actions the library hands out.
pub mod address;
pub mod config;
pub mod engine;
pub mod errors;
pub mod providers;
pub mod request;
pub mod resolvers;
pub mod run;
pub mod summary;
pub mod text;

