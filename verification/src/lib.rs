//! The identity and comment cores of a small forum backend.
//!
//! The identity core keeps user accounts: a unique username, a salted
//! Argon2id credential that never leaves the library, and a moderator flag.
//! The comment core keeps threaded comments on posts, under ids that it
//! issues itself. Both work through a persistence gateway, given here as a
//! mathematical model of its tables and as a store in memory that is proved
//! to follow the model.
//!
//! - [`model`]: the rows and their values.
//! - [`error`]: the kinds of failure.
//! - [`credential`], [`ident`], [`clock`]: what comes from outside: password
//!   hashing, random ids, the present instant.
//! - [`gateway`]: the model of the store; [`rows`], [`invariants`],
//!   [`lookups`]: what is proved of it.
//! - [`memory`]: the store in memory.
//! - [`identity`], [`comments`]: the operations of the two cores.
//! - [`laws`]: what holds over sequences of operations.
//! - [`response`]: the bodies that report the outcome of an operation.

pub mod clock;
pub mod comments;
pub mod credential;
pub mod error;
pub mod gateway;
pub mod ident;
pub mod identity;
pub mod invariants;
pub mod laws;
pub mod lookups;
pub mod memory;
pub mod model;
pub mod response;
pub mod rows;
