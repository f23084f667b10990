//! A typed client core for a remote content API.
//!
//! The library turns strongly-typed request values into planned HTTP calls,
//! attaches bearer authentication when an endpoint requires it, and unifies
//! a completed response into a single typed result. The network transport
//! itself is an external collaborator: this crate plans calls and classifies
//! their outcomes, it never performs I/O.

pub mod account;
pub mod client;
pub mod common;
pub mod endpoint;
pub mod errors;
pub mod feed;
pub mod group;
pub mod paths;
pub mod response;
pub mod token;
pub mod urls;
