//! Credential cache for the load-balancer control CLI, and the small pieces of
//! the weight API client that compute rather than talk to the network.
pub mod client;
pub mod form;
pub mod iam;
pub mod time;

pub use client::Client;
