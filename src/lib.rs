//! A client for the gRPC Network Management Interface (gNMI).
//!
//! The library holds the parts of a gNMI client that decide something: the
//! hierarchical path model and its wire form, the capability queries, the
//! composition of a get request, the credentials that every call carries, and
//! the steps of building a connection (target, trust policy, credentials).
//! The network transport itself is driven by the caller.
pub mod gnmi;
pub mod path;
pub mod capabilities;
pub mod transport;
pub mod error;
pub mod auth;
pub mod client;
pub mod dangerous;

pub use client::{Client, ClientBuilder};
