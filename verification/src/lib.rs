//! A typed REST-endpoint-builder engine for a versioned graph API.
//!
//! The library models the identity/resource-binding state of a client,
//! resolves URL path templates against that state, accumulates the
//! request that a transport hands to the wire, converts raw responses
//! into typed outcomes, and composes batch requests. Transport and
//! token acquisition are collaborators supplied from outside.

pub mod ident;
pub mod render;
pub mod url;
pub mod client;
pub mod response;
pub mod batch;
