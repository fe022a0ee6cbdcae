//! Peer-identity extraction and job-submission rules of a workflow gateway
//! that authenticates its callers with mutual TLS.
//!
//! The gateway derives an authorization identity (a name and a role) from the
//! certificate a caller presented, and accepts a structured job submission.
//! Everything here is a pure function of its arguments; reading the
//! certificate chain off a connection and transmitting requests is left to
//! the caller.

pub mod certificate;
pub mod environment;
pub mod identity;
pub mod request;
pub mod service;
