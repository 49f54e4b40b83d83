//! A client library for a link-shortening web service: it resolves the
//! credential, builds the request of each of the five operations, and
//! interprets the service's answer. What the library computes is stated in
//! contracts and proved; reading the environment and talking to the network
//! is left to the caller, who hands the library plain values.
//!
//! - [`text`]: trimming, splitting and laying out text.
//! - [`error`]: the failures that end an operation.
//! - [`credentials`]: the credential, from the variable or from the file.
//! - [`command`]: the five operations.
//! - [`request`]: the request of an operation.
//! - [`resource`]: the resource that the service answers with, and its dump.
//! - [`response`]: what an answer means, and what is printed for it.
//! - [`session`]: one run, state by state, to the exit status.

pub mod command;
pub mod credentials;
pub mod error;
pub mod request;
pub mod resource;
pub mod response;
pub mod session;
pub mod text;
