//! Core of an image-resizing service: a bounded least-recently-used cache of
//! transform results, deterministic cache-key derivation from a request's
//! identifying attributes, and the request-coordination logic that decides
//! between a cache hit and a freshly computed transform.
//!
//! The decode/resize/encode step itself is delegated to the `image` crate; its
//! behaviour is stated, not proved, in `transform`. Everything around it — the
//! cache, the keys, the coordinator's decisions and error taxonomy — is
//! verified.

pub mod cache;
pub mod coordinator;
pub mod keys;
pub mod laws;
pub mod numeral;
pub mod transform;
