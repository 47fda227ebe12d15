//! The decisions of the registry relay, verified.
//!
//! [`attribute_release`] decides whether a subject's claims may be released and what a computed
//! claim is. [`provenance`] decides which key a file-backed signer signs with. Both work on the
//! JSON values of [`json`].
//!
//! What the relay cannot do by computing alone (compiling and evaluating mappings, reading files,
//! locking, signing) is left to the caller: a function that needs it says what is to be done, and
//! is told what came of it.

pub mod attribute_release;
pub mod json;
pub mod provenance;
