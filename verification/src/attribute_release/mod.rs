//! Attribute release: operator-authored CEL expressions that gate and compute identity claims.
//!
//! There are two kinds of expressions. A release predicate decides whether a subject's claims may
//! be released at all. A computed claim derives one claim value from a subject's record. Both are
//! carried to a mapping engine inside a synthesized document with a single field, compiled when
//! the configuration is loaded, and evaluated over the subject's record when a request is served.
//! The single field is read back as a boolean or as a value.
//!
//! Everything fails closed. A refused document, a problem that the engine reports, a missing
//! record or field and a value of the wrong type are errors. Errors carry locators and kinds only,
//! never a value of a subject or the text of an expression.

pub mod cache;
pub mod diagnostics;
pub mod document;
pub mod error;
pub mod evaluation;
pub mod laws;
pub mod release;

pub use error::AttributeReleaseError;
pub use release::{
    evaluate_release_predicate, evaluate_release_scalar, validate_release_expression,
};
