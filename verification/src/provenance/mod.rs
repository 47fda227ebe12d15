//! Provenance of what the relay hands out.

pub mod signers;
