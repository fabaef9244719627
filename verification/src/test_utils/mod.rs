//! Helpers for writing tests against the gateway: sample values and checks.

pub mod assertions;
pub mod helpers;
