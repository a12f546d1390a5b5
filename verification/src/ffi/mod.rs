//! What foreign callers see.
pub mod error;
pub mod opus;
