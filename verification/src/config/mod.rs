//! The configuration of an actor: as it is written, and as it is used.
pub mod config;
pub mod error;
pub mod inheritance;
pub mod parser;
pub mod raw;
pub mod value;
