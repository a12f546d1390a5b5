//! Core rules of an actor runtime: configuration, transport lanes, peer
//! connections, signaling, credential checks and network recovery.
//!
//! Every module holds plain data, the functions that decide over it, and the
//! contracts of those functions. Sockets, tasks and timers live outside: they
//! perform the actions that these functions return and report back the events.
pub mod ais_key_cache;
pub mod clock;
pub mod config;
pub mod encoding;
pub mod error;
pub mod ffi;
pub mod lifecycle;
pub mod octets;
pub mod path;
pub mod protocol;
pub mod text;
pub mod text_table;
pub mod transport;
pub mod wire;
