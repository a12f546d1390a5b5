//! Direct connections over web sockets.
pub mod gate;
pub mod server;
