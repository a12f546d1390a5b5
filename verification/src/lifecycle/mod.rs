//! Starting an actor system and keeping it connected.
pub mod actr_system;
pub mod network_event;
