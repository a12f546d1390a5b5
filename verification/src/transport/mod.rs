//! Lanes that carry payloads, and the wires they run over.
pub mod address_book;
pub mod fragment;
pub mod lane;
pub mod reassembly;
pub mod wire_builder;
