//! Remapping of live MIDI messages by configurable range rules, and the
//! supervision of the connection that carries them.

pub mod errors;
pub mod mapping;
pub mod message;
pub mod mapper;
pub mod live;
pub mod ports;
pub mod supervisor;
