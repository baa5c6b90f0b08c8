//! Safety layer over a cross-vendor binary audio-plugin protocol: opaque
//! identifiers, extension capability negotiation, main-thread timers, and the
//! non-blocking messaging that lets the real-time audio context request work
//! from the main context.

pub mod extension;
pub mod host;
pub mod id;
pub mod instance;
pub mod msg;
pub mod timer;
