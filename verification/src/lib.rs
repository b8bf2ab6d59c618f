//! MIDI event atoms, and the headers of scalar atoms.
//!
//! A codec between typed MIDI messages and the bytes that carry them inside
//! an atom body. Encoding appends the wire bytes of a message to a writing
//! frame; decoding validates a raw body and rebuilds the message, or says why
//! the bytes are not one.
pub mod atom;
pub mod frame;
pub mod message;
pub mod scalar;
pub mod status_bytes;
pub mod units;
