//! The client side of a game platform's user interface, without the platform.
//!
//! Every operation of the interface is one call into the platform. This
//! library holds what surrounds that call: the values handed over, the
//! meaning of the flat status that comes back, the bookkeeping of the voice
//! recorder, and the decoding of the events that the platform delivers
//! later. The caller makes the call itself and passes the platform's answer
//! in as plain values.

pub mod auth;
pub mod connection;
pub mod error;
pub mod identity;
pub mod user;
pub mod voice;
