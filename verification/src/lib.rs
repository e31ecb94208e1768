//! A small Network Time Protocol (NTP) client library.
//!
//! `protocol` defines the NTP v4 packet and its 48-byte wire codec.
//! `instant` defines the signed, Unix-epoch-relative `Instant` and its
//! conversions to and from the protocol's fixed-point time formats.
//! `client` builds the packet a client sends. Sending and receiving
//! datagrams is left to the application around the library.

pub mod client;
mod clock;
pub mod instant;
pub mod protocol;

pub use instant::Instant;
pub use instant::InvariantViolation;
pub use instant::EPOCH_DELTA;
