//! Orchard keys: their types, how they derive from one another, and how they are
//! written and read.
//!
//! [`keys`] holds the key types and, in [`keys::laws`], what holds of them as a
//! whole. The other modules are what they are built on: the curve ([`pallas`],
//! [`redpallas`]), the pseudorandom functions ([`prf`]), the text encoding
//! ([`base32`], [`text`]), and bytes, networks, errors and texts for diagnostics.
pub mod base32;
pub mod bytes;
pub mod debug;
pub mod keys;
pub mod network;
pub mod pallas;
pub mod prf;
pub mod redpallas;
pub mod serialization;
pub mod text;
