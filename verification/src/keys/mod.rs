//! Orchard key types.
pub mod authorizing;
pub mod commitment;
pub mod diversifier;
pub mod ephemeral;
pub mod full;
pub mod hrp;
pub mod incoming;
pub mod laws;
pub mod nullifier;
pub mod outgoing;
pub mod spending;
pub mod transmission;
pub mod validating;

pub use authorizing::SpendAuthorizingKey;
pub use commitment::IvkCommitRandomness;
pub use diversifier::{diversify_hash, Diversifier, DiversifierKey};
pub use ephemeral::EphemeralPublicKey;
pub use full::FullViewingKey;
pub use incoming::IncomingViewingKey;
pub use nullifier::NullifierDerivingKey;
pub use outgoing::OutgoingViewingKey;
pub use spending::SpendingKey;
pub use transmission::TransmissionKey;
pub use validating::SpendValidatingKey;
