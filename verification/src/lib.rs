//! A minimal secret-key custodian for a secp256k1 wallet: secure key
//! generation, scalar validation, a fixed 32-byte persisted encoding,
//! deterministic chain-address derivation, and deterministic ECDSA signing.
//! The sealing collaborator that persists the encoded record is consumed at
//! a byte-level boundary and never sees anything but the fixed payload.

pub mod address;
pub mod codec;
pub mod custodian;
pub mod errors;
pub mod scalar;
pub mod signing;
pub mod workflow;
