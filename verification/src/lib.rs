//! Trust establishment for confidential-computing workloads: attestation
//! evidence for the TEE a host runs in, and the key-wrapping annotation
//! that gates release of an encryption key on that trust.
//!
//! The library performs no I/O. Work on devices, files and the network is
//! described by actions that a driver performs, handing the outcome back
//! as an event.

pub mod attester;
pub mod enc_mods;
pub mod encoding;
pub mod error;
