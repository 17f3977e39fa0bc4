//! ECIES over Ristretto255 with sr25519 keys, and the viewing keys that go with it.
//!
//! * [`ecies`]: encryption to a public key; decryption by its owner, and by the sender.
//! * [`viewing_key`]: keys that decrypt incoming or outgoing messages and cannot sign.
//! * [`keys`]: secret keys, public keys and key pairs.
//! * [`errors`]: why a serialized key was not accepted.
//! * [`laws`]: what holds between the operations.
//! * [`scheme`], [`key_laws`]: what messages and keys are, said of the primitives alone.
//!
//! The remaining modules hold byte helpers and the boundary to the cryptographic crates.
pub mod aead;
pub mod bytes;
pub mod curve;
pub mod ecies;
pub mod errors;
pub mod key_laws;
pub mod keys;
pub mod laws;
pub mod scheme;
pub mod secret;
pub mod transcript;
pub mod viewing_key;
