//! Core operations of a stateless service for an account-based ledger:
//! keypair generation and validation, Ed25519 signing and verification,
//! deterministic derivation of program-owned addresses, and byte-exact
//! construction of instruction payloads, with base58/base64 text codecs.
//!
//! Every operation is a pure, synchronous function of its inputs; all
//! failures are typed errors, never panics. The HTTP transport around these
//! operations lives outside the library.

pub mod codec;
pub mod derive;
pub mod instructions;
pub mod keys;
pub mod signer;
pub mod response;
pub mod service;
