//! XEdDSA for X25519/Ed25519: signing and verifying Ed25519-style
//! signatures with a Montgomery-form Diffie-Hellman keypair, through a
//! canonical keypair derivation with a deterministic sign bit.
//!
//! The signing and verification logic is verified; the curve-group
//! arithmetic, the hash and the random source are reached through the
//! trusted boundary in [`curve`].

use vstd::prelude::*;

pub mod api;
pub mod curve;
pub mod util;
pub mod xed25519;

verus! {

/// The ways an XEdDSA operation can fail.
#[derive(Clone, Copy, Debug, PartialEq, Eq, Structural)]
pub enum Error {
    /// The secure random source could not supply bytes during signing.
    RandomnessFailure,
    /// The Montgomery public key has no usable Edwards representative.
    UnusablePublicKey,
    /// The signature does not verify against the public key and message.
    InvalidSignature,
    /// An input buffer has the wrong length.
    MalformedInput,
}

} // verus!
