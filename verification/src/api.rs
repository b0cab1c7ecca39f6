//! Slice-level entry points: length checking, then signing or verification.
//!
//! At this boundary every verification failure — malformed input as much as
//! cryptographic invalidity — is collapsed to the single boolean `false`,
//! so that callers get no distinguishable-error oracle.

use vstd::prelude::*;
use crate::Error;
use crate::curve::bytes_le_value;
use crate::curve::group_order;
use crate::util::push_bytes;
use crate::util::slice_to_32;
use crate::util::slice_to_64;
use crate::xed25519::spec_signature;
use crate::xed25519::spec_verifies;
use crate::xed25519::PrivateKey;
use crate::xed25519::PublicKey;

verus! {

/// Sign `message` with a private key given as a 32-byte slice. Rejects any
/// other key length before touching key material; fails otherwise only when
/// the secure random source fails.
pub fn sign(private_key_bytes: &[u8], message: &[u8]) -> (r: Result<Vec<u8>, Error>)
    ensures
        r matches Ok(sig) ==> private_key_bytes@.len() == 32 && exists|nonce: Seq<u8>|
            nonce.len() == 64 && sig@ == spec_signature(private_key_bytes@, message@, nonce),
        r matches Ok(sig) ==> sig@.len() == 64 && bytes_le_value(sig@.subrange(32, 64))
            < group_order(),
        private_key_bytes@.len() != 32 ==> (r matches Err(e) && e == Error::MalformedInput),
        r matches Err(e) ==> e == Error::MalformedInput || e == Error::RandomnessFailure,
        private_key_bytes@.len() == 32 ==> (r matches Err(e) ==> e == Error::RandomnessFailure),
{
    let key_bytes = match slice_to_32(private_key_bytes) {
        Ok(b) => b,
        Err(e) => {
            return Err(e);
        },
    };
    let private_key = PrivateKey(key_bytes);
    match private_key.sign(message) {
        Ok(sig) => {
            let mut out: Vec<u8> = Vec::new();
            push_bytes(&mut out, sig.as_slice());
            Ok(out)
        },
        Err(e) => Err(e),
    }
}

/// Verify a signature given as slices. True exactly on a 32-byte public
/// key, a 64-byte signature and a valid signature over the message; a wrong
/// length and a cryptographically invalid signature both collapse to false,
/// by design, so that this boundary leaks no failure kind.
pub fn verify(public_key_bytes: &[u8], message: &[u8], signature: &[u8]) -> (r: bool)
    ensures
        r <==> public_key_bytes@.len() == 32 && signature@.len() == 64 && spec_verifies(
            public_key_bytes@,
            message@,
            signature@,
        ),
{
    let key_bytes = match slice_to_32(public_key_bytes) {
        Ok(b) => b,
        Err(_) => {
            return false;
        },
    };
    let public_key = PublicKey(key_bytes);
    let signature_bytes = match slice_to_64(signature) {
        Ok(b) => b,
        Err(_) => {
            return false;
        },
    };
    match public_key.verify(message, &signature_bytes) {
        Ok(()) => true,
        Err(_) => false,
    }
}

} // verus!
