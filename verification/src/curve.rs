//! Trusted boundary to the curve-group arithmetic, the hash primitive and
//! the secure random source.
//!
//! Scalars and compressed Edwards points cross this boundary as plain
//! 32-byte little-endian buffers. Each wrapper names the outside function
//! it relies on; results that are functions of the arguments alone are
//! given uninterpreted names that the verified contracts compose.

use vstd::prelude::*;
use vstd::arithmetic::power2::pow2;
use crate::Error;
use curve25519_dalek::edwards::EdwardsPoint;
use curve25519_dalek::montgomery::MontgomeryPoint;
use curve25519_dalek::scalar::Scalar;
use ed25519::Signature;
use ed25519_dalek::Verifier;
use ed25519_dalek::VerifyingKey;
use sha2::Digest;
use sha2::Sha512;

verus! {

/// The clamped form of a 32-byte scalar: low three bits of the first byte
/// cleared, high bit of the last byte cleared, second-highest bit set.
pub open spec fn spec_clamped(b: Seq<u8>) -> Seq<u8> {
    Seq::new(
        32,
        |i: int|
            if i == 0 {
                b[0] & 0xf8
            } else if i == 31 {
                (b[31] & 0x7f) | 0x40
            } else {
                b[i]
            },
    )
}

/// The integer that a byte string encodes in little-endian order.
pub open spec fn bytes_le_value(b: Seq<u8>) -> nat
    decreases b.len(),
{
    if b.len() == 0 {
        0
    } else {
        b.first() as nat + 256 * bytes_le_value(b.drop_first())
    }
}

/// The order l of the curve group's prime-order subgroup:
/// 2^252 + 27742317777372353535851937790883648493.
pub open spec fn group_order() -> nat {
    pow2(252) + 27742317777372353535851937790883648493
}

/// The compressed Edwards encoding of `(s mod l) * B`, where `s` is read as a
/// little-endian 256-bit integer, `l` is the group order and `B` the basepoint.
pub uninterp spec fn base_point_of(s: Seq<u8>) -> Seq<u8>;

/// The canonical encoding of the negation modulo the group order of a scalar
/// read from 32 little-endian bytes.
pub uninterp spec fn negated_scalar_of(s: Seq<u8>) -> Seq<u8>;

/// The canonical encoding of the product modulo the group order of two
/// scalars read from 32 little-endian bytes each.
pub uninterp spec fn scalar_product_of(a: Seq<u8>, b: Seq<u8>) -> Seq<u8>;

/// The canonical encoding of the sum modulo the group order of two scalars
/// read from 32 little-endian bytes each.
pub uninterp spec fn scalar_sum_of(a: Seq<u8>, b: Seq<u8>) -> Seq<u8>;

/// The canonical encoding of a 512-bit little-endian integer reduced modulo
/// the group order.
pub uninterp spec fn wide_reduce_of(b: Seq<u8>) -> Seq<u8>;

/// The 64-byte SHA-512 digest of a byte string.
pub uninterp spec fn sha512_of(data: Seq<u8>) -> Seq<u8>;

/// The compressed Edwards point that the birational map gives for a Montgomery
/// u-coordinate with the chosen sign bit forced, or `None` where the map has
/// no usable image.
pub uninterp spec fn edwards_of(u: Seq<u8>, sign: u8) -> Option<Seq<u8>>;

/// Whether 32 bytes decompress to a valid Edwards point, so that standard
/// Ed25519 verification accepts them as a public key.
pub uninterp spec fn ed_key_parses(pk: Seq<u8>) -> bool;

/// Whether standard Ed25519 verification accepts a signature over a message
/// under a public key given as compressed Edwards bytes.
pub uninterp spec fn ed_verifies(pk: Seq<u8>, msg: Seq<u8>, sig: Seq<u8>) -> bool;

/// Relies on curve25519_dalek::scalar::clamp_integer: clears the low three
/// bits of byte 0 and the high bit of byte 31, and sets bit 6 of byte 31.
#[verifier::external_body]
pub(crate) fn clamp(b: &[u8; 32]) -> (r: [u8; 32])
    ensures
        r@ == spec_clamped(b@),
{
    curve25519_dalek::scalar::clamp_integer(*b)
}

/// Relies on curve25519_dalek: Scalar::from_bytes_mod_order reads the bytes
/// as an integer reduced modulo the group order, EdwardsPoint::mul_base
/// multiplies the basepoint by that scalar, and compress().to_bytes() yields
/// the point's canonical 32-byte encoding.
#[verifier::external_body]
pub(crate) fn scalar_mul_base(s: &[u8; 32]) -> (r: [u8; 32])
    ensures
        r@ == base_point_of(s@),
{
    EdwardsPoint::mul_base(&Scalar::from_bytes_mod_order(*s)).compress().to_bytes()
}

/// Relies on curve25519_dalek Scalar arithmetic: multiplying the scalar read
/// from the bytes by minus one modulo the group order; to_bytes() yields the
/// canonical encoding, which Scalar's documented invariant keeps below the
/// group order.
#[verifier::external_body]
pub(crate) fn scalar_negate(s: &[u8; 32]) -> (r: [u8; 32])
    ensures
        r@ == negated_scalar_of(s@),
        bytes_le_value(r@) < group_order(),
        (bytes_le_value(r@) + bytes_le_value(s@)) % group_order() == 0,
{
    ((Scalar::ZERO - Scalar::from(1u8)) * Scalar::from_bytes_mod_order(*s)).to_bytes()
}

/// Relies on curve25519_dalek Scalar multiplication modulo the group order,
/// each factor read from 32 little-endian bytes; the result's encoding is
/// canonical, below the group order, by Scalar's documented invariant.
#[verifier::external_body]
pub(crate) fn scalar_product(a: &[u8; 32], b: &[u8; 32]) -> (r: [u8; 32])
    ensures
        r@ == scalar_product_of(a@, b@),
        bytes_le_value(r@) < group_order(),
        bytes_le_value(r@) == (bytes_le_value(a@) * bytes_le_value(b@)) % group_order(),
{
    (Scalar::from_bytes_mod_order(*a) * Scalar::from_bytes_mod_order(*b)).to_bytes()
}

/// Relies on curve25519_dalek Scalar addition modulo the group order, each
/// summand read from 32 little-endian bytes; the result's encoding is
/// canonical, below the group order, by Scalar's documented invariant.
#[verifier::external_body]
pub(crate) fn scalar_sum(a: &[u8; 32], b: &[u8; 32]) -> (r: [u8; 32])
    ensures
        r@ == scalar_sum_of(a@, b@),
        bytes_le_value(r@) < group_order(),
        bytes_le_value(r@) == (bytes_le_value(a@) + bytes_le_value(b@)) % group_order(),
{
    (Scalar::from_bytes_mod_order(*a) + Scalar::from_bytes_mod_order(*b)).to_bytes()
}

/// Relies on curve25519_dalek::Scalar::from_bytes_mod_order_wide: reduces a
/// 512-bit little-endian integer modulo the group order, so the result's
/// encoding is canonical, below the group order.
#[verifier::external_body]
pub(crate) fn reduce_wide(b: &[u8; 64]) -> (r: [u8; 32])
    ensures
        r@ == wide_reduce_of(b@),
        bytes_le_value(r@) < group_order(),
        bytes_le_value(r@) == bytes_le_value(b@) % group_order(),
{
    Scalar::from_bytes_mod_order_wide(b).to_bytes()
}

/// Relies on sha2::Sha512: the 64-byte SHA-512 digest of the input.
#[verifier::external_body]
pub(crate) fn sha512(data: &[u8]) -> (r: [u8; 64])
    ensures
        r@ == sha512_of(data@),
{
    let mut hasher = Sha512::new();
    hasher.update(data);
    hasher.finalize().into()
}

/// Relies on getrandom::getrandom: fills the buffer from the operating
/// system's secure random source, or reports failure. Nothing is assumed of
/// the bytes themselves.
#[verifier::external_body]
pub(crate) fn random_nonce() -> (r: Result<[u8; 64], Error>)
    ensures
        r matches Err(e) ==> e == Error::RandomnessFailure,
{
    let mut nonce = [0u8; 64];
    match getrandom::getrandom(&mut nonce) {
        Ok(()) => Ok(nonce),
        Err(_) => Err(Error::RandomnessFailure),
    }
}

/// Relies on curve25519_dalek::MontgomeryPoint::to_edwards: applies the
/// birational map to the u-coordinate, forcing the given sign bit, and
/// returns None exactly where no usable Edwards point exists.
#[verifier::external_body]
pub(crate) fn mont_to_edwards(u: &[u8; 32], sign: u8) -> (r: Option<[u8; 32]>)
    ensures
        r matches Some(p) ==> edwards_of(u@, sign) == Some(p@),
        r is None <==> edwards_of(u@, sign) is None,
{
    MontgomeryPoint(*u).to_edwards(sign).map(|p| p.compress().to_bytes())
}

/// Relies on ed25519_dalek: VerifyingKey::from_bytes accepts exactly the
/// encodings of valid Edwards points, and Verifier::verify performs the
/// standard Ed25519 check of the signature over the message under that key.
#[verifier::external_body]
pub(crate) fn ed25519_verify(pk: &[u8; 32], msg: &[u8], sig: &[u8; 64]) -> (r: Result<(), Error>)
    ensures
        r is Ok ==> ed_key_parses(pk@) && ed_verifies(pk@, msg@, sig@),
        r is Err ==> !(ed_key_parses(pk@) && ed_verifies(pk@, msg@, sig@)),
        r matches Err(e) ==> (e == Error::UnusablePublicKey <==> !ed_key_parses(pk@)),
        r matches Err(e) ==> (e == Error::InvalidSignature <==> ed_key_parses(pk@) && !ed_verifies(pk@, msg@, sig@)),
{
    let key = VerifyingKey::from_bytes(pk).or(Err(Error::UnusablePublicKey))?;
    key.verify(msg, &Signature::from_bytes(sig)).or(Err(Error::InvalidSignature))
}

} // verus!
