//! XEdDSA over X25519/Ed25519: canonical keypair derivation with a
//! deterministic sign bit, randomized signing with a domain-separated
//! hash challenge, and Montgomery-side verification.

use vstd::prelude::*;
use crate::Error;
use crate::curve::base_point_of;
use crate::curve::bytes_le_value;
use crate::curve::clamp;
use crate::curve::ed25519_verify;
use crate::curve::ed_key_parses;
use crate::curve::ed_verifies;
use crate::curve::group_order;
use crate::curve::edwards_of;
use crate::curve::mont_to_edwards;
use crate::curve::negated_scalar_of;
use crate::curve::random_nonce;
use crate::curve::reduce_wide;
use crate::curve::scalar_mul_base;
use crate::curve::scalar_negate;
use crate::curve::scalar_product;
use crate::curve::scalar_product_of;
use crate::curve::scalar_sum;
use crate::curve::scalar_sum_of;
use crate::curve::sha512;
use crate::curve::sha512_of;
use crate::curve::spec_clamped;
use crate::curve::wide_reduce_of;
use crate::util::concat_32_32;
use crate::util::hash_i_padding;
use crate::util::push_bytes;
use crate::util::spec_hash_pad;
use crate::util::wipe_32;
use crate::util::wipe_64;
use crate::util::wipe_bytes;

verus! {

/// An X25519 private key: a raw 32-byte Montgomery scalar.
pub struct PrivateKey(pub [u8; 32]);

/// An X25519 public key: a 32-byte Montgomery u-coordinate.
pub struct PublicKey(pub [u8; 32]);

/// The sign bit of a compressed Edwards point: the high bit of its last byte.
pub open spec fn point_sign_bit(p: Seq<u8>) -> u8 {
    ((p[31] & 0x80) >> 7) as u8
}

/// The canonical Edwards keypair derived from raw private key bytes with the
/// chosen target sign bit: the clamped scalar and its public point where the
/// point's sign bit already matches, otherwise the negated scalar with its
/// recomputed point.
pub open spec fn spec_key_pair(key: Seq<u8>, sign: u8) -> (Seq<u8>, Seq<u8>) {
    let clamped = spec_clamped(key);
    let point = base_point_of(clamped);
    if point_sign_bit(point) == sign {
        (clamped, point)
    } else {
        let neg = negated_scalar_of(clamped);
        (neg, base_point_of(neg))
    }
}

/// The commitment scalar r: the wide reduction of the domain-separated
/// hash of the derived private scalar, the message and the 64 nonce bytes.
pub open spec fn spec_commitment_scalar(key: Seq<u8>, msg: Seq<u8>, nonce: Seq<u8>) -> Seq<u8> {
    wide_reduce_of(sha512_of(spec_hash_pad(1) + spec_key_pair(key, 0).0 + msg + nonce))
}

/// The challenge scalar h: the wide reduction of the hash of the commitment
/// point R, the derived public point and the message.
pub open spec fn spec_challenge_scalar(key: Seq<u8>, msg: Seq<u8>, nonce: Seq<u8>) -> Seq<u8> {
    wide_reduce_of(
        sha512_of(
            base_point_of(spec_commitment_scalar(key, msg, nonce)) + spec_key_pair(key, 0).1
                + msg,
        ),
    )
}

/// The XEdDSA signature of `msg` under the raw private key `key` once the
/// 64 random bytes `nonce` are fixed: the commitment point R for the
/// commitment scalar r, followed by the response s = r + h · a, where h is
/// the challenge scalar and (a, A) the derived keypair with sign bit 0.
pub open spec fn spec_signature(key: Seq<u8>, msg: Seq<u8>, nonce: Seq<u8>) -> Seq<u8> {
    let r = spec_commitment_scalar(key, msg, nonce);
    let h = spec_challenge_scalar(key, msg, nonce);
    let s = scalar_sum_of(r, scalar_product_of(h, spec_key_pair(key, 0).0));
    base_point_of(r) + s
}

/// Whether the Montgomery public key has a usable Edwards representative
/// under sign bit 0 that standard Ed25519 verification accepts as a key.
pub open spec fn spec_key_usable(pk_mont: Seq<u8>) -> bool {
    match edwards_of(pk_mont, 0) {
        Some(ed) => ed_key_parses(ed),
        None => false,
    }
}

/// Whether the signature is valid for the message under the Montgomery
/// public key: the key converts under sign bit 0 to Edwards form that parses,
/// and the standard Ed25519 check accepts the signature.
pub open spec fn spec_verifies(pk_mont: Seq<u8>, msg: Seq<u8>, sig: Seq<u8>) -> bool {
    match edwards_of(pk_mont, 0) {
        Some(ed) => ed_key_parses(ed) && ed_verifies(ed, msg, sig),
        None => false,
    }
}

/// Clamping is idempotent: a buffer that has already been clamped is left
/// unchanged by clamping it again.
pub proof fn lemma_clamp_idempotent(b: Seq<u8>)
    ensures
        spec_clamped(spec_clamped(b)) == spec_clamped(b),
{
    let once = spec_clamped(b);
    let twice = spec_clamped(once);
    assert(forall|x: u8| #[trigger] ((x & 0xf8) & 0xf8) == x & 0xf8) by (bit_vector);
    assert(forall|x: u8| #[trigger] ((((x & 0x7f) | 0x40) & 0x7f) | 0x40) == (x & 0x7f) | 0x40)
        by (bit_vector);
    assert(twice =~= once);
}

/// Law: deriving a keypair is idempotent on its own canonical output. When a
/// derivation returns the clamped scalar unchanged — the arm in which no
/// negation was needed — deriving again from that scalar with the same
/// target sign bit reproduces the identical (scalar, point) pair.
pub proof fn lemma_key_pair_idempotent(key: Seq<u8>, sign: u8)
    requires
        spec_key_pair(key, sign).0 == spec_clamped(key),
    ensures
        spec_key_pair(spec_key_pair(key, sign).0, sign) == spec_key_pair(key, sign),
{
    let clamped = spec_clamped(key);
    lemma_clamp_idempotent(key);
    if point_sign_bit(base_point_of(clamped)) == sign {
        assert(spec_key_pair(clamped, sign) == spec_key_pair(key, sign));
    } else {
        // The negated scalar happens to coincide with the clamped one, so
        // re-derivation takes the same negating arm and lands on the same
        // pair.
        assert(negated_scalar_of(clamped) == clamped);
        assert(spec_key_pair(clamped, sign) == spec_key_pair(key, sign));
    }
}

impl PrivateKey {
    /// Derive the canonical Edwards keypair for this private key: clamp the
    /// raw scalar, compute its public point, and if the point's sign bit
    /// differs from the target, negate the scalar modulo the group order —
    /// the returned scalar then sums with the clamped one to zero mod the
    /// order — and recompute the point.
    pub fn calculate_key_pair(&self, sign: u8) -> (r: ([u8; 32], [u8; 32]))
        ensures
            r.0@ == spec_key_pair(self.0@, sign).0,
            r.1@ == spec_key_pair(self.0@, sign).1,
            point_sign_bit(base_point_of(spec_clamped(self.0@))) != sign ==> (bytes_le_value(r.0@)
                + bytes_le_value(spec_clamped(self.0@))) % group_order() == 0
                && bytes_le_value(r.0@) < group_order(),
    {
        let clamped = clamp(&self.0);
        let point = scalar_mul_base(&clamped);
        if (point[31] & 0x80) >> 7 == sign {
            (clamped, point)
        } else {
            let neg = scalar_negate(&clamped);
            let neg_point = scalar_mul_base(&neg);
            (neg, neg_point)
        }
    }

    /// Sign a message with the given 64 nonce bytes: the deterministic part
    /// of signing, producing exactly the signature that `spec_signature`
    /// describes for this key, message and nonce. The response half of the
    /// signature is the canonical encoding of the scalar r + h · a modulo
    /// the group order.
    pub fn sign_with_nonce(&self, message: &[u8], nonce: &[u8; 64]) -> (sig: [u8; 64])
        ensures
            sig@ == spec_signature(self.0@, message@, nonce@),
            bytes_le_value(sig@.subrange(32, 64)) < group_order(),
            bytes_le_value(sig@.subrange(32, 64)) == (bytes_le_value(
                spec_commitment_scalar(self.0@, message@, nonce@),
            ) + bytes_le_value(spec_challenge_scalar(self.0@, message@, nonce@))
                * bytes_le_value(spec_key_pair(self.0@, 0).0)) % group_order(),
    {
        let (mut private_key, public_key) = self.calculate_key_pair(0);

        let padding = hash_i_padding(1);
        let mut commit_input: Vec<u8> = Vec::new();
        push_bytes(&mut commit_input, padding.as_slice());
        push_bytes(&mut commit_input, private_key.as_slice());
        push_bytes(&mut commit_input, message);
        push_bytes(&mut commit_input, nonce.as_slice());
        let mut commit_hash = sha512(commit_input.as_slice());

        let mut r_scalar = reduce_wide(&commit_hash);
        let r_point = scalar_mul_base(&r_scalar);

        let mut challenge_input: Vec<u8> = Vec::new();
        push_bytes(&mut challenge_input, r_point.as_slice());
        push_bytes(&mut challenge_input, public_key.as_slice());
        push_bytes(&mut challenge_input, message);
        let challenge_hash = sha512(challenge_input.as_slice());

        let h_scalar = reduce_wide(&challenge_hash);
        let mut product = scalar_product(&h_scalar, &private_key);
        let s_scalar = scalar_sum(&r_scalar, &product);

        let sig = concat_32_32(&r_point, &s_scalar);
        proof {
            let pair = spec_key_pair(self.0@, 0);
            assert(commit_input@ =~= spec_hash_pad(1) + pair.0 + message@ + nonce@);
            assert(challenge_input@ =~= base_point_of(wide_reduce_of(sha512_of(commit_input@)))
                + pair.1 + message@);
            assert(sig@.subrange(32, 64) =~= s_scalar@);
            let l = group_order() as int;
            let r_v = bytes_le_value(r_scalar@) as int;
            let h_v = bytes_le_value(h_scalar@) as int;
            let a_v = bytes_le_value(pair.0) as int;
            vstd::arithmetic::div_mod::lemma_small_mod(
                bytes_le_value(r_scalar@),
                group_order(),
            );
            vstd::arithmetic::div_mod::lemma_add_mod_noop(r_v, h_v * a_v, l);
            assert(bytes_le_value(s_scalar@) == (r_v + h_v * a_v) % l);
        }
        // The secret scalars and the buffers that held them leave no
        // residue: zero-fill every copy before returning.
        wipe_32(&mut private_key);
        wipe_32(&mut r_scalar);
        wipe_32(&mut product);
        wipe_64(&mut commit_hash);
        wipe_bytes(&mut commit_input);
        sig
    }

    /// Overwrite the key bytes with zeros. Wiping cannot be tied to the
    /// drop of a verified type, so a caller that is done with a key wipes
    /// it explicitly to end the memory residency of the secret.
    pub fn wipe(&mut self)
        ensures
            forall|i: int| 0 <= i < 32 ==> final(self).0@[i] == 0u8,
    {
        self.0 = [0u8; 32];
    }

    /// Sign a message: derive the canonical keypair with sign bit 0, draw 64
    /// bytes from the secure random source, and produce the 64-byte
    /// signature. Fails only when the random source fails; no weaker
    /// randomness is ever substituted.
    pub fn sign(&self, message: &[u8]) -> (r: Result<[u8; 64], Error>)
        ensures
            r matches Ok(sig) ==> exists|nonce: Seq<u8>|
                nonce.len() == 64 && sig@ == spec_signature(self.0@, message@, nonce),
            r matches Ok(sig) ==> bytes_le_value(sig@.subrange(32, 64)) < group_order(),
            r matches Err(e) ==> e == Error::RandomnessFailure,
    {
        let mut nonce = match random_nonce() {
            Ok(n) => n,
            Err(e) => {
                return Err(e);
            },
        };
        let sig = self.sign_with_nonce(message, &nonce);
        proof {
            assert(nonce@.len() == 64 && sig@ == spec_signature(self.0@, message@, nonce@));
        }
        wipe_64(&mut nonce);
        Ok(sig)
    }
}

impl<'a> From<&'a [u8; 32]> for PrivateKey {
    /// Copy raw key bytes into a private key.
    fn from(v: &'a [u8; 32]) -> (r: PrivateKey) {
        PrivateKey(*v)
    }
}

impl<'a> vstd::std_specs::convert::FromSpecImpl<&'a [u8; 32]> for PrivateKey {
    open spec fn obeys_from_spec() -> bool {
        true
    }

    open spec fn from_spec(v: &'a [u8; 32]) -> PrivateKey {
        PrivateKey(*v)
    }
}

impl From<PrivateKey> for [u8; 32] {
    /// Take the raw key bytes out of a private key.
    fn from(v: PrivateKey) -> (r: [u8; 32]) {
        v.0
    }
}

impl vstd::std_specs::convert::FromSpecImpl<PrivateKey> for [u8; 32] {
    open spec fn obeys_from_spec() -> bool {
        true
    }

    open spec fn from_spec(v: PrivateKey) -> [u8; 32] {
        v.0
    }
}

impl PublicKey {
    /// Convert this Montgomery public key to a compressed Edwards point,
    /// forcing the given sign bit; fails where no usable point exists.
    pub fn convert_mont(&self, sign: u8) -> (r: Result<[u8; 32], Error>)
        ensures
            r matches Ok(p) ==> edwards_of(self.0@, sign) == Some(p@),
            r matches Err(e) ==> e == Error::UnusablePublicKey,
            r is Err <==> edwards_of(self.0@, sign) is None,
    {
        match mont_to_edwards(&self.0, sign) {
            Some(p) => Ok(p),
            None => Err(Error::UnusablePublicKey),
        }
    }

    /// Verify a 64-byte signature over a message: recover the Edwards public
    /// key under sign bit 0 and run the standard Ed25519 check. `Ok` exactly
    /// on valid signatures; an unusable key and an invalid signature keep
    /// distinct error kinds.
    pub fn verify(&self, message: &[u8], signature: &[u8; 64]) -> (r: Result<(), Error>)
        ensures
            r is Ok <==> spec_verifies(self.0@, message@, signature@),
            r matches Err(e) ==> (e == Error::UnusablePublicKey <==> !spec_key_usable(self.0@)),
            r matches Err(e) ==> (e == Error::InvalidSignature <==> spec_key_usable(self.0@)
                && !spec_verifies(self.0@, message@, signature@)),
    {
        let edwards = match self.convert_mont(0) {
            Ok(p) => p,
            Err(e) => {
                return Err(e);
            },
        };
        ed25519_verify(&edwards, message, signature)
    }
}

} // verus!
