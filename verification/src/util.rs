//! Byte-level helpers: the domain-separation pad and small buffer utilities.

use vstd::prelude::*;
use crate::Error;

verus! {

/// The 32-byte domain-separation pad with index `i`: the little-endian
/// encoding of 2^256 - 1 - i, i.e. a first byte of 0xff - i followed by
/// 31 bytes of 0xff.
pub open spec fn spec_hash_pad(i: u8) -> Seq<u8> {
    Seq::new(32, |j: int| if j == 0 { (0xff - i) as u8 } else { 0xffu8 })
}

/// Build the domain-separation pad for hash index `i`.
pub fn hash_i_padding(i: u8) -> (r: [u8; 32])
    ensures
        r@ == spec_hash_pad(i),
{
    let mut r = [0xffu8; 32];
    r[0] = 0xff - i;
    proof {
        assert(r@ =~= spec_hash_pad(i));
    }
    r
}

/// Append every byte of `data` to `out`.
pub fn push_bytes(out: &mut Vec<u8>, data: &[u8])
    ensures
        final(out)@ == old(out)@ + data@,
{
    let mut i: usize = 0;
    while i < data.len()
        invariant
            i <= data@.len(),
            out@ == old(out)@ + data@.subrange(0, i as int),
        decreases data@.len() - i,
    {
        out.push(data[i]);
        proof {
            assert(out@ =~= old(out)@ + data@.subrange(0, i + 1));
        }
        i = i + 1;
    }
    proof {
        assert(data@.subrange(0, data@.len() as int) =~= data@);
    }
}

/// Concatenate two 32-byte buffers into one 64-byte buffer.
pub fn concat_32_32(a: &[u8; 32], b: &[u8; 32]) -> (r: [u8; 64])
    ensures
        r@ == a@ + b@,
{
    let mut r = [0u8; 64];
    let mut i: usize = 0;
    while i < 32
        invariant
            i <= 32,
            r@.len() == 64,
            forall|j: int| 0 <= j < i ==> r@[j] == a@[j],
        decreases 32 - i,
    {
        r[i] = a[i];
        i = i + 1;
    }
    let mut k: usize = 0;
    while k < 32
        invariant
            k <= 32,
            r@.len() == 64,
            forall|j: int| 0 <= j < 32 ==> r@[j] == a@[j],
            forall|j: int| 0 <= j < k ==> r@[32 + j] == b@[j],
        decreases 32 - k,
    {
        r[32 + k] = b[k];
        k = k + 1;
    }
    proof {
        assert(r@ =~= a@ + b@);
    }
    r
}

/// Zero-fill a 32-byte secret buffer before its scope ends.
pub fn wipe_32(buf: &mut [u8; 32])
    ensures
        forall|i: int| 0 <= i < 32 ==> final(buf)@[i] == 0u8,
{
    *buf = [0u8; 32];
}

/// Zero-fill a 64-byte secret buffer before its scope ends.
pub fn wipe_64(buf: &mut [u8; 64])
    ensures
        forall|i: int| 0 <= i < 64 ==> final(buf)@[i] == 0u8,
{
    *buf = [0u8; 64];
}

/// Zero-fill a secret byte buffer of any length before its scope ends.
pub fn wipe_bytes(buf: &mut Vec<u8>)
    ensures
        final(buf)@.len() == old(buf)@.len(),
        forall|i: int| 0 <= i < final(buf)@.len() ==> final(buf)@[i] == 0u8,
{
    let mut i: usize = 0;
    let len = buf.len();
    while i < len
        invariant
            i <= len,
            buf@.len() == len,
            forall|j: int| 0 <= j < i ==> buf@[j] == 0u8,
        decreases len - i,
    {
        buf[i] = 0;
        i = i + 1;
    }
}

/// Copy a slice into a fixed 32-byte buffer, rejecting other lengths.
pub fn slice_to_32(data: &[u8]) -> (r: Result<[u8; 32], Error>)
    ensures
        data@.len() == 32 ==> (r matches Ok(a) && a@ == data@),
        data@.len() != 32 ==> r == Err::<[u8; 32], Error>(Error::MalformedInput),
{
    if data.len() != 32 {
        return Err(Error::MalformedInput);
    }
    let mut r = [0u8; 32];
    let mut i: usize = 0;
    while i < 32
        invariant
            i <= 32,
            data@.len() == 32,
            r@.len() == 32,
            forall|j: int| 0 <= j < i ==> r@[j] == data@[j],
        decreases 32 - i,
    {
        r[i] = data[i];
        i = i + 1;
    }
    proof {
        assert(r@ =~= data@);
    }
    Ok(r)
}

/// Copy a slice into a fixed 64-byte buffer, rejecting other lengths.
pub fn slice_to_64(data: &[u8]) -> (r: Result<[u8; 64], Error>)
    ensures
        data@.len() == 64 ==> (r matches Ok(a) && a@ == data@),
        data@.len() != 64 ==> r == Err::<[u8; 64], Error>(Error::MalformedInput),
{
    if data.len() != 64 {
        return Err(Error::MalformedInput);
    }
    let mut r = [0u8; 64];
    let mut i: usize = 0;
    while i < 64
        invariant
            i <= 64,
            data@.len() == 64,
            r@.len() == 64,
            forall|j: int| 0 <= j < i ==> r@[j] == data@[j],
        decreases 64 - i,
    {
        r[i] = data[i];
        i = i + 1;
    }
    proof {
        assert(r@ =~= data@);
    }
    Ok(r)
}

} // verus!
