//! Hashing and byte encodings used to derive stable identifiers: SHA-256
//! from the `sha2` crate, lower-case hex from the `hex` crate, and
//! little-endian integer bytes.

use vstd::prelude::*;

use crate::text::hex_bytes;

verus! {

/// The SHA-256 digest of a byte string (FIPS 180-4), as `sha2::Sha256` computes it.
pub uninterp spec fn sha256_digest(data: Seq<u8>) -> Seq<u8>;

/// `<sha2::Sha256 as Digest>::digest`. The contract names the result
/// `sha256_digest(data)` and states its documented 32-byte length; the
/// digest algorithm itself is not restated.
#[verifier::external_body]
pub(crate) fn sha256(data: &[u8]) -> (r: Vec<u8>)
    ensures
        r@ == sha256_digest(data@),
        r@.len() == 32,
{
    <sha2::Sha256 as sha2::Digest>::digest(data).to_vec()
}

/// `hex::encode`: every byte becomes two lower-case hexadecimal digits,
/// high nibble first (the crate's `HEX_CHARS_LOWER` table).
#[verifier::external_body]
pub(crate) fn hex_encode(data: &[u8]) -> (r: String)
    ensures
        r@ == hex_bytes(data@),
{
    hex::encode(data)
}

/// The `k` least significant bytes of `n`, least significant first
/// (`to_le_bytes` for a `k`-byte integer).
pub open spec fn le_bytes(n: nat, k: nat) -> Seq<u8>
    decreases k,
{
    if k == 0 {
        Seq::empty()
    } else {
        seq![(n % 256) as u8] + le_bytes(n / 256, (k - 1) as nat)
    }
}

/// Appends the `k` little-endian bytes of `n` to `out`.
pub fn push_le_bytes(out: &mut Vec<u8>, n: u128, k: usize)
    requires
        k <= 16,
    ensures
        final(out)@ == old(out)@ + le_bytes(n as nat, k as nat),
{
    let mut m = n;
    let mut i: usize = 0;
    while i < k
        invariant
            i <= k <= 16,
            out@ + le_bytes(m as nat, (k - i) as nat) == old(out)@ + le_bytes(n as nat, k as nat),
        decreases k - i,
    {
        let ghost before = out@;
        out.push((m % 256) as u8);
        assert(le_bytes(m as nat, (k - i) as nat) == seq![(m % 256) as u8] + le_bytes(
            (m / 256) as nat,
            (k - i - 1) as nat,
        ));
        assert(out@ + le_bytes((m / 256) as nat, (k - i - 1) as nat) =~= before + le_bytes(
            m as nat,
            (k - i) as nat,
        ));
        m = m / 256;
        i += 1;
    }
    assert(le_bytes(m as nat, 0) =~= Seq::<u8>::empty());
    assert(out@ =~= out@ + le_bytes(m as nat, 0));
}

/// Appends the bytes of a byte-string literal or slice to `out`.
pub fn push_bytes(out: &mut Vec<u8>, b: &[u8])
    ensures
        final(out)@ == old(out)@ + b@,
{
    let mut i: usize = 0;
    while i < b.len()
        invariant
            i <= b.len(),
            out@ == old(out)@ + b@.take(i as int),
        decreases b.len() - i,
    {
        out.push(b[i]);
        assert(b@.take(i as int).push(b@[i as int]) == b@.take(i + 1));
        i += 1;
    }
    assert(b@.take(b@.len() as int) == b@);
}

} // verus!
