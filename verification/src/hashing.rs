//! Content hashing and address derivation.
//!
//! Code blobs are content-addressed by their Blake2b-256 digest, and
//! contract addresses are derived from the leading bytes of a digest over
//! deployer, code hash, constructor input and salt.  The digest and the
//! preimage encoding are outside computations; everything downstream of
//! them is verified.

use vstd::prelude::*;
use parity_scale_codec::Encode;

verus! {

/// The Blake2b-256 digest of a byte string.
pub uninterp spec fn blake2_of(data: Seq<u8>) -> Seq<u8>;

/// The encoding of the address-derivation preimage over deployer, code
/// hash, constructor input and salt.
pub uninterp spec fn address_preimage_of(
    deployer: u64,
    code_hash: Seq<u8>,
    input: Seq<u8>,
    salt: Seq<u8>,
) -> Seq<u8>;

/// Relies on `sp_core::Blake2Hasher::hash` (Blake2b-256): the digest is a
/// function of the input bytes alone, and is exactly 32 bytes long.
#[verifier::external_body]
pub(crate) fn blake2_256(data: &Vec<u8>) -> (r: Vec<u8>)
    ensures
        r@ == blake2_of(data@),
        r@.len() == 32,
{
    <sp_core::Blake2Hasher as sp_core::Hasher>::hash(data.as_slice()).as_bytes().to_vec()
}

/// Relies on `parity_scale_codec::Encode::encode` for tuples: the encoding
/// is a function of the encoded values alone.  A fixed tag keeps the
/// address preimage domain-separated from other uses of the digest.  The
/// encoder length-prefixes each byte string with a compact length that
/// only exists below `u32::MAX` elements and panics beyond it, so inputs
/// of that size are excluded here and gated out by every caller.
#[verifier::external_body]
pub(crate) fn encode_address_parts(
    deployer: u64,
    code_hash: &Vec<u8>,
    input: &Vec<u8>,
    salt: &Vec<u8>,
) -> (r: Vec<u8>)
    requires
        code_hash@.len() <= 0xFFFF_FFFF,
        input@.len() <= 0xFFFF_FFFF,
        salt@.len() <= 0xFFFF_FFFF,
    ensures
        r@ == address_preimage_of(deployer, code_hash@, input@, salt@),
{
    (&b"contract_addr_v1"[..], deployer, code_hash, input, salt).encode()
}

/// Powers of 256, for reading an integer out of big-endian bytes.
pub open spec fn pow256(n: nat) -> int
    decreases n,
{
    if n == 0 {
        1
    } else {
        256 * pow256((n - 1) as nat)
    }
}

/// The big-endian integer value of a byte string.
pub open spec fn be_value(s: Seq<u8>) -> int
    decreases s.len(),
{
    if s.len() == 0 {
        0
    } else {
        be_value(s.drop_last()) * 256 + s.last()
    }
}

proof fn lemma_be_bound(s: Seq<u8>)
    ensures
        0 <= be_value(s) < pow256(s.len()),
    decreases s.len(),
{
    if s.len() > 0 {
        lemma_be_bound(s.drop_last());
    }
}

/// The account id carried by the leading eight bytes of a digest.
pub open spec fn account_of_hash(h: Seq<u8>) -> u64 {
    be_value(h.take(8)) as u64
}

/// Reads the account id out of the leading eight bytes of a digest.
pub(crate) fn account_from_hash(h: &Vec<u8>) -> (r: u64)
    requires
        h@.len() >= 8,
    ensures
        r == account_of_hash(h@),
{
    proof {
        reveal_with_fuel(pow256, 9);
    }
    let mut acc: u64 = 0;
    let mut i: usize = 0;
    while i < 8
        invariant
            i <= 8,
            h@.len() >= 8,
            acc == be_value(h@.take(i as int)),
            acc < pow256(i as nat),
            pow256(8) == 0x1_0000_0000_0000_0000,
            forall|k: nat| k < 8 ==> #[trigger] pow256(k) <= 0x1_0000_0000_0000_00,
        decreases 8 - i,
    {
        proof {
            reveal_with_fuel(pow256, 9);
            lemma_be_bound(h@.take(i as int));
            assert(pow256(i as nat) <= 0x1_0000_0000_0000_00);
            assert(h@.take(i + 1 as int).drop_last() =~= h@.take(i as int));
            assert(h@.take(i + 1 as int).last() == h@[i as int]);
        }
        acc = acc * 256 + (h[i] as u64);
        i += 1;
    }
    proof {
        assert(h@.take(8) == h@.take(8 as int));
    }
    acc
}

} // verus!
