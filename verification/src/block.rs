use vstd::prelude::*;
use vstd::bytes::spec_u32_to_le_bytes;
use vstd::bytes::u32_to_le_bytes;
use rand::Rng;
use rand::SeedableRng;
use rand_chacha::ChaCha20Rng;
use sha2::Digest;
use sha2::Sha256;

verus! {

/// What `sha2::Sha256` digests a byte sequence to; a fixed 32-byte value
/// determined by the input bytes alone.
pub uninterp spec fn sha256_of(data: Seq<u8>) -> Seq<u8>;

/// The first `n` bytes that a ChaCha20 stream generator keyed with the
/// 32-byte `key` emits, in generation order from stream position zero; a
/// fixed value determined by the key and the count alone.
pub uninterp spec fn chacha20_stream_of(key: Seq<u8>, n: nat) -> Seq<u8>;

/// Relies on `sha2::Sha256::digest`: the digest is 32 bytes long and depends
/// on the input bytes alone.
#[verifier::external_body]
fn sha256_digest(data: &Vec<u8>) -> (digest: Vec<u8>)
    ensures
        digest@ == sha256_of(data@),
        digest@.len() == 32,
{
    Sha256::digest(data.as_slice()).to_vec()
}

/// Relies on `rand_chacha::ChaCha20Rng::from_seed` and `rand::Rng::fill_bytes`:
/// a generator seeded with a 32-byte key is deterministic, and `fill_bytes`
/// on a fresh generator hands out the first `n` bytes of its stream in order.
#[verifier::external_body]
fn chacha20_keystream(key: &Vec<u8>, n: usize) -> (stream: Vec<u8>)
    requires
        key@.len() == 32,
    ensures
        stream@ == chacha20_stream_of(key@, n as nat),
        stream@.len() == n,
{
    let mut seed = [0u8; 32];
    seed.copy_from_slice(key.as_slice());
    let mut rng = ChaCha20Rng::from_seed(seed);
    let mut out = vec![0u8; n];
    rng.fill_bytes(&mut out);
    out
}

/// Number of bytes needed to hold `bits` bits: `ceil(bits / 8)`.
pub open spec fn spec_block_byte_len(bits: u32) -> nat {
    ((bits + 7) / 8) as nat
}

/// Computes `ceil(bits / 8)` without overflow.
pub fn block_byte_len(bits: u32) -> (n: usize)
    ensures
        n == spec_block_byte_len(bits),
{
    let whole: u32 = bits / 8;
    let extra: u32 = if bits % 8 == 0 { 0 } else { 1 };
    (whole + extra) as usize
}

/// The low `k` bits set: `(1 << k) - 1`.
pub open spec fn spec_low_mask(k: u8) -> u8
    recommends
        0 < k < 8,
{
    ((1u8 << k) - 1) as u8
}

/// `b` with all but its low `k` bits cleared.
pub open spec fn spec_mask_byte(b: u8, k: u8) -> u8
    recommends
        0 < k < 8,
{
    b & spec_low_mask(k)
}

/// The per-index stream key: the digest of the seed followed by the
/// four-byte little-endian encoding of the sub-epoch index.
pub open spec fn spec_block_key(seed: Seq<u8>, index: u32) -> Seq<u8> {
    sha256_of(seed + spec_u32_to_le_bytes(index))
}

/// The unmasked block: the first `ceil(bits / 8)` bytes of the stream keyed
/// for `(seed, index)`.
pub open spec fn spec_raw_block(seed: Seq<u8>, index: u32, bits: u32) -> Seq<u8> {
    chacha20_stream_of(spec_block_key(seed, index), spec_block_byte_len(bits))
}

/// The code block for one sub-epoch: the raw block, with the unused high
/// bits of the final byte cleared when `bits` is not a multiple of eight.
pub open spec fn spec_derive_block(seed: Seq<u8>, index: u32, bits: u32) -> Seq<u8> {
    Seq::new(
        spec_block_byte_len(bits),
        |i: int|
            if bits % 8 != 0 && i == spec_block_byte_len(bits) - 1 {
                spec_mask_byte(spec_raw_block(seed, index, bits)[i], (bits % 8) as u8)
            } else {
                spec_raw_block(seed, index, bits)[i]
            },
    )
}

/// Derives the code block for one sub-epoch: keys a ChaCha20 stream
/// generator with the digest of `seed || LE32(index)`, draws
/// `ceil(block_bit_length / 8)` bytes, and zeroes the unused high bits of
/// the final byte.
pub fn derive_block(seed: &Vec<u8>, index: u32, block_bit_length: u32) -> (block: Vec<u8>)
    requires
        block_bit_length >= 1,
    ensures
        block@ == spec_derive_block(seed@, index, block_bit_length),
        block@.len() == spec_block_byte_len(block_bit_length),
        block_bit_length % 8 != 0 ==> block@.last() < (1u8 << ((block_bit_length % 8) as u8)),
{
    let mut material: Vec<u8> = Vec::new();
    material.extend_from_slice(seed.as_slice());
    let index_bytes = u32_to_le_bytes(index);
    material.extend_from_slice(index_bytes.as_slice());
    assert(material@ == seed@ + spec_u32_to_le_bytes(index));
    let key = sha256_digest(&material);
    let n = block_byte_len(block_bit_length);
    let mut block = chacha20_keystream(&key, n);
    let extra: u32 = block_bit_length % 8;
    if extra != 0 {
        let k: u8 = extra as u8;
        assert(1u8 << k >= 1) by (bit_vector)
            requires
                k < 8,
        ;
        let mask: u8 = (1u8 << k) - 1;
        let last = block.len() - 1;
        let masked = block[last] & mask;
        let ghost raw_last: u8 = block@[last as int];
        assert(raw_last & mask <= mask) by (bit_vector);
        block[last] = masked;
        assert(block@ =~= spec_derive_block(seed@, index, block_bit_length));
    } else {
        assert(block@ =~= spec_derive_block(seed@, index, block_bit_length));
    }
    block
}

/// Determinism: a code block is a function of the seed, the index and the
/// bit length alone, so two derivations from equal inputs are equal.
pub proof fn lemma_derive_deterministic(
    seed: Seq<u8>,
    index: u32,
    block_bit_length: u32,
    b1: Seq<u8>,
    b2: Seq<u8>,
)
    requires
        b1 == spec_derive_block(seed, index, block_bit_length),
        b2 == spec_derive_block(seed, index, block_bit_length),
    ensures
        b1 == b2,
{
}

/// Length correctness: a derived block holds exactly `ceil(block_bit_length / 8)`
/// bytes, the least count of whole bytes that covers the requested bits.
pub proof fn lemma_block_length(seed: Seq<u8>, index: u32, block_bit_length: u32)
    ensures
        spec_derive_block(seed, index, block_bit_length).len() == spec_block_byte_len(
            block_bit_length,
        ),
        8 * spec_block_byte_len(block_bit_length) >= block_bit_length,
        block_bit_length >= 1 ==> 8 * (spec_block_byte_len(block_bit_length) - 1)
            < block_bit_length,
{
}

/// Masking correctness: when the bit length is not a multiple of eight, the
/// high bits of the final byte beyond `block_bit_length` are zero, so the
/// byte is below `1 << (block_bit_length % 8)`.
pub proof fn lemma_masking(seed: Seq<u8>, index: u32, block_bit_length: u32)
    requires
        block_bit_length >= 1,
        block_bit_length % 8 != 0,
    ensures
        spec_derive_block(seed, index, block_bit_length).last() < (1u8 << ((block_bit_length
            % 8) as u8)),
{
    let k = (block_bit_length % 8) as u8;
    let len = spec_block_byte_len(block_bit_length) as int;
    let b = spec_raw_block(seed, index, block_bit_length)[len - 1];
    assert(spec_derive_block(seed, index, block_bit_length).last() == spec_mask_byte(b, k));
    assert(b & (((1u8 << k) - 1) as u8) < (1u8 << k)) by (bit_vector)
        requires
            1 <= k < 8,
    ;
}

} // verus!
