use vstd::prelude::*;
use crate::CodegenError;
use crate::block::derive_block;
use crate::block::spec_derive_block;
use crate::codec::decode_seed_hex;
use crate::codec::spec_hex_decode;
use crate::codec::spec_is_hex_string;

verus! {

/// The views of a vector of blocks.
pub open spec fn views_of(blocks: Seq<Vec<u8>>) -> Seq<Seq<u8>> {
    blocks.map_values(|b: Vec<u8>| b@)
}

/// The code blocks of a whole epoch: one per sub-epoch index, in order.
pub open spec fn spec_schedule(seed: Seq<u8>, n: nat, bits: u32) -> Seq<Seq<u8>> {
    Seq::new(n, |i: int| spec_derive_block(seed, i as u32, bits))
}

/// All blocks joined into one byte sequence, in index order.
pub open spec fn spec_concat(blocks: Seq<Seq<u8>>) -> Seq<u8>
    decreases blocks.len(),
{
    if blocks.len() == 0 {
        Seq::empty()
    } else {
        spec_concat(blocks.drop_last()) + blocks.last()
    }
}

/// Number of sub-epochs in the epoch: `floor(epoch_length / sub_epoch_length)`.
pub fn sub_epoch_count(epoch_length: u32, sub_epoch_length: u32) -> (n: u32)
    requires
        sub_epoch_length != 0,
    ensures
        n == epoch_length / sub_epoch_length,
{
    epoch_length / sub_epoch_length
}

/// Derives the code block of every sub-epoch of the epoch, in index order.
pub fn generate_schedule(
    seed: &Vec<u8>,
    epoch_length: u32,
    sub_epoch_length: u32,
    block_bit_length: u32,
) -> (blocks: Vec<Vec<u8>>)
    requires
        sub_epoch_length != 0,
        block_bit_length >= 1,
    ensures
        blocks@.len() == epoch_length / sub_epoch_length,
        views_of(blocks@) == spec_schedule(
            seed@,
            (epoch_length / sub_epoch_length) as nat,
            block_bit_length,
        ),
{
    let n = sub_epoch_count(epoch_length, sub_epoch_length);
    let mut blocks: Vec<Vec<u8>> = Vec::new();
    let mut i: u32 = 0;
    while i < n
        invariant
            i <= n,
            n == epoch_length / sub_epoch_length,
            block_bit_length >= 1,
            blocks@.len() == i,
            forall|j: int|
                0 <= j < i ==> (#[trigger] blocks@[j])@ == spec_derive_block(
                    seed@,
                    j as u32,
                    block_bit_length,
                ),
        decreases n - i,
    {
        let code = derive_block(seed, i, block_bit_length);
        blocks.push(code);
        i = i + 1;
    }
    proof {
        assert(views_of(blocks@) =~= spec_schedule(
            seed@,
            (epoch_length / sub_epoch_length) as nat,
            block_bit_length,
        ));
    }
    blocks
}

/// Joins all blocks into one byte sequence, in index order.
pub fn concat_blocks(blocks: &Vec<Vec<u8>>) -> (out: Vec<u8>)
    ensures
        out@ == spec_concat(views_of(blocks@)),
{
    let ghost vs = views_of(blocks@);
    let mut out: Vec<u8> = Vec::new();
    let mut i: usize = 0;
    proof {
        assert(vs.take(0) =~= Seq::<Seq<u8>>::empty());
    }
    while i < blocks.len()
        invariant
            i <= blocks@.len(),
            vs == views_of(blocks@),
            out@ == spec_concat(vs.take(i as int)),
        decreases blocks@.len() - i,
    {
        out.extend_from_slice(blocks[i].as_slice());
        proof {
            assert(vs.take(i + 1).drop_last() =~= vs.take(i as int));
            assert(vs.take(i + 1).last() == vs[i as int]);
        }
        i = i + 1;
    }
    proof {
        assert(vs.take(blocks@.len() as int) =~= vs);
    }
    out
}

/// One epoch's worth of code blocks, with their concatenation in index order.
#[derive(Debug, PartialEq, Eq)]
pub struct Schedule {
    pub blocks: Vec<Vec<u8>>,
    pub concatenated: Vec<u8>,
}

/// Whether `s` holds exactly the schedule the parameters call for: one code
/// block per sub-epoch, in index order, and their concatenation.
pub open spec fn spec_schedule_ok(
    s: Schedule,
    seed: Seq<u8>,
    epoch_length: u32,
    sub_epoch_length: u32,
    block_bit_length: u32,
) -> bool
    recommends
        sub_epoch_length != 0,
{
    &&& views_of(s.blocks@) == spec_schedule(
        seed,
        (epoch_length / sub_epoch_length) as nat,
        block_bit_length,
    )
    &&& s.concatenated@ == spec_concat(views_of(s.blocks@))
}

/// Decodes the seed, checks the parameters, and derives the full schedule:
/// one code block per sub-epoch, in index order, with their concatenation.
/// Inputs are checked eagerly, before any derivation: a malformed seed is
/// reported first, then a zero sub-epoch length, then a zero block bit
/// length.
pub fn run(
    seed_hex: &str,
    epoch_length: u32,
    sub_epoch_length: u32,
    block_bit_length: u32,
) -> (r: Result<Schedule, CodegenError>)
    ensures
        r is Ok <==> (spec_is_hex_string(seed_hex@) && sub_epoch_length != 0 && block_bit_length
            != 0),
        !spec_is_hex_string(seed_hex@) ==> r == Err::<Schedule, CodegenError>(
            CodegenError::MalformedSeedHex,
        ),
        spec_is_hex_string(seed_hex@) && sub_epoch_length == 0 ==> r == Err::<
            Schedule,
            CodegenError,
        >(CodegenError::ZeroSubEpochLength),
        spec_is_hex_string(seed_hex@) && sub_epoch_length != 0 && block_bit_length == 0 ==> r
            == Err::<Schedule, CodegenError>(CodegenError::ZeroBlockBitLength),
        r is Ok ==> spec_schedule_ok(
            r.unwrap(),
            spec_hex_decode(seed_hex@),
            epoch_length,
            sub_epoch_length,
            block_bit_length,
        ),
{
    let seed = match decode_seed_hex(seed_hex) {
        Ok(seed) => seed,
        Err(e) => {
            return Err(e);
        },
    };
    if sub_epoch_length == 0 {
        return Err(CodegenError::ZeroSubEpochLength);
    }
    if block_bit_length == 0 {
        return Err(CodegenError::ZeroBlockBitLength);
    }
    let blocks = generate_schedule(&seed, epoch_length, sub_epoch_length, block_bit_length);
    let concatenated = concat_blocks(&blocks);
    Ok(Schedule { blocks, concatenated })
}

} // verus!
