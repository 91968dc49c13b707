pub mod block;
pub mod codec;
pub mod schedule;

use vstd::prelude::*;

verus! {

/// What can go wrong with the inputs; all of it is detected eagerly, before
/// any derivation work begins.
#[derive(Clone, Copy, Debug, PartialEq, Eq, Structural)]
pub enum CodegenError {
    /// The seed is not an even sequence of hexadecimal digits.
    MalformedSeedHex,
    /// The sub-epoch length is zero, so the epoch cannot be partitioned.
    ZeroSubEpochLength,
    /// The block bit length is zero, so no block can be derived.
    ZeroBlockBitLength,
}

impl CodegenError {
    /// A short description of the error, for reporting.
    pub fn message(&self) -> (m: &'static str) {
        match self {
            CodegenError::MalformedSeedHex => "seed is not a valid hexadecimal string",
            CodegenError::ZeroSubEpochLength => "sub_epoch_length must be greater than 0",
            CodegenError::ZeroBlockBitLength => "block_bit_length must be greater than 0",
        }
    }
}

} // verus!
