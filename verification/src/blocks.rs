//! Block headers, as far as the horizon checks read them.

use crate::crypto::{group_order, BlindingFactor};
use vstd::prelude::*;

verus! {

/// The header of a block.
#[derive(Clone, Debug, PartialEq, Eq)]
pub struct BlockHeader {
    /// The number of blocks between this one and the genesis block.
    pub height: u64,
    /// The sum of the kernel offsets of the block's transactions.
    pub total_kernel_offset: BlindingFactor,
    /// The root of the Merkle mountain range of outputs, as the block declares it.
    pub output_mr: Vec<u8>,
    /// The root of the Merkle mountain range of kernels, as the block declares it.
    pub kernel_mr: Vec<u8>,
}

/// The sum of the kernel offsets of `headers`, modulo the group order.
pub open spec fn offset_total(headers: Seq<BlockHeader>) -> nat
    decreases headers.len(),
{
    if headers.len() == 0 {
        0
    } else {
        (offset_total(headers.drop_last()) + headers.last().total_kernel_offset@) % group_order()
    }
}

} // verus!
