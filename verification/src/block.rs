//! What holds of a block before any of it is applied.

use vstd::prelude::*;
use crate::evm_wvm_types::WvmBlock;

verus! {

/// Why a block was not applied at all.
#[derive(Debug, Clone, Copy, PartialEq, Eq, Structural)]
pub enum BlockError {
    /// The block does not come with one receipt per transaction.
    ReceiptCountMismatch { transactions: usize, receipts: usize },
}

/// The height a block stands at; zero where it carries none.
pub open spec fn height_of<TX>(block: WvmBlock<TX>) -> u64 {
    match block.number {
        Some(number) => number,
        None => 0,
    }
}

/// The height a block stands at; zero where it carries none.
pub fn block_height<TX>(block: &WvmBlock<TX>) -> (height: u64)
    ensures
        height == height_of(*block),
{
    match block.number {
        Some(number) => number,
        None => 0,
    }
}

} // verus!
