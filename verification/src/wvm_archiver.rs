//! What the archive serves: its own description, and one bundle of block
//! and receipts per height.

use vstd::prelude::*;
use vstd::string::StringExecFns;
use crate::evm_wvm_types::{WvmBlock, WvmTransaction, WvmTransactionReceipt};

verus! {

/// What the archive says of itself.
#[derive(Debug, Clone, Default)]
pub struct ArchiverInfo {
    pub first_livesync_archived_block: Option<u64>,
    pub last_livesync_archived_block: Option<u64>,
    pub first_backfill_archived_block: Option<u64>,
    pub last_backfill_archived_block: Option<u64>,
    pub livesync_start_block: Option<u64>,
    pub total_archived_blocks: Option<u64>,
    pub blocks_behind_live_blockheight: Option<u64>,
    pub archiver_balance: Option<[u8; 32]>,
    pub archiver_address: Option<String>,
    pub backfill_address: Option<String>,
    pub backfill_balance: Option<[u8; 32]>,
    pub network_name: Option<String>,
    pub network_chain_id: Option<u32>,
    pub network_rpc: Option<String>,
}

/// The bundle the archive serves for one height.
#[derive(Debug, Clone)]
pub struct WvmArchiverDataBlock {
    pub block: Option<WvmBlock<WvmTransaction>>,
    pub txs_receipts: Option<Vec<WvmTransactionReceipt>>,
}

/// A block with the receipts of its transactions.
#[derive(Debug, Clone)]
pub struct FetchedBlock {
    pub block: WvmBlock<WvmTransaction>,
    pub receipts: Vec<WvmTransactionReceipt>,
}

/// Why a height gave no block to apply.
#[derive(Debug, Clone, Copy, PartialEq, Eq, Structural)]
pub enum FetchError {
    /// The bundle holds no block.
    MissingBlock,
    /// The bundle holds no list of receipts.
    MissingReceipts,
    /// A transaction of the block has no receipt; the index is its place
    /// in the block.
    MissingReceipt { index: usize },
}

/// A height that may be absent; absent is zero.
pub open spec fn height_or_zero(height: Option<u64>) -> u64 {
    match height {
        Some(h) => h,
        None => 0,
    }
}

/// The decimal digits of `n`, without leading zeros.
pub open spec fn decimal_digits(n: nat) -> Seq<char>
    decreases n,
{
    if n < 10 {
        seq![decimal_digit(n)]
    } else {
        decimal_digits(n / 10).push(decimal_digit(n % 10))
    }
}

/// The character for a digit below ten.
pub open spec fn decimal_digit(d: nat) -> char {
    if d == 0 {
        '0'
    } else if d == 1 {
        '1'
    } else if d == 2 {
        '2'
    } else if d == 3 {
        '3'
    } else if d == 4 {
        '4'
    } else if d == 5 {
        '5'
    } else if d == 6 {
        '6'
    } else if d == 7 {
        '7'
    } else if d == 8 {
        '8'
    } else {
        '9'
    }
}

/// The base address as text; none is the empty text.
pub open spec fn base_of(base: Option<String>) -> Seq<char> {
    match base {
        Some(text) => text@,
        None => Seq::empty(),
    }
}

/// One text after another.
fn joined(head: &str, tail: &str) -> (text: String)
    ensures
        text@ == head@ + tail@,
{
    head.to_owned().concat(tail)
}

/// A number in decimal.
///
/// Calls the `Display` impl of `u64` through `to_string`.
#[verifier::external_body]
fn decimal(n: u64) -> (text: String)
    ensures
        text@ == decimal_digits(n as nat),
{
    n.to_string()
}

fn base_text(base: &Option<String>) -> (text: &str)
    ensures
        text@ == base_of(*base),
{
    match base {
        Some(text) => text.as_str(),
        None => {
            proof {
                reveal_strlit("");
            }
            ""
        },
    }
}

/// The address of the archive's description: the base, then `/v1/info`.
pub fn info_url(base: &Option<String>) -> (url: String)
    ensures
        url@ == base_of(*base) + "/v1/info"@,
{
    joined(base_text(base), "/v1/info")
}

/// The address of the bundle for `height`: the base, then `/v1/block/raw/`,
/// then the height in decimal.
pub fn block_url(base: &Option<String>, height: u64) -> (url: String)
    ensures
        url@ == base_of(*base) + "/v1/block/raw/"@ + decimal_digits(height as nat),
{
    let prefix = joined(base_text(base), "/v1/block/raw/");
    let digits = decimal(height);
    joined(prefix.as_str(), digits.as_str())
}

/// The heights the archive can serve from its backfill: from the first
/// archived height up to, but not including, the last. A height the
/// description does not give is zero.
pub fn backfill_range(info: &ArchiverInfo) -> (range: (u64, u64))
    ensures
        range.0 == height_or_zero(info.first_backfill_archived_block),
        range.1 == height_or_zero(info.last_backfill_archived_block),
{
    let first = match info.first_backfill_archived_block {
        Some(h) => h,
        None => 0,
    };
    let last = match info.last_backfill_archived_block {
        Some(h) => h,
        None => 0,
    };
    (first, last)
}

/// Takes block and receipts out of a bundle. A bundle that lacks either
/// gives nothing to apply.
pub fn get_block_from_wvm(bundle: WvmArchiverDataBlock) -> (fetched: Result<FetchedBlock, FetchError>)
    ensures
        bundle.block is None ==> fetched is Err && fetched->Err_0 == FetchError::MissingBlock,
        bundle.block is Some && bundle.txs_receipts is None ==> fetched is Err && fetched->Err_0
            == FetchError::MissingReceipts,
        bundle.block is Some && bundle.txs_receipts is Some ==> {
            &&& fetched is Ok
            &&& fetched->Ok_0.block == bundle.block->Some_0
            &&& fetched->Ok_0.receipts == bundle.txs_receipts->Some_0
        },
{
    match bundle.block {
        None => Err(FetchError::MissingBlock),
        Some(block) => match bundle.txs_receipts {
            None => Err(FetchError::MissingReceipts),
            Some(receipts) => Ok(FetchedBlock { block, receipts }),
        },
    }
}

} // verus!
