//! Putting a block from a live node together with the receipts of its
//! transactions.
//!
//! A node is asked once per transaction for the receipt. A block goes on to
//! replay only with every receipt in hand: where one is missing, the whole
//! height counts as not fetched, so that a block never arrives with fewer
//! receipts than transactions.

use vstd::prelude::*;
use crate::evm_wvm_types::{WvmBlock, WvmTransaction, WvmTransactionReceipt};
use crate::wvm_archiver::{FetchError, FetchedBlock};

verus! {

/// The index of the first transaction without a receipt, if there is one.
pub open spec fn first_missing(found: Seq<Option<WvmTransactionReceipt>>) -> Option<int> {
    if exists|i: int| 0 <= i < found.len() && found[i] is None {
        Some(
            choose|i: int|
                0 <= i < found.len() && found[i] is None && forall|j: int|
                    0 <= j < i ==> found[j] is Some,
        )
    } else {
        None
    }
}

/// The first index without a receipt exists and is the least such index.
pub proof fn lemma_first_missing(found: Seq<Option<WvmTransactionReceipt>>, i: int)
    requires
        0 <= i < found.len(),
        found[i] is None,
        forall|j: int| 0 <= j < i ==> found[j] is Some,
    ensures
        first_missing(found) == Some(i),
{
    let chosen = choose|k: int|
        0 <= k < found.len() && found[k] is None && forall|j: int| 0 <= j < k ==> found[j] is Some;
    assert(chosen == i) by {
        if chosen < i {
            assert(found[chosen] is Some);
        }
        if i < chosen {
            assert(found[i] is Some);
        }
    }
}

/// Joins a block with what the node answered for each of its transactions,
/// in the block's order.
///
/// With a receipt for every transaction the block is ready for replay. The
/// first transaction without one fails the height.
pub fn get_block_txs_receipts(
    block: WvmBlock<WvmTransaction>,
    answers: Vec<Option<WvmTransactionReceipt>>,
) -> (fetched: Result<FetchedBlock, FetchError>)
    ensures
        match first_missing(answers@) {
            Some(index) => {
                &&& fetched is Err
                &&& fetched->Err_0 is MissingReceipt
                &&& fetched->Err_0->index == index
            },
            None => {
                &&& fetched is Ok
                &&& fetched->Ok_0.block == block
                &&& fetched->Ok_0.receipts@.len() == answers@.len()
                &&& forall|i: int|
                    0 <= i < answers@.len() ==> answers@[i] == Some(
                        #[trigger] fetched->Ok_0.receipts@[i],
                    )
            },
        },
{
    let mut receipts: Vec<WvmTransactionReceipt> = Vec::new();
    for answer in iter: answers
        invariant
            iter.seq() == answers@,
            receipts@.len() == iter.index(),
            forall|i: int| 0 <= i < iter.index() ==> #[trigger] answers@[i] == Some(receipts@[i]),
    {
        match answer {
            Some(receipt) => {
                receipts.push(receipt);
            },
            None => {
                proof {
                    lemma_first_missing(answers@, receipts@.len() as int);
                }
                return Err(FetchError::MissingReceipt { index: receipts.len() });
            },
        }
    }
    assert(first_missing(answers@) is None) by {
        if exists|i: int| 0 <= i < answers@.len() && answers@[i] is None {
            let i = choose|i: int| 0 <= i < answers@.len() && answers@[i] is None;
            assert(answers@[i] == Some(receipts@[i]));
        }
    }
    Ok(FetchedBlock { block, receipts })
}

} // verus!
