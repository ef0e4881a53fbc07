use state_reconstruct::evm_wvm_types::{WvmBlock, WvmTransaction, WvmTransactionReceipt};
use state_reconstruct::rpc::get_block_txs_receipts;
use state_reconstruct::serde_arrays::{deserialize_256, serialize_256, InvalidLength};
use state_reconstruct::wvm_archiver::{
    block_url, get_block_from_wvm, info_url, FetchError, WvmArchiverDataBlock,
};

fn block_with(count: usize) -> WvmBlock<WvmTransaction> {
    WvmBlock {
        number: Some(5),
        transactions: (0..count)
            .map(|i| WvmTransaction { v: i as u64, ..Default::default() })
            .collect(),
        ..Default::default()
    }
}

fn receipt(index: u64) -> WvmTransactionReceipt {
    WvmTransactionReceipt { transaction_index: index, ..Default::default() }
}

#[test]
fn info_url_appends_the_path() {
    let base = Some("https://rss3.wvm.network".to_string());
    assert_eq!(info_url(&base), "https://rss3.wvm.network/v1/info");
    assert_eq!(info_url(&None), "/v1/info");
}

#[test]
fn block_url_appends_path_and_height() {
    let base = Some("https://phala.wvm.network".to_string());
    assert_eq!(block_url(&base, 0), "https://phala.wvm.network/v1/block/raw/0");
    assert_eq!(block_url(&base, 104), "https://phala.wvm.network/v1/block/raw/104");
    assert_eq!(
        block_url(&base, u64::MAX),
        "https://phala.wvm.network/v1/block/raw/18446744073709551615"
    );
    assert_eq!(block_url(&None, 7), "/v1/block/raw/7");
}

#[test]
fn bundle_with_block_and_receipts_unpacks() {
    let bundle = WvmArchiverDataBlock {
        block: Some(block_with(2)),
        txs_receipts: Some(vec![receipt(0), receipt(1)]),
    };
    let fetched = get_block_from_wvm(bundle).expect("complete bundle");
    assert_eq!(fetched.block, block_with(2));
    assert_eq!(fetched.receipts, vec![receipt(0), receipt(1)]);
}

#[test]
fn bundle_without_block_or_receipts_is_an_error() {
    let no_block = WvmArchiverDataBlock { block: None, txs_receipts: Some(vec![]) };
    assert_eq!(get_block_from_wvm(no_block).err(), Some(FetchError::MissingBlock));
    let nothing = WvmArchiverDataBlock { block: None, txs_receipts: None };
    assert_eq!(get_block_from_wvm(nothing).err(), Some(FetchError::MissingBlock));
    let no_receipts = WvmArchiverDataBlock { block: Some(block_with(0)), txs_receipts: None };
    assert_eq!(get_block_from_wvm(no_receipts).err(), Some(FetchError::MissingReceipts));
}

#[test]
fn block_with_every_receipt_is_ready() {
    let fetched = get_block_txs_receipts(
        block_with(3),
        vec![Some(receipt(0)), Some(receipt(1)), Some(receipt(2))],
    )
    .expect("every receipt is there");
    assert_eq!(fetched.block, block_with(3));
    assert_eq!(fetched.receipts, vec![receipt(0), receipt(1), receipt(2)]);
    let empty = get_block_txs_receipts(block_with(0), vec![]).expect("nothing is missing");
    assert!(empty.receipts.is_empty());
}

#[test]
fn first_missing_receipt_fails_the_height() {
    let result = get_block_txs_receipts(
        block_with(4),
        vec![Some(receipt(0)), None, Some(receipt(2)), None],
    );
    assert_eq!(result.err(), Some(FetchError::MissingReceipt { index: 1 }));
    let result = get_block_txs_receipts(block_with(1), vec![None]);
    assert_eq!(result.err(), Some(FetchError::MissingReceipt { index: 0 }));
}

#[test]
fn bloom_round_trips_through_its_wire_form() {
    let mut bloom = [0u8; 256];
    for (i, byte) in bloom.iter_mut().enumerate() {
        *byte = (i % 251) as u8;
    }
    let wire = serialize_256(&Some(bloom));
    assert_eq!(wire.as_deref(), Some(&bloom[..]));
    assert_eq!(deserialize_256(wire), Ok(Some(bloom)));
    assert_eq!(serialize_256(&None), None);
    assert_eq!(deserialize_256(None), Ok(None));
}

#[test]
fn bloom_of_another_length_is_refused() {
    assert_eq!(deserialize_256(Some(vec![0u8; 255])), Err(InvalidLength { found: 255 }));
    assert_eq!(deserialize_256(Some(vec![0u8; 257])), Err(InvalidLength { found: 257 }));
    assert_eq!(deserialize_256(Some(vec![])), Err(InvalidLength { found: 0 }));
}
