//! The chain-agnostic wire form of blocks, transactions, receipts and logs.
//!
//! Hashes, addresses and 256-bit integers are fixed-width byte arrays; the
//! integers are big-endian.

use vstd::prelude::*;

verus! {

/// A transaction as the archive stores it.
#[derive(Debug, Clone, PartialEq, Eq, Default)]
pub struct WvmTransaction {
    // Optimism fields
    pub source_hash: Option<[u8; 32]>,
    pub mint: Option<[u8; 32]>,
    pub is_system_tx: bool,
    // Celo fields
    pub fee_currency: Option<[u8; 20]>,
    pub gateway_fee_recipient: Option<[u8; 20]>,
    pub gateway_fee: Option<[u8; 32]>,
    // Base transaction fields
    pub hash: [u8; 32],
    pub nonce: [u8; 32],
    pub block_hash: Option<[u8; 32]>,
    pub block_number: Option<u64>,
    pub transaction_index: Option<u64>,
    pub from: [u8; 20],
    pub to: Option<[u8; 20]>,
    pub value: [u8; 32],
    pub gas_price: Option<[u8; 32]>,
    pub gas: [u8; 32],
    pub input: Vec<u8>,
    pub v: u64,
    pub r: [u8; 32],
    pub s: [u8; 32],
    pub transaction_type: Option<u64>,
    pub access_list: Option<Vec<(Vec<u8>, Vec<[u8; 32]>)>>,
    pub max_priority_fee_per_gas: Option<[u8; 32]>,
    pub max_fee_per_gas: Option<[u8; 32]>,
    pub chain_id: Option<[u8; 32]>,
}

/// A block as the archive stores it, with its transactions in chain order.
#[derive(Debug, Default, Clone, PartialEq, Eq)]
pub struct WvmBlock<TX> {
    pub hash: Option<[u8; 32]>,
    pub parent_hash: [u8; 32],
    pub uncles_hash: [u8; 32],
    pub author: Option<[u8; 20]>,
    pub state_root: [u8; 32],
    pub transactions_root: [u8; 32],
    pub receipts_root: [u8; 32],
    pub number: Option<u64>,
    pub gas_used: [u8; 32],
    pub gas_limit: [u8; 32],
    pub extra_data: Vec<u8>,
    pub logs_bloom: Option<[u8; 256]>,
    pub timestamp: [u8; 32],
    pub difficulty: [u8; 32],
    pub total_difficulty: Option<[u8; 32]>,
    pub seal_fields: Vec<Vec<u8>>,
    pub uncles: Vec<[u8; 32]>,
    pub transactions: Vec<TX>,
    pub size: Option<[u8; 32]>,
    pub mix_hash: Option<[u8; 32]>,
    pub nonce: Option<[u8; 8]>,
    pub base_fee_per_gas: Option<[u8; 32]>,
    pub blob_gas_used: Option<[u8; 32]>,
    pub excess_blob_gas: Option<[u8; 32]>,
    pub withdrawals_root: Option<[u8; 32]>,
    pub withdrawals: Option<Vec<WvmWithdrawal>>,
    pub parent_beacon_block_root: Option<[u8; 32]>,
}

/// A validator withdrawal.
#[derive(Debug, Clone, PartialEq, Eq, Default)]
pub struct WvmWithdrawal {
    pub index: u64,
    pub validator_index: u64,
    pub address: [u8; 20],
    pub amount: u64,
}

/// The receipt of one transaction.
#[derive(Debug, Clone, PartialEq, Eq, Default)]
pub struct WvmTransactionReceipt {
    pub transaction_hash: [u8; 32],
    pub transaction_index: u64,
    pub block_hash: Option<[u8; 32]>,
    pub block_number: Option<u64>,
    pub from: [u8; 20],
    pub to: Option<[u8; 20]>,
    pub cumulative_gas_used: [u8; 32],
    pub gas_used: Option<[u8; 32]>,
    pub contract_address: Option<[u8; 20]>,
    pub logs: Vec<WvmLog>,
    pub status: Option<u64>,
    pub root: Option<[u8; 32]>,
    pub logs_bloom: Option<[u8; 256]>,
    pub transaction_type: Option<u64>,
    pub effective_gas_price: Option<[u8; 32]>,
    // Optimism fields
    pub deposit_nonce: Option<u64>,
    pub l1_fee: Option<[u8; 32]>,
    pub l1_fee_scalar: Option<[u8; 32]>,
    pub l1_gas_price: Option<[u8; 32]>,
    pub l1_gas_used: Option<[u8; 32]>,
}

/// One log entry of a receipt.
#[derive(Debug, Clone, PartialEq, Eq, Default)]
pub struct WvmLog {
    pub address: [u8; 20],
    pub topics: Vec<[u8; 32]>,
    pub data: Vec<u8>,
    pub block_hash: Option<[u8; 32]>,
    pub block_number: Option<u64>,
    pub transaction_hash: Option<[u8; 32]>,
    pub transaction_index: Option<u64>,
    pub log_index: Option<u64>,
    pub removed: bool,
    pub transaction_log_index: Option<u64>,
    pub log_type: Option<String>,
}

} // verus!
