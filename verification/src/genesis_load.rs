//! The genesis document: chain configuration, header fields and the
//! accounts that exist before the first block.
//!
//! Numbers are kept as the text the document gives them in; they are read
//! when a reconstructor is made from the genesis.

use vstd::prelude::*;
use crate::text::{
    decode_hex, hex_bytes, parse_digits, parse_word, strip_leading, without_prefix,
};
use crate::account::{lemma_storage_view_insert, storage_view};
use crate::word::be_nat;
use crate::word_map::{WordMap, bytes_equal};

verus! {

/// A genesis document.
#[derive(Debug, Default, Clone)]
pub struct Genesis {
    pub config: GenesisConfig,
    /// The pre-funded accounts. Where an address stands twice, the later
    /// entry counts and the earlier one is passed over.
    pub alloc: Vec<([u8; 20], AccountAlloc)>,
    pub coinbase: [u8; 20],
    pub difficulty: String,
    pub extra_data: String,
    pub gas_limit: String,
    pub nonce: String,
    pub mixhash: String,
    pub parent_hash: String,
    pub timestamp: String,
    pub number: String,
    pub gas_used: String,
    pub base_fee_per_gas: String,
    pub excess_blob_gas: Option<String>,
    pub blob_gas_used: Option<String>,
}

/// The fork schedule of a chain.
#[derive(Debug, Clone, Default)]
pub struct GenesisConfig {
    pub chain_id: u64,
    pub homestead_block: u64,
    pub eip150_block: u64,
    pub eip155_block: u64,
    pub eip158_block: u64,
    pub byzantium_block: u64,
    pub constantinople_block: u64,
    pub petersburg_block: u64,
    pub istanbul_block: u64,
    pub berlin_block: u64,
    pub london_block: u64,
    pub merge_netsplit_block: u64,
    pub terminal_total_difficulty: u64,
    pub terminal_total_difficulty_passed: bool,
    pub shanghai_time: u64,
    pub cancun_time: u64,
    pub deposit_contract_address: [u8; 20],
}

/// One pre-funded account: a decimal balance, hexadecimal code and nonce,
/// and storage slots.
#[derive(Debug, Clone, Default)]
pub struct AccountAlloc {
    pub balance: String,
    pub code: String,
    /// Slot and value, in the order of the document. Where a slot stands
    /// twice, the later value counts.
    pub storage: Vec<([u8; 32], [u8; 32])>,
    pub nonce: String,
}

/// Whether a later entry of the allocation names the address of entry `i`,
/// so that entry `i` does not count.
pub open spec fn overridden(entries: Seq<([u8; 20], AccountAlloc)>, i: int) -> bool {
    exists|j: int| i < j < entries.len() && #[trigger] entries[j].0@ == entries[i].0@
}

/// Whether a later entry of the allocation names the address of entry `i`.
pub fn is_overridden(entries: &Vec<([u8; 20], AccountAlloc)>, i: usize) -> (later: bool)
    requires
        i < entries.len(),
    ensures
        later == overridden(entries@, i as int),
{
    let mut j: usize = i + 1;
    while j < entries.len()
        invariant
            i < j <= entries.len(),
            forall|k: int| i < k < j ==> #[trigger] entries@[k].0@ != entries@[i as int].0@,
        decreases entries.len() - j,
    {
        if bytes_equal(&entries[j].0, &entries[i].0) {
            return true;
        }
        j += 1;
    }
    false
}

/// The marker that may stand before hexadecimal digits.
pub open spec fn hex_marker() -> Seq<char> {
    seq!['0', 'x']
}

/// `text` without the marker, where it starts with one.
pub open spec fn unmarked(text: Seq<char>) -> Seq<char> {
    match without_prefix(text, hex_marker()) {
        Some(rest) => rest,
        None => text,
    }
}

/// The number a hexadecimal field spells: one marker may stand before the
/// digits, and the digits are hexadecimal digits of either case and nothing
/// else. No digits spell zero.
pub open spec fn hex_quantity_of(text: Seq<char>) -> Option<nat> {
    parse_word(unmarked(text), 16, false)
}

/// The bytes a code field spells: one leading `0x` may stand before the
/// digits; text that is not hexadecimal gives no code.
pub open spec fn code_of(text: Seq<char>) -> Seq<u8> {
    match hex_bytes(unmarked(text)) {
        Some(bytes) => bytes,
        None => Seq::empty(),
    }
}

/// The storage that a list of slots and values gives; a later entry for a
/// slot replaces an earlier one.
pub open spec fn slots_map(slots: Seq<([u8; 32], [u8; 32])>) -> Map<Seq<u8>, Seq<u8>>
    decreases slots.len(),
{
    if slots.len() == 0 {
        Map::empty()
    } else {
        slots_map(slots.drop_last()).insert(slots.last().0@, slots.last().1@)
    }
}

/// The storage of a genesis account.
pub fn storage_of(slots: &Vec<([u8; 32], [u8; 32])>) -> (storage: WordMap<[u8; 32]>)
    ensures
        storage_view(storage@) == slots_map(slots@),
{
    let mut storage: WordMap<[u8; 32]> = WordMap::new();
    let mut i: usize = 0;
    while i < slots.len()
        invariant
            i <= slots.len(),
            storage_view(storage@) == slots_map(slots@.take(i as int)),
        decreases slots.len() - i,
    {
        let slot = slots[i].0;
        let value = slots[i].1;
        proof {
            let next = slots@.take(i + 1);
            assert(next.drop_last() =~= slots@.take(i as int));
            lemma_storage_view_insert(storage@, slot@, value);
        }
        storage.insert(slot, value);
        i += 1;
    }
    assert(slots@.take(i as int) =~= slots@);
    storage
}

/// `text` without the marker, where it starts with one.
fn without_marker(text: &str) -> (rest: &str)
    ensures
        rest@ == unmarked(text@),
{
    proof {
        reveal_strlit("0x");
    }
    match strip_leading(text, "0x") {
        Some(rest) => rest,
        None => text,
    }
}

/// Reads a hexadecimal number of at most 256 bits.
pub fn hex_quantity(text: &str) -> (word: Option<[u8; 32]>)
    ensures
        match word {
            Some(w) => hex_quantity_of(text@) == Some(be_nat(w@)),
            None => hex_quantity_of(text@) is None,
        },
{
    parse_digits(without_marker(text), 16)
}

/// Reads the code of an account; malformed text gives empty code.
pub fn decode_code(text: &str) -> (code: Vec<u8>)
    ensures
        code@ == code_of(text@),
{
    match decode_hex(without_marker(text)) {
        Some(bytes) => bytes,
        None => Vec::new(),
    }
}

} // verus!
