//! 256-bit unsigned integers as 32 big-endian bytes.
//!
//! Balances, nonces, storage slots and the numeric fields of blocks and
//! transactions are all carried as `[u8; 32]`. Their meaning is the natural
//! number that [`be_nat`] gives; arithmetic on them is done by the
//! `ethereum-types` and `ruint` integer types.

use vstd::prelude::*;

verus! {

/// The natural number that `bytes` spell in base 256, most significant byte
/// first.
pub open spec fn be_nat(bytes: Seq<u8>) -> nat
    decreases bytes.len(),
{
    if bytes.len() == 0 {
        0
    } else {
        be_nat(bytes.drop_last()) * 256 + bytes.last() as nat
    }
}

/// Two to the power 256: the first number that does not fit in a word.
pub open spec fn word_limit() -> nat {
    0x1_0000_0000_0000_0000_0000_0000_0000_0000_0000_0000_0000_0000_0000_0000_0000_0000nat
}

/// 256 to the power `n`.
pub open spec fn pow256(n: nat) -> nat
    decreases n,
{
    if n == 0 {
        1
    } else {
        256 * pow256((n - 1) as nat)
    }
}

/// A byte string spells a number below 256 to the power of its length.
pub proof fn lemma_be_nat_below_pow(bytes: Seq<u8>)
    ensures
        be_nat(bytes) < pow256(bytes.len()),
    decreases bytes.len(),
{
    if bytes.len() > 0 {
        lemma_be_nat_below_pow(bytes.drop_last());
    }
}

/// 256 to the power 32 is two to the power 256.
pub proof fn lemma_pow256_of_32()
    ensures
        pow256(32) == word_limit(),
{
    reveal_with_fuel(pow256, 9);
    assert(pow256(8) == 0x1_0000_0000_0000_0000);
    assert(pow256(16) == 0x1_0000_0000_0000_0000_0000_0000_0000_0000);
    assert(pow256(24) == 0x1_0000_0000_0000_0000_0000_0000_0000_0000_0000_0000_0000_0000);
}

/// Every word spells a number below two to the power 256.
pub proof fn lemma_word_below_limit(word: [u8; 32])
    ensures
        be_nat(word@) < word_limit(),
{
    lemma_be_nat_below_pow(word@);
    lemma_pow256_of_32();
}

/// A sequence of zero bytes spells zero.
pub proof fn lemma_be_nat_zero(bytes: Seq<u8>)
    requires
        forall|i: int| 0 <= i < bytes.len() ==> bytes[i] == 0,
    ensures
        be_nat(bytes) == 0,
    decreases bytes.len(),
{
    if bytes.len() > 0 {
        lemma_be_nat_zero(bytes.drop_last());
    }
}

/// The word that spells zero.
pub fn zero_word() -> (word: [u8; 32])
    ensures
        be_nat(word@) == 0,
        forall|i: int| 0 <= i < 32 ==> word@[i] == 0,
{
    let word = [0u8; 32];
    proof {
        lemma_be_nat_zero(word@);
    }
    word
}

/// `a + b` where it fits in a word.
///
/// Calls `ethereum_types::U256::checked_add`, which returns `None` exactly
/// when the sum needs more than 256 bits.
#[verifier::external_body]
pub(crate) fn word_checked_add(a: &[u8; 32], b: &[u8; 32]) -> (sum: Option<[u8; 32]>)
    ensures
        match sum {
            Some(word) => be_nat(word@) == be_nat(a@) + be_nat(b@),
            None => be_nat(a@) + be_nat(b@) >= word_limit(),
        },
{
    let total = ethereum_types::U256::from_big_endian(a).checked_add(
        ethereum_types::U256::from_big_endian(b),
    )?;
    let mut word = [0u8; 32];
    total.to_big_endian(&mut word);
    Some(word)
}

/// `a - b` where `b` is not larger than `a`.
///
/// Calls `ethereum_types::U256::checked_sub`, which returns `None` exactly
/// when the difference would be negative.
#[verifier::external_body]
pub(crate) fn word_checked_sub(a: &[u8; 32], b: &[u8; 32]) -> (difference: Option<[u8; 32]>)
    ensures
        match difference {
            Some(word) => be_nat(word@) + be_nat(b@) == be_nat(a@),
            None => be_nat(a@) < be_nat(b@),
        },
{
    let rest = ethereum_types::U256::from_big_endian(a).checked_sub(
        ethereum_types::U256::from_big_endian(b),
    )?;
    let mut word = [0u8; 32];
    rest.to_big_endian(&mut word);
    Some(word)
}

/// `a * b` where it fits in a word.
///
/// Calls `ethereum_types::U256::checked_mul`, which returns `None` exactly
/// when the product needs more than 256 bits.
#[verifier::external_body]
pub(crate) fn word_checked_mul(a: &[u8; 32], b: &[u8; 32]) -> (product: Option<[u8; 32]>)
    ensures
        match product {
            Some(word) => be_nat(word@) == be_nat(a@) * be_nat(b@),
            None => be_nat(a@) * be_nat(b@) >= word_limit(),
        },
{
    let total = ethereum_types::U256::from_big_endian(a).checked_mul(
        ethereum_types::U256::from_big_endian(b),
    )?;
    let mut word = [0u8; 32];
    total.to_big_endian(&mut word);
    Some(word)
}

/// The word that spells `n`.
///
/// Calls `ethereum_types::U256::from(u64)` and writes the value out with
/// `to_big_endian`.
#[verifier::external_body]
pub(crate) fn word_from_u64(n: u64) -> (word: [u8; 32])
    ensures
        be_nat(word@) == n,
{
    let mut word = [0u8; 32];
    ethereum_types::U256::from(n).to_big_endian(&mut word);
    word
}

/// The number a word spells, where it fits in 64 bits.
///
/// Calls ruint's `TryFrom<Uint> for u64`, which fails exactly when the value
/// is larger than `u64::MAX`.
#[verifier::external_body]
pub(crate) fn word_to_u64(word: &[u8; 32]) -> (n: Option<u64>)
    ensures
        match n {
            Some(small) => be_nat(word@) == small,
            None => be_nat(word@) > u64::MAX,
        },
{
    u64::try_from(revm::primitives::U256::from_be_bytes(*word)).ok()
}

} // verus!
