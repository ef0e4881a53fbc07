//! The address of a contract that a transaction creates.
//!
//! The address is the last twenty bytes of the Keccak-256 hash of the RLP
//! list of the sender's address and the sender's nonce. The nonce is an RLP
//! integer: its big-endian bytes without leading zeros, zero being the empty
//! string. This is the address the execution engine itself gives to the
//! contract.

use vstd::prelude::*;

verus! {

/// The big-endian bytes of `n` without leading zeros; none for zero.
pub open spec fn minimal_be_bytes(n: nat) -> Seq<u8>
    decreases n,
{
    if n == 0 {
        Seq::empty()
    } else {
        minimal_be_bytes(n / 256).push((n % 256) as u8)
    }
}

/// The RLP encoding of a byte string of fewer than 56 bytes: a single byte
/// below `0x80` stands for itself, any other string follows its length
/// header `0x80 + len`.
pub open spec fn rlp_string(bytes: Seq<u8>) -> Seq<u8> {
    if bytes.len() == 1 && bytes[0] < 0x80 {
        bytes
    } else {
        seq![(0x80 + bytes.len()) as u8] + bytes
    }
}

/// The RLP encoding of the list of an address and a nonce: the list header
/// `0xc0 + len` for a payload of fewer than 56 bytes, then the address as a
/// string and the nonce as an integer.
pub open spec fn rlp_address_nonce(address: Seq<u8>, nonce: nat) -> Seq<u8> {
    let payload = rlp_string(address) + rlp_string(minimal_be_bytes(nonce));
    seq![(0xc0 + payload.len()) as u8] + payload
}

/// The Keccak-256 hash of `bytes`.
pub uninterp spec fn keccak256_of(bytes: Seq<u8>) -> Seq<u8>;

/// The address of the contract that `sender` creates at `nonce`.
pub open spec fn contract_address_of(sender: Seq<u8>, nonce: nat) -> Seq<u8> {
    keccak256_of(rlp_address_nonce(sender, nonce)).subrange(12, 32)
}

/// RLP-encodes the pair of an address and a nonce.
///
/// Calls `RlpStream::new_list(2)`, `append` with the address as a byte
/// string and with the nonce as a `u64`, and `out`. The address is twenty
/// bytes, so it gets the header `0x94`; a `u64` is appended as its
/// big-endian bytes without leading zero bytes, encoded as a string; the
/// payload is at most thirty bytes, so the list gets a one-byte header.
#[verifier::external_body]
pub(crate) fn rlp_encode_pair(address: &[u8; 20], nonce: u64) -> (encoded: Vec<u8>)
    ensures
        encoded@ == rlp_address_nonce(address@, nonce as nat),
{
    let mut stream = ethers_core::utils::rlp::RlpStream::new_list(2);
    stream.append(&address.as_slice());
    stream.append(&nonce);
    stream.out().to_vec()
}

/// Hashes bytes with Keccak-256.
///
/// Calls `alloy_primitives::keccak256` as `revm` re-exports it.
#[verifier::external_body]
pub(crate) fn keccak256(bytes: &Vec<u8>) -> (hash: [u8; 32])
    ensures
        hash@ == keccak256_of(bytes@),
{
    revm::primitives::keccak256(bytes).0
}

/// The last twenty bytes of a hash.
pub fn address_from_hash(hash: &[u8; 32]) -> (address: [u8; 20])
    ensures
        address@ == hash@.subrange(12, 32),
{
    let mut address = [0u8; 20];
    let mut i: usize = 0;
    while i < 20
        invariant
            i <= 20,
            forall|j: int| 0 <= j < i ==> address@[j] == hash@[12 + j],
        decreases 20 - i,
    {
        address[i] = hash[12 + i];
        i += 1;
    }
    address
}

/// The address of the contract that `sender` creates with a transaction
/// sent at `nonce`. It depends on nothing but the two.
pub fn contract_address(sender: &[u8; 20], nonce: u64) -> (address: [u8; 20])
    ensures
        address@ == contract_address_of(sender@, nonce as nat),
{
    let encoded = rlp_encode_pair(sender, nonce);
    let hash = keccak256(&encoded);
    address_from_hash(&hash)
}

} // verus!
