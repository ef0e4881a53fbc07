//! The state of one account, and how addresses become store keys.

use vstd::prelude::*;
use crate::word::{be_nat, zero_word};
use crate::word_map::WordMap;

verus! {

/// Balance, nonce, code and storage of one address.
#[derive(Debug, Clone)]
pub struct AccountState {
    pub nonce: [u8; 32],
    pub balance: [u8; 32],
    pub storage: WordMap<[u8; 32]>,
    pub code: Vec<u8>,
}

/// What an [`AccountState`] means: two numbers, a byte string and a map
/// from slot to value.
pub struct AccountStateView {
    pub nonce: nat,
    pub balance: nat,
    pub storage: Map<Seq<u8>, Seq<u8>>,
    pub code: Seq<u8>,
}

/// The account that stands for every address without an entry: nonce and
/// balance zero, no code, no storage.
pub open spec fn zero_account() -> AccountStateView {
    AccountStateView { nonce: 0, balance: 0, storage: Map::empty(), code: Seq::empty() }
}

/// A store without accounts.
pub open spec fn empty_store() -> Map<Seq<u8>, AccountStateView> {
    Map::empty()
}

/// The meaning of a storage map: each stored word by its bytes.
pub open spec fn storage_view(storage: Map<Seq<u8>, [u8; 32]>) -> Map<Seq<u8>, Seq<u8>> {
    storage.map_values(|word: [u8; 32]| word@)
}

/// The meaning of an account map: each account by its view.
pub open spec fn accounts_view(accounts: Map<Seq<u8>, AccountState>) -> Map<
    Seq<u8>,
    AccountStateView,
> {
    accounts.map_values(|state: AccountState| state@)
}

/// The account at `key`, or the zero account where there is none.
pub open spec fn account_or_zero(
    accounts: Map<Seq<u8>, AccountStateView>,
    key: Seq<u8>,
) -> AccountStateView {
    if accounts.contains_key(key) {
        accounts[key]
    } else {
        zero_account()
    }
}

/// A 20-byte address as a 32-byte store key: twelve zero bytes, then the
/// address.
pub open spec fn widened(address: Seq<u8>) -> Seq<u8> {
    Seq::new(12, |i: int| 0u8) + address
}

impl View for AccountState {
    type V = AccountStateView;

    open spec fn view(&self) -> AccountStateView {
        AccountStateView {
            nonce: be_nat(self.nonce@),
            balance: be_nat(self.balance@),
            storage: storage_view(self.storage@),
            code: self.code@,
        }
    }
}

impl AccountState {
    /// The zero account.
    pub fn empty() -> (state: Self)
        ensures
            state@ == zero_account(),
    {
        let state = AccountState {
            nonce: zero_word(),
            balance: zero_word(),
            storage: WordMap::new(),
            code: Vec::new(),
        };
        assert(state@.storage =~= Map::empty());
        state
    }
}

/// Widening commutes with storing: the view of a map after an insert is the
/// view before with the view of the new state inserted.
pub proof fn lemma_accounts_view_insert(
    accounts: Map<Seq<u8>, AccountState>,
    key: Seq<u8>,
    state: AccountState,
)
    ensures
        accounts_view(accounts.insert(key, state)) == accounts_view(accounts).insert(key, state@),
{
    assert(accounts_view(accounts.insert(key, state)) =~= accounts_view(accounts).insert(
        key,
        state@,
    ));
}

/// The same for one storage slot.
pub proof fn lemma_storage_view_insert(
    storage: Map<Seq<u8>, [u8; 32]>,
    slot: Seq<u8>,
    word: [u8; 32],
)
    ensures
        storage_view(storage.insert(slot, word)) == storage_view(storage).insert(slot, word@),
{
    assert(storage_view(storage.insert(slot, word)) =~= storage_view(storage).insert(
        slot,
        word@,
    ));
}

/// The store key of an address.
pub fn address_key(address: &[u8; 20]) -> (key: [u8; 32])
    ensures
        key@ == widened(address@),
{
    let mut key = [0u8; 32];
    let mut i: usize = 0;
    while i < 20
        invariant
            i <= 20,
            forall|j: int| 0 <= j < 12 ==> key@[j] == 0,
            forall|j: int| 0 <= j < i ==> key@[12 + j] == address@[j],
        decreases 20 - i,
    {
        key[12 + i] = address[i];
        i += 1;
    }
    assert(key@ =~= widened(address@));
    key
}

/// Distinct addresses have distinct keys.
pub proof fn lemma_widened_injective(a: Seq<u8>, b: Seq<u8>)
    requires
        widened(a) == widened(b),
    ensures
        a == b,
{
    assert(a.len() == b.len()) by {
        assert(widened(a).len() == 12 + a.len());
        assert(widened(b).len() == 12 + b.len());
    }
    assert forall|i: int| 0 <= i < a.len() implies a[i] == b[i] by {
        assert(widened(a)[12 + i] == a[i]);
        assert(widened(b)[12 + i] == b[i]);
    }
    assert(a =~= b);
}

} // verus!
