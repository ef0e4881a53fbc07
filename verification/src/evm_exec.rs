//! Replay on the execution engine.
//!
//! A [`StateReconstructor`] owns an engine and a store of account states.
//! Each transaction is run by the engine; after a success, the accounts the
//! transaction touched are read back from the engine and written to the
//! store.

use vstd::prelude::*;
use crate::account::{
    AccountStateView, accounts_view, address_key, empty_store, lemma_accounts_view_insert,
    widened,
};
use crate::address::{contract_address, contract_address_of};
use crate::block::{BlockError, block_height, height_of};
use crate::engine::{
    BlockContext, BlockContextView, Engine, EngineAccount, EngineAccountInfo, ExecutionOutcome,
    TxRequest, TxRequestView, engine_accounts, engine_block, no_accounts, refusal_text,
    transacted, with_account_info, with_storage_slot,
};
use crate::evm_wvm_types::{WvmBlock, WvmTransaction, WvmTransactionReceipt};
use crate::genesis_load::{
    AccountAlloc, Genesis, code_of, decode_code, hex_quantity, hex_quantity_of, is_overridden,
    overridden, slots_map, storage_of,
};
use crate::text::{parse_digits, parse_word};
use crate::word::{be_nat, word_from_u64, word_to_u64, zero_word};
use crate::word_map::WordMap;

pub use crate::account::AccountState;

verus! {

/// Why a transaction left no outcome.
#[derive(Debug, Clone, PartialEq, Eq)]
pub enum ExecError {
    /// The gas limit of the transaction does not fit in 64 bits.
    GasLimitTooLarge,
    /// The engine refused the transaction; the text is the engine's reason.
    Refused(String),
}

/// The store and the engine's database, as far as replay depends on them.
pub struct Snapshot {
    pub store: Map<Seq<u8>, AccountStateView>,
    pub engine: Map<Seq<u8>, EngineAccount>,
}

/// Replays blocks on an execution engine and keeps the resulting accounts.
pub struct StateReconstructor {
    pub evm: Engine,
    pub accounts: WordMap<AccountState>,
    pub block_number: u64,
}

/// The request the engine gets for `tx`: caller, gas price (zero where the
/// transaction has none), gas limit, target, value and input. `None` where
/// the gas limit is above `u64::MAX`.
pub open spec fn request_of(tx: WvmTransaction) -> Option<TxRequestView> {
    if be_nat(tx.gas@) > u64::MAX {
        None
    } else {
        Some(
            TxRequestView {
                caller: tx.from@,
                gas_price: match tx.gas_price {
                    Some(price) => be_nat(price@),
                    None => 0,
                },
                gas_limit: be_nat(tx.gas@),
                to: match tx.to {
                    Some(target) => Some(target@),
                    None => None,
                },
                value: be_nat(tx.value@),
                data: tx.input@,
            },
        )
    }
}

/// The account state that the store keeps for what the engine reports.
/// Storage is not read back, and the kind of the code is not kept.
pub open spec fn info_state(info: EngineAccountInfo) -> AccountStateView {
    AccountStateView {
        nonce: info.nonce as nat,
        balance: be_nat(info.balance@),
        storage: Map::empty(),
        code: info.code@,
    }
}

/// The store after writing what the engine reported for `address`: the
/// entry is overwritten, or the store is left alone where nothing was
/// reported.
pub open spec fn recorded(
    store: Map<Seq<u8>, AccountStateView>,
    address: Seq<u8>,
    info: Option<EngineAccountInfo>,
) -> Map<Seq<u8>, AccountStateView> {
    match info {
        Some(found) => store.insert(widened(address), info_state(found)),
        None => store,
    }
}

/// The store after reading `address` back from a database with the entries
/// `engine`.
pub open spec fn synced(
    store: Map<Seq<u8>, AccountStateView>,
    engine: Map<Seq<u8>, EngineAccount>,
    address: Seq<u8>,
) -> Map<Seq<u8>, AccountStateView> {
    if engine.contains_key(address) && engine[address].exists {
        store.insert(
            widened(address),
            AccountStateView {
                nonce: engine[address].nonce,
                balance: engine[address].balance,
                storage: Map::empty(),
                code: engine[address].code,
            },
        )
    } else {
        store
    }
}

/// The nonce the database holds for `sender`; zero where it has no
/// existing entry.
pub open spec fn nonce_in(engine: Map<Seq<u8>, EngineAccount>, sender: Seq<u8>) -> nat {
    if engine.contains_key(sender) && engine[sender].exists {
        engine[sender].nonce
    } else {
        0
    }
}

/// The store after a successful transaction: the sender is read back, then
/// the recipient, or, for a creation, the contract at the address derived
/// from the sender and the nonce the sender had before the transaction.
pub open spec fn store_after_success(
    store: Map<Seq<u8>, AccountStateView>,
    engine_after: Map<Seq<u8>, EngineAccount>,
    tx: WvmTransaction,
    nonce_before: nat,
) -> Map<Seq<u8>, AccountStateView> {
    let with_sender = synced(store, engine_after, tx.from@);
    match tx.to {
        Some(target) => synced(with_sender, engine_after, target@),
        None => synced(with_sender, engine_after, contract_address_of(tx.from@, nonce_before)),
    }
}

/// The store after a transaction that the engine ran: read back after a
/// success, left alone after a revert or a halt.
pub open spec fn store_after_outcome(
    store: Map<Seq<u8>, AccountStateView>,
    engine_after: Map<Seq<u8>, EngineAccount>,
    tx: WvmTransaction,
    outcome: ExecutionOutcome,
    nonce_before: nat,
) -> Map<Seq<u8>, AccountStateView> {
    match outcome {
        ExecutionOutcome::Success { .. } => store_after_success(
            store,
            engine_after,
            tx,
            nonce_before,
        ),
        _ => store,
    }
}

/// Store and database after one transaction. A transaction whose gas limit
/// is too large changes nothing. Otherwise the database is what the engine
/// leaves, and the store changes only on success.
pub open spec fn after_transaction(
    before: Snapshot,
    block: BlockContextView,
    tx: WvmTransaction,
) -> Snapshot {
    match request_of(tx) {
        None => before,
        Some(request) => {
            let run = transacted(before.engine, block, request);
            Snapshot {
                engine: run.accounts,
                store: match run.outcome {
                    Some(outcome) => store_after_outcome(
                        before.store,
                        run.accounts,
                        tx,
                        outcome,
                        nonce_in(before.engine, tx.from@),
                    ),
                    None => before.store,
                },
            }
        },
    }
}

/// Whether `result` is what one transaction returns from `before`.
pub open spec fn is_result_of(
    result: Result<ExecutionOutcome, ExecError>,
    before: Snapshot,
    block: BlockContextView,
    tx: WvmTransaction,
) -> bool {
    match request_of(tx) {
        None => result == Err::<ExecutionOutcome, ExecError>(ExecError::GasLimitTooLarge),
        Some(request) => match transacted(before.engine, block, request).outcome {
            Some(outcome) => result == Ok::<ExecutionOutcome, ExecError>(outcome),
            None => result matches Err(ExecError::Refused(_)),
        },
    }
}

/// Store and database after the transactions of `txs`, applied in order.
pub open spec fn after_transactions(
    before: Snapshot,
    block: BlockContextView,
    txs: Seq<WvmTransaction>,
) -> Snapshot
    decreases txs.len(),
{
    if txs.len() == 0 {
        before
    } else {
        after_transaction(after_transactions(before, block, txs.drop_last()), block, txs.last())
    }
}

/// Whether `results` holds, for each transaction of `txs` in order, what it
/// returns from the state the transactions before it left.
pub open spec fn are_results_of(
    results: Seq<Result<ExecutionOutcome, ExecError>>,
    before: Snapshot,
    block: BlockContextView,
    txs: Seq<WvmTransaction>,
) -> bool {
    &&& results.len() == txs.len()
    &&& forall|i: int|
        0 <= i < txs.len() ==> is_result_of(
            #[trigger] results[i],
            after_transactions(before, block, txs.take(i)),
            block,
            txs[i],
        )
}

/// A parsed number, or `fallback` where the text did not parse.
pub open spec fn number_or(parsed: Option<nat>, fallback: nat) -> nat {
    match parsed {
        Some(value) => value,
        None => fallback,
    }
}

/// The block context of an engine that is made without a genesis: a gas
/// limit of thirty million at timestamp one, everything else zero.
pub open spec fn plain_block_context() -> BlockContextView {
    BlockContextView {
        gas_limit: 30_000_000,
        number: 0,
        timestamp: 1,
        coinbase: Seq::new(20, |i: int| 0u8),
        difficulty: 0,
        basefee: 0,
    }
}

/// The block context a genesis header gives. A field that does not parse
/// is zero, but for the gas limit, which is then thirty million.
pub open spec fn genesis_block_context(genesis: Genesis) -> BlockContextView {
    BlockContextView {
        gas_limit: number_or(hex_quantity_of(genesis.gas_limit@), 30_000_000),
        number: number_or(hex_quantity_of(genesis.number@), 0),
        timestamp: number_or(hex_quantity_of(genesis.timestamp@), 0),
        coinbase: genesis.coinbase@,
        difficulty: number_or(hex_quantity_of(genesis.difficulty@), 0),
        basefee: number_or(hex_quantity_of(genesis.base_fee_per_gas@), 0),
    }
}

/// The balance of a genesis account: its decimal text as a number, zero
/// where the text is not decimal digits alone or spells more than 256 bits.
pub open spec fn alloc_balance_of(alloc: AccountAlloc) -> nat {
    number_or(parse_word(alloc.balance@, 10, false), 0)
}

/// The nonce of a genesis account: its hexadecimal text as a number, zero
/// where the text does not parse or the number does not fit in 64 bits.
pub open spec fn alloc_nonce_of(alloc: AccountAlloc) -> nat {
    match hex_quantity_of(alloc.nonce@) {
        Some(nonce) => if nonce <= u64::MAX {
            nonce
        } else {
            0
        },
        None => 0,
    }
}

/// The state a genesis account starts with.
pub open spec fn alloc_state(alloc: AccountAlloc) -> AccountStateView {
    AccountStateView {
        nonce: alloc_nonce_of(alloc),
        balance: alloc_balance_of(alloc),
        storage: slots_map(alloc.storage@),
        code: code_of(alloc.code@),
    }
}

/// The store after the first `count` entries of a genesis allocation. An
/// entry that a later entry for the same address overrides is passed over.
pub open spec fn seeded_store(entries: Seq<([u8; 20], AccountAlloc)>, count: nat) -> Map<
    Seq<u8>,
    AccountStateView,
>
    decreases count,
{
    if count == 0 {
        Map::empty()
    } else if overridden(entries, count - 1) {
        seeded_store(entries, (count - 1) as nat)
    } else {
        seeded_store(entries, (count - 1) as nat).insert(
            widened(entries[count - 1].0@),
            alloc_state(entries[count - 1].1),
        )
    }
}

/// The store that a genesis allocation gives: one account for each address,
/// from the last entry that names it.
pub open spec fn genesis_store(entries: Seq<([u8; 20], AccountAlloc)>) -> Map<
    Seq<u8>,
    AccountStateView,
> {
    seeded_store(entries, entries.len())
}

/// The engine database after the slots of one account were written.
pub open spec fn engine_with_slots(
    accounts: Map<Seq<u8>, EngineAccount>,
    address: Seq<u8>,
    slots: Seq<([u8; 32], [u8; 32])>,
) -> Map<Seq<u8>, EngineAccount>
    decreases slots.len(),
{
    if slots.len() == 0 {
        accounts
    } else {
        with_storage_slot(
            engine_with_slots(accounts, address, slots.drop_last()),
            address,
            be_nat(slots.last().0@),
            be_nat(slots.last().1@),
        )
    }
}

/// The engine database after one genesis account was written: first its
/// nonce, balance and code, then its slots.
pub open spec fn engine_with_alloc(
    accounts: Map<Seq<u8>, EngineAccount>,
    address: Seq<u8>,
    alloc: AccountAlloc,
) -> Map<Seq<u8>, EngineAccount> {
    engine_with_slots(
        with_account_info(
            accounts,
            address,
            alloc_nonce_of(alloc),
            alloc_balance_of(alloc),
            code_of(alloc.code@),
        ),
        address,
        alloc.storage@,
    )
}

/// The engine database after the first `count` entries of a genesis
/// allocation. An entry that a later entry for the same address overrides
/// is passed over.
pub open spec fn seeded_engine(entries: Seq<([u8; 20], AccountAlloc)>, count: nat) -> Map<
    Seq<u8>,
    EngineAccount,
>
    decreases count,
{
    if count == 0 {
        no_accounts()
    } else if overridden(entries, count - 1) {
        seeded_engine(entries, (count - 1) as nat)
    } else {
        engine_with_alloc(
            seeded_engine(entries, (count - 1) as nat),
            entries[count - 1].0@,
            entries[count - 1].1,
        )
    }
}

/// The engine database that a genesis allocation gives: one account for
/// each address, from the last entry that names it.
pub open spec fn genesis_engine(entries: Seq<([u8; 20], AccountAlloc)>) -> Map<
    Seq<u8>,
    EngineAccount,
> {
    seeded_engine(entries, entries.len())
}

/// An entry that no later entry overrides is in the store from its place on.
pub proof fn lemma_seeded_entry_stays(
    entries: Seq<([u8; 20], AccountAlloc)>,
    i: int,
    count: nat,
)
    requires
        0 <= i < count <= entries.len(),
        !overridden(entries, i),
    ensures
        seeded_store(entries, count).contains_key(widened(entries[i].0@)),
        seeded_store(entries, count)[widened(entries[i].0@)] == alloc_state(entries[i].1),
    decreases count,
{
    if i < count - 1 {
        lemma_seeded_entry_stays(entries, i, (count - 1) as nat);
        let last = count - 1;
        assert(entries[last].0@ != entries[i].0@);
        assert(widened(entries[last].0@) != widened(entries[i].0@)) by {
            if widened(entries[last].0@) == widened(entries[i].0@) {
                crate::account::lemma_widened_injective(entries[last].0@, entries[i].0@);
            }
        }
    }
}

/// After bootstrap, the account of an allocation entry that no later entry
/// overrides holds that entry's state. Its balance is the entry's decimal
/// balance text as a number, or zero where the text does not parse.
pub proof fn lemma_genesis_sets_balance(entries: Seq<([u8; 20], AccountAlloc)>, i: int)
    requires
        0 <= i < entries.len(),
        !overridden(entries, i),
    ensures
        genesis_store(entries).contains_key(widened(entries[i].0@)),
        genesis_store(entries)[widened(entries[i].0@)] == alloc_state(entries[i].1),
        genesis_store(entries)[widened(entries[i].0@)].balance == (match parse_word(
            entries[i].1.balance@,
            10,
            false,
        ) {
            Some(balance) => balance,
            None => 0,
        }),
{
    lemma_seeded_entry_stays(entries, i, entries.len());
}

/// A header field as a word; `fallback` where it does not parse.
fn header_word(text: &str, fallback: u64) -> (word: [u8; 32])
    ensures
        be_nat(word@) == number_or(hex_quantity_of(text@), fallback as nat),
{
    match hex_quantity(text) {
        Some(word) => word,
        None => word_from_u64(fallback),
    }
}

/// The block context of a genesis header.
pub fn block_context(genesis: &Genesis) -> (context: BlockContext)
    ensures
        context@ == genesis_block_context(*genesis),
{
    BlockContext {
        gas_limit: header_word(genesis.gas_limit.as_str(), 30_000_000),
        number: header_word(genesis.number.as_str(), 0),
        timestamp: header_word(genesis.timestamp.as_str(), 0),
        coinbase: genesis.coinbase,
        difficulty: header_word(genesis.difficulty.as_str(), 0),
        basefee: header_word(genesis.base_fee_per_gas.as_str(), 0),
    }
}

/// The balance of a genesis account.
pub fn alloc_balance(alloc: &AccountAlloc) -> (balance: [u8; 32])
    ensures
        be_nat(balance@) == alloc_balance_of(*alloc),
{
    match parse_digits(alloc.balance.as_str(), 10) {
        Some(word) => word,
        None => zero_word(),
    }
}

/// The nonce of a genesis account.
pub fn alloc_nonce(alloc: &AccountAlloc) -> (nonce: u64)
    ensures
        nonce as nat == alloc_nonce_of(*alloc),
{
    match hex_quantity(alloc.nonce.as_str()) {
        Some(word) => match word_to_u64(&word) {
            Some(nonce) => nonce,
            None => 0,
        },
        None => 0,
    }
}

/// The engine request for a transaction.
pub fn tx_request(tx: &WvmTransaction) -> (request: Option<TxRequest>)
    ensures
        match request {
            Some(built) => request_of(*tx) == Some(built@),
            None => request_of(*tx) is None,
        },
{
    match word_to_u64(&tx.gas) {
        None => None,
        Some(gas_limit) => {
            let gas_price = match tx.gas_price {
                Some(price) => price,
                None => zero_word(),
            };
            let data = tx.input.clone();
            Some(
                TxRequest {
                    caller: tx.from,
                    gas_price,
                    gas_limit,
                    to: tx.to,
                    value: tx.value,
                    data,
                },
            )
        },
    }
}

impl StateReconstructor {
    /// A reconstructor with no accounts, at height zero, whose engine runs
    /// under the plain block context.
    pub fn new() -> (state: Self)
        ensures
            state.store() == empty_store(),
            engine_accounts(state.evm) == no_accounts(),
            engine_block(state.evm) == plain_block_context(),
            state.block_number == 0,
    {
        let context = BlockContext {
            gas_limit: word_from_u64(30_000_000),
            number: zero_word(),
            timestamp: word_from_u64(1),
            coinbase: [0u8; 20],
            difficulty: zero_word(),
            basefee: zero_word(),
        };
        assert(context@.coinbase =~= plain_block_context().coinbase);
        StateReconstructor { evm: Engine::new(&context), accounts: WordMap::new(), block_number: 0 }
    }

    /// Writes one genesis account to the engine and to the store.
    fn seed_account(&mut self, address: &[u8; 20], alloc: &AccountAlloc)
        ensures
            final(self).store() == old(self).store().insert(
                widened(address@),
                alloc_state(*alloc),
            ),
            engine_accounts(final(self).evm) == engine_with_alloc(
                engine_accounts(old(self).evm),
                address@,
                *alloc,
            ),
            engine_block(final(self).evm) == engine_block(old(self).evm),
            final(self).block_number == old(self).block_number,
    {
        let balance = alloc_balance(alloc);
        let nonce = alloc_nonce(alloc);
        let code = decode_code(alloc.code.as_str());
        self.evm.insert_account_info(address, nonce, &balance, &code);
        let ghost seeded = engine_accounts(self.evm);
        let mut i: usize = 0;
        while i < alloc.storage.len()
            invariant
                i <= alloc.storage.len(),
                engine_accounts(self.evm) == engine_with_slots(
                    seeded,
                    address@,
                    alloc.storage@.take(i as int),
                ),
                engine_block(self.evm) == engine_block(old(self).evm),
                self.accounts == old(self).accounts,
                self.block_number == old(self).block_number,
            decreases alloc.storage.len() - i,
        {
            proof {
                let next = alloc.storage@.take(i + 1);
                assert(next.drop_last() =~= alloc.storage@.take(i as int));
            }
            self.evm.insert_account_storage(address, &alloc.storage[i].0, &alloc.storage[i].1);
            i += 1;
        }
        assert(alloc.storage@.take(i as int) =~= alloc.storage@);
        let storage = storage_of(&alloc.storage);
        let key = address_key(address);
        let state = AccountState { nonce: word_from_u64(nonce), balance, storage, code };
        proof {
            lemma_accounts_view_insert(self.accounts@, key@, state);
        }
        self.accounts.insert(key, state);
    }

    /// A reconstructor that starts from a genesis: the engine runs under the
    /// header's block context, and every account of the allocation is in the
    /// engine's database and in the store, each address from the last entry
    /// that names it. The height is zero.
    pub fn from_genesis(genesis: &Genesis) -> (state: Self)
        ensures
            state.store() == genesis_store(genesis.alloc@),
            engine_accounts(state.evm) == genesis_engine(genesis.alloc@),
            engine_block(state.evm) == genesis_block_context(*genesis),
            state.block_number == 0,
    {
        let context = block_context(genesis);
        let mut state = StateReconstructor {
            evm: Engine::new(&context),
            accounts: WordMap::new(),
            block_number: 0,
        };
        let mut i: usize = 0;
        while i < genesis.alloc.len()
            invariant
                i <= genesis.alloc.len(),
                state.store() == seeded_store(genesis.alloc@, i as nat),
                engine_accounts(state.evm) == seeded_engine(genesis.alloc@, i as nat),
                engine_block(state.evm) == genesis_block_context(*genesis),
                state.block_number == 0,
            decreases genesis.alloc.len() - i,
        {
            if !is_overridden(&genesis.alloc, i) {
                state.seed_account(&genesis.alloc[i].0, &genesis.alloc[i].1);
            }
            i += 1;
        }
        state
    }

    /// The accounts of the store, by key.
    pub open spec fn store(&self) -> Map<Seq<u8>, AccountStateView> {
        accounts_view(self.accounts@)
    }

    /// Store and engine database together.
    pub open spec fn snapshot(&self) -> Snapshot {
        Snapshot { store: self.store(), engine: engine_accounts(self.evm) }
    }

    /// The state of `address`, where the store has one.
    pub fn get_account_state(&self, address: [u8; 32]) -> (state: Option<&AccountState>)
        ensures
            match state {
                Some(found) => self.store().contains_key(address@) && found@ == self.store()[address@],
                None => !self.store().contains_key(address@),
            },
    {
        self.accounts.get(&address)
    }

    /// Writes what the engine reported for `address` to the store. An
    /// address the engine has nothing for is left as it is.
    pub fn record_account(&mut self, address: &[u8; 20], info: Option<EngineAccountInfo>)
        ensures
            final(self).store() == recorded(old(self).store(), address@, info),
            final(self).evm == old(self).evm,
            final(self).block_number == old(self).block_number,
    {
        if let Some(found) = info {
            let key = address_key(address);
            let state = AccountState {
                nonce: word_from_u64(found.nonce),
                balance: found.balance,
                storage: WordMap::new(),
                code: found.code,
            };
            proof {
                lemma_accounts_view_insert(self.accounts@, key@, state);
                assert(state@.storage =~= Map::empty());
            }
            self.accounts.insert(key, state);
        }
    }

    /// Reads `address` back from the engine and writes it to the store.
    pub fn sync_account(&mut self, address: &[u8; 20])
        ensures
            final(self).store() == synced(
                old(self).store(),
                engine_accounts(old(self).evm),
                address@,
            ),
            final(self).evm == old(self).evm,
            final(self).block_number == old(self).block_number,
    {
        let info = self.evm.basic(address);
        self.record_account(address, info);
    }

    /// Brings the store up to date after the engine ran `tx` and it ended
    /// with `outcome`; `nonce_before` is the nonce the sender had before.
    ///
    /// After a success the sender is read back from the engine, then the
    /// recipient, or, for a creation, the contract at the derived address.
    /// After a revert or a halt the store is left alone.
    pub fn record_outcome(
        &mut self,
        tx: &WvmTransaction,
        outcome: ExecutionOutcome,
        nonce_before: u64,
    )
        ensures
            final(self).store() == store_after_outcome(
                old(self).store(),
                engine_accounts(old(self).evm),
                *tx,
                outcome,
                nonce_before as nat,
            ),
            final(self).evm == old(self).evm,
            final(self).block_number == old(self).block_number,
    {
        if let ExecutionOutcome::Success { .. } = outcome {
            self.sync_account(&tx.from);
            match tx.to {
                Some(target) => {
                    self.sync_account(&target);
                },
                None => {
                    let created = contract_address(&tx.from, nonce_before);
                    self.sync_account(&created);
                },
            }
        }
    }

    /// Runs one transaction on the engine and, where it succeeds, reads the
    /// accounts it touched back into the store.
    ///
    /// A refused, reverted or halted transaction leaves the store as it was.
    pub fn apply_transaction(&mut self, tx: &WvmTransaction) -> (result: Result<
        ExecutionOutcome,
        ExecError,
    >)
        ensures
            final(self).snapshot() == after_transaction(
                old(self).snapshot(),
                engine_block(old(self).evm),
                *tx,
            ),
            is_result_of(result, old(self).snapshot(), engine_block(old(self).evm), *tx),
            engine_block(final(self).evm) == engine_block(old(self).evm),
            final(self).block_number == old(self).block_number,
            request_of(*tx) is None ==> final(self).evm == old(self).evm,
    {
        let request = match tx_request(tx) {
            Some(request) => request,
            None => {
                return Err(ExecError::GasLimitTooLarge);
            },
        };
        let nonce_before = match self.evm.basic(&tx.from) {
            Some(sender) => sender.nonce,
            None => 0,
        };
        match self.evm.transact(&request) {
            Err(refusal) => Err(ExecError::Refused(refusal_text(&refusal))),
            Ok(outcome) => {
                self.record_outcome(tx, outcome, nonce_before);
                Ok(outcome)
            },
        }
    }

    /// Applies the transactions of a block in order and moves the height to
    /// the block's.
    ///
    /// A block that does not come with one receipt per transaction is
    /// refused as a whole: nothing is run and nothing changes. Otherwise
    /// every transaction is run; one that fails, reverts or halts leaves the
    /// store alone and the block goes on. The result has one entry per
    /// transaction.
    pub fn apply_block(
        &mut self,
        block: &WvmBlock<WvmTransaction>,
        receipts: &[WvmTransactionReceipt],
    ) -> (result: Result<Vec<Result<ExecutionOutcome, ExecError>>, BlockError>)
        ensures
            engine_block(final(self).evm) == engine_block(old(self).evm),
            block.transactions.len() != receipts.len() ==> {
                &&& result is Err
                &&& result->Err_0 == (BlockError::ReceiptCountMismatch {
                    transactions: block.transactions.len(),
                    receipts: receipts.len(),
                })
                &&& final(self).evm == old(self).evm
                &&& final(self).store() == old(self).store()
                &&& final(self).block_number == old(self).block_number
            },
            block.transactions.len() == receipts.len() ==> {
                &&& result is Ok
                &&& are_results_of(
                    result->Ok_0@,
                    old(self).snapshot(),
                    engine_block(old(self).evm),
                    block.transactions@,
                )
                &&& final(self).snapshot() == after_transactions(
                    old(self).snapshot(),
                    engine_block(old(self).evm),
                    block.transactions@,
                )
                &&& final(self).block_number == height_of(*block)
            },
    {
        if block.transactions.len() != receipts.len() {
            return Err(
                BlockError::ReceiptCountMismatch {
                    transactions: block.transactions.len(),
                    receipts: receipts.len(),
                },
            );
        }
        let ghost before = self.snapshot();
        let ghost context = engine_block(self.evm);
        let ghost txs = block.transactions@;
        let mut results: Vec<Result<ExecutionOutcome, ExecError>> = Vec::new();
        let mut i: usize = 0;
        while i < block.transactions.len()
            invariant
                i <= block.transactions.len(),
                txs == block.transactions@,
                context == engine_block(self.evm),
                self.block_number == old(self).block_number,
                self.snapshot() == after_transactions(before, context, txs.take(i as int)),
                are_results_of(results@, before, context, txs.take(i as int)),
            decreases block.transactions.len() - i,
        {
            let result = self.apply_transaction(&block.transactions[i]);
            proof {
                let next = txs.take(i + 1);
                assert(next.drop_last() =~= txs.take(i as int));
                assert forall|j: int| 0 <= j < next.len() implies is_result_of(
                    #[trigger] results@.push(result)[j],
                    after_transactions(before, context, next.take(j)),
                    context,
                    next[j],
                ) by {
                    if j < i {
                        assert(next.take(j) =~= txs.take(i as int).take(j));
                    } else {
                        assert(next.take(j) =~= txs.take(i as int));
                    }
                }
            }
            results.push(result);
            i += 1;
        }
        assert(txs.take(i as int) =~= txs);
        self.block_number = block_height(block);
        Ok(results)
    }
}

} // verus!
