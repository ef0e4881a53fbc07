//! Replay without an engine.
//!
//! This reconstructor derives account changes from the fields of a
//! transaction and its receipt alone: the sender pays value and gas and its
//! nonce goes up by one, the recipient gets the value, and each log with two
//! or more topics writes one storage slot of the logging account. It knows
//! nothing of what contract code does and is an approximation of the
//! engine-backed replay, not a substitute for it.

use vstd::prelude::*;
use crate::account::{
    empty_store, AccountStateView, account_or_zero, accounts_view, address_key,
    lemma_accounts_view_insert, lemma_storage_view_insert, widened, zero_account,
};
use crate::block::{BlockError, block_height, height_of};
use crate::evm_wvm_types::{WvmBlock, WvmLog, WvmTransaction, WvmTransactionReceipt};
use crate::genesis_load::{
    AccountAlloc, Genesis, code_of, decode_code, hex_quantity, hex_quantity_of, slots_map,
    storage_of,
};
use crate::text::{parse_word, parse_word_decimal};
use crate::word::{
    be_nat, lemma_word_below_limit, word_checked_add, word_checked_mul, word_checked_sub,
    word_from_u64, word_limit, zero_word,
};
use crate::word_map::{WordMap, bytes_equal};

pub use crate::account::AccountState;

verus! {

/// Why a transaction was not applied.
#[derive(Debug, Clone, Copy, PartialEq, Eq, Structural)]
pub enum TransferError {
    /// The sender's balance does not cover value and gas.
    InsufficientBalance,
    /// The sender's nonce is the largest a word can hold.
    NonceOverflow,
    /// The recipient's balance would need more than 256 bits.
    BalanceOverflow,
}

/// Replays blocks from transaction and receipt fields alone.
#[derive(Debug, Clone)]
pub struct StateReconstructor {
    pub accounts: WordMap<AccountState>,
    pub block_number: u64,
}

/// A word that may be absent, as a number; absent is zero.
pub open spec fn word_or_zero(word: Option<[u8; 32]>) -> nat {
    match word {
        Some(w) => be_nat(w@),
        None => 0,
    }
}

/// What the sender pays: the value, and the gas used at the gas price.
pub open spec fn debit_of(tx: WvmTransaction, receipt: WvmTransactionReceipt) -> nat {
    word_or_zero(tx.gas_price) * word_or_zero(receipt.gas_used) + be_nat(tx.value@)
}

/// The sender after paying: the balance is lower by the debit and the nonce
/// higher by one.
pub open spec fn sender_after(
    store: Map<Seq<u8>, AccountStateView>,
    tx: WvmTransaction,
    receipt: WvmTransactionReceipt,
) -> Result<AccountStateView, TransferError> {
    let sender = account_or_zero(store, widened(tx.from@));
    if sender.balance < debit_of(tx, receipt) {
        Err(TransferError::InsufficientBalance)
    } else if sender.nonce + 1 >= word_limit() {
        Err(TransferError::NonceOverflow)
    } else {
        Ok(
            AccountStateView {
                nonce: sender.nonce + 1,
                balance: (sender.balance - debit_of(tx, receipt)) as nat,
                ..sender
            },
        )
    }
}

/// The recipient after being paid: the balance is higher by the value, and
/// a transaction with input leaves its input as the recipient's code.
pub open spec fn recipient_after(
    store: Map<Seq<u8>, AccountStateView>,
    target: Seq<u8>,
    tx: WvmTransaction,
) -> Result<AccountStateView, TransferError> {
    let recipient = account_or_zero(store, widened(target));
    if recipient.balance + be_nat(tx.value@) >= word_limit() {
        Err(TransferError::BalanceOverflow)
    } else {
        Ok(
            AccountStateView {
                balance: recipient.balance + be_nat(tx.value@),
                code: if tx.input@.len() > 0 {
                    tx.input@
                } else {
                    recipient.code
                },
                ..recipient
            },
        )
    }
}

/// The store after sender and recipient were updated, or the reason why
/// the transaction cannot be applied.
pub open spec fn transferred(
    store: Map<Seq<u8>, AccountStateView>,
    tx: WvmTransaction,
    receipt: WvmTransactionReceipt,
) -> Result<Map<Seq<u8>, AccountStateView>, TransferError> {
    match sender_after(store, tx, receipt) {
        Err(error) => Err(error),
        Ok(sender) => {
            let paid = store.insert(widened(tx.from@), sender);
            match tx.to {
                None => Ok(paid),
                Some(target) => match recipient_after(paid, target@, tx) {
                    Err(error) => Err(error),
                    Ok(recipient) => Ok(paid.insert(widened(target@), recipient)),
                },
            }
        },
    }
}

/// The store after one log: the logging account exists, and a log with two
/// or more topics has written its second topic to the slot named by its
/// first.
pub open spec fn with_log(store: Map<Seq<u8>, AccountStateView>, log: WvmLog) -> Map<
    Seq<u8>,
    AccountStateView,
> {
    let key = widened(log.address@);
    let account = account_or_zero(store, key);
    store.insert(
        key,
        if log.topics@.len() >= 2 {
            AccountStateView {
                storage: account.storage.insert(log.topics@[0]@, log.topics@[1]@),
                ..account
            }
        } else {
            account
        },
    )
}

/// The store after the logs of a receipt, in order.
pub open spec fn with_logs(store: Map<Seq<u8>, AccountStateView>, logs: Seq<WvmLog>) -> Map<
    Seq<u8>,
    AccountStateView,
>
    decreases logs.len(),
{
    if logs.len() == 0 {
        store
    } else {
        with_log(with_logs(store, logs.drop_last()), logs.last())
    }
}

/// The store after one transaction. A transaction that cannot be applied
/// changes nothing.
pub open spec fn after_transaction(
    store: Map<Seq<u8>, AccountStateView>,
    tx: WvmTransaction,
    receipt: WvmTransactionReceipt,
) -> Map<Seq<u8>, AccountStateView> {
    match transferred(store, tx, receipt) {
        Ok(moved) => with_logs(moved, receipt.logs@),
        Err(_) => store,
    }
}

/// What applying one transaction returns.
pub open spec fn result_of(
    store: Map<Seq<u8>, AccountStateView>,
    tx: WvmTransaction,
    receipt: WvmTransactionReceipt,
) -> Result<(), TransferError> {
    match transferred(store, tx, receipt) {
        Ok(_) => Ok(()),
        Err(error) => Err(error),
    }
}

/// The store after the first `count` transactions of a block, each with the
/// receipt at its position.
pub open spec fn after_transactions(
    store: Map<Seq<u8>, AccountStateView>,
    txs: Seq<WvmTransaction>,
    receipts: Seq<WvmTransactionReceipt>,
    count: nat,
) -> Map<Seq<u8>, AccountStateView>
    decreases count,
{
    if count == 0 {
        store
    } else {
        after_transaction(
            after_transactions(store, txs, receipts, (count - 1) as nat),
            txs[count - 1],
            receipts[count - 1],
        )
    }
}

/// Whether `results` holds, for each transaction in order, what applying it
/// returns from the store the transactions before it left.
pub open spec fn are_results_of(
    results: Seq<Result<(), TransferError>>,
    store: Map<Seq<u8>, AccountStateView>,
    txs: Seq<WvmTransaction>,
    receipts: Seq<WvmTransactionReceipt>,
) -> bool {
    &&& results.len() == txs.len()
    &&& forall|i: int|
        0 <= i < txs.len() ==> #[trigger] results[i] == result_of(
            after_transactions(store, txs, receipts, i as nat),
            txs[i],
            receipts[i],
        )
}

/// The state a genesis account starts with: the balance is its decimal
/// text as a number and the nonce its hexadecimal text, each zero where the
/// text does not parse.
pub open spec fn alloc_state(alloc: AccountAlloc) -> AccountStateView {
    AccountStateView {
        nonce: match hex_quantity_of(alloc.nonce@) {
            Some(nonce) => nonce,
            None => 0,
        },
        balance: match parse_word(alloc.balance@, 10, false) {
            Some(balance) => balance,
            None => 0,
        },
        storage: slots_map(alloc.storage@),
        code: code_of(alloc.code@),
    }
}

/// The store after the accounts of an allocation were written over it; a
/// later entry for an address replaces an earlier one.
pub open spec fn with_allocation(
    store: Map<Seq<u8>, AccountStateView>,
    entries: Seq<([u8; 20], AccountAlloc)>,
) -> Map<Seq<u8>, AccountStateView>
    decreases entries.len(),
{
    if entries.len() == 0 {
        store
    } else {
        with_allocation(store, entries.drop_last()).insert(
            widened(entries.last().0@),
            alloc_state(entries.last().1),
        )
    }
}

/// Logs write storage only: balance and nonce of every account stay, and
/// no account is lost.
pub proof fn lemma_logs_keep_balances(
    store: Map<Seq<u8>, AccountStateView>,
    logs: Seq<WvmLog>,
    key: Seq<u8>,
)
    ensures
        account_or_zero(with_logs(store, logs), key).balance == account_or_zero(
            store,
            key,
        ).balance,
        account_or_zero(with_logs(store, logs), key).nonce == account_or_zero(store, key).nonce,
        store.contains_key(key) ==> with_logs(store, logs).contains_key(key),
    decreases logs.len(),
{
    if logs.len() > 0 {
        lemma_logs_keep_balances(store, logs.drop_last(), key);
    }
}

/// A transaction that is applied and whose recipient is another account
/// than its sender raises the sender's nonce by exactly one and lowers the
/// sender's balance by exactly the value plus the gas used at the gas price.
pub proof fn lemma_sender_pays_value_and_gas(
    store: Map<Seq<u8>, AccountStateView>,
    tx: WvmTransaction,
    receipt: WvmTransactionReceipt,
)
    requires
        tx.to is Some,
        tx.to->Some_0@ != tx.from@,
        result_of(store, tx, receipt) is Ok,
    ensures
        after_transaction(store, tx, receipt).contains_key(widened(tx.from@)),
        after_transaction(store, tx, receipt)[widened(tx.from@)].nonce == account_or_zero(
            store,
            widened(tx.from@),
        ).nonce + 1,
        after_transaction(store, tx, receipt)[widened(tx.from@)].balance + debit_of(tx, receipt)
            == account_or_zero(store, widened(tx.from@)).balance,
{
    let moved = transferred(store, tx, receipt)->Ok_0;
    let sender_key = widened(tx.from@);
    let target_key = widened(tx.to->Some_0@);
    assert(sender_key != target_key) by {
        if sender_key == target_key {
            crate::account::lemma_widened_injective(tx.from@, tx.to->Some_0@);
        }
    }
    lemma_logs_keep_balances(moved, receipt.logs@, sender_key);
}

/// Applying a transaction never lowers the nonce of any account.
pub proof fn lemma_nonce_never_decreases(
    store: Map<Seq<u8>, AccountStateView>,
    tx: WvmTransaction,
    receipt: WvmTransactionReceipt,
    key: Seq<u8>,
)
    ensures
        account_or_zero(after_transaction(store, tx, receipt), key).nonce >= account_or_zero(
            store,
            key,
        ).nonce,
{
    if let Ok(moved) = transferred(store, tx, receipt) {
        lemma_logs_keep_balances(moved, receipt.logs@, key);
    }
}

/// Nor does applying the first `count` transactions of a block.
pub proof fn lemma_nonces_never_decrease(
    store: Map<Seq<u8>, AccountStateView>,
    txs: Seq<WvmTransaction>,
    receipts: Seq<WvmTransactionReceipt>,
    count: nat,
    key: Seq<u8>,
)
    ensures
        account_or_zero(after_transactions(store, txs, receipts, count), key).nonce
            >= account_or_zero(store, key).nonce,
    decreases count,
{
    if count > 0 {
        let earlier = (count - 1) as nat;
        lemma_nonces_never_decrease(store, txs, receipts, earlier, key);
        lemma_nonce_never_decreases(
            after_transactions(store, txs, receipts, earlier),
            txs[count - 1],
            receipts[count - 1],
            key,
        );
    }
}

/// A transaction that the sender's balance does not cover is refused and
/// changes nothing.
pub proof fn lemma_uncovered_transaction_is_refused(
    store: Map<Seq<u8>, AccountStateView>,
    tx: WvmTransaction,
    receipt: WvmTransactionReceipt,
)
    requires
        account_or_zero(store, widened(tx.from@)).balance < debit_of(tx, receipt),
    ensures
        result_of(store, tx, receipt) is Err,
        result_of(store, tx, receipt)->Err_0 == TransferError::InsufficientBalance,
        after_transaction(store, tx, receipt) == store,
{
}

/// After the accounts of an allocation were written, the account of an
/// entry that no later entry overwrites holds that entry's state. Its
/// balance is the entry's decimal balance text as a number, or zero where
/// the text does not parse.
pub proof fn lemma_allocation_sets_balance(
    store: Map<Seq<u8>, AccountStateView>,
    entries: Seq<([u8; 20], AccountAlloc)>,
    i: int,
)
    requires
        0 <= i < entries.len(),
        forall|j: int| i < j < entries.len() ==> entries[j].0@ != entries[i].0@,
    ensures
        with_allocation(store, entries).contains_key(widened(entries[i].0@)),
        with_allocation(store, entries)[widened(entries[i].0@)] == alloc_state(entries[i].1),
        with_allocation(store, entries)[widened(entries[i].0@)].balance == (match parse_word(
            entries[i].1.balance@,
            10,
            false,
        ) {
            Some(balance) => balance,
            None => 0,
        }),
    decreases entries.len(),
{
    if i < entries.len() - 1 {
        let earlier = entries.drop_last();
        lemma_allocation_sets_balance(store, earlier, i);
        assert(widened(entries.last().0@) != widened(entries[i].0@)) by {
            if widened(entries.last().0@) == widened(entries[i].0@) {
                crate::account::lemma_widened_injective(entries.last().0@, entries[i].0@);
            }
        }
    }
}

/// A word that may be absent; absent is zero.
fn value_or_zero(word: &Option<[u8; 32]>) -> (value: [u8; 32])
    ensures
        be_nat(value@) == word_or_zero(*word),
{
    match word {
        Some(w) => *w,
        None => zero_word(),
    }
}

impl StateReconstructor {
    /// The accounts of the store, by key.
    pub open spec fn store(&self) -> Map<Seq<u8>, AccountStateView> {
        accounts_view(self.accounts@)
    }

    /// A reconstructor with no accounts, at height zero.
    pub fn new() -> (state: Self)
        ensures
            state.store() == empty_store(),
            state.block_number == 0,
    {
        StateReconstructor { accounts: WordMap::new(), block_number: 0 }
    }

    /// The state of `address`, where the store has one.
    pub fn get_account_state(&self, address: [u8; 32]) -> (state: Option<&AccountState>)
        ensures
            match state {
                Some(found) => self.store().contains_key(address@) && found@ == self.store()[address@],
                None => !self.store().contains_key(address@),
            },
    {
        self.accounts.get(&address)
    }

    /// Takes the account at `key` out for changing and leaves the zero
    /// account in its place.
    fn take_account(&mut self, key: [u8; 32]) -> (account: AccountState)
        ensures
            account@ == account_or_zero(old(self).store(), key@),
            final(self).store() == old(self).store().insert(key@, zero_account()),
            final(self).block_number == old(self).block_number,
    {
        let placeholder = AccountState::empty();
        proof {
            lemma_accounts_view_insert(self.accounts@, key@, placeholder);
        }
        match self.accounts.insert(key, placeholder) {
            Some(account) => account,
            None => AccountState::empty(),
        }
    }

    /// Stores `account` at `key`.
    fn put_account(&mut self, key: [u8; 32], account: AccountState)
        ensures
            final(self).store() == old(self).store().insert(key@, account@),
            final(self).block_number == old(self).block_number,
    {
        proof {
            lemma_accounts_view_insert(self.accounts@, key@, account);
        }
        self.accounts.insert(key, account);
    }

    /// Balance and nonce of the account at `key`; zero where there is none.
    fn balance_and_nonce(&self, key: &[u8; 32]) -> (pair: ([u8; 32], [u8; 32]))
        ensures
            be_nat(pair.0@) == account_or_zero(self.store(), key@).balance,
            be_nat(pair.1@) == account_or_zero(self.store(), key@).nonce,
    {
        match self.accounts.get(key) {
            Some(account) => (account.balance, account.nonce),
            None => (zero_word(), zero_word()),
        }
    }

    /// Writes the logs of a receipt to the store.
    fn apply_logs(&mut self, logs: &Vec<WvmLog>)
        ensures
            final(self).store() == with_logs(old(self).store(), logs@),
            final(self).block_number == old(self).block_number,
    {
        let mut i: usize = 0;
        while i < logs.len()
            invariant
                i <= logs.len(),
                self.store() == with_logs(old(self).store(), logs@.take(i as int)),
                self.block_number == old(self).block_number,
            decreases logs.len() - i,
        {
            let log = &logs[i];
            let key = address_key(&log.address);
            let mut account = self.take_account(key);
            if log.topics.len() >= 2 {
                proof {
                    lemma_storage_view_insert(account.storage@, log.topics@[0]@, log.topics@[1]);
                }
                account.storage.insert(log.topics[0], log.topics[1]);
            }
            self.put_account(key, account);
            assert(logs@.take(i + 1).drop_last() =~= logs@.take(i as int));
            i += 1;
        }
        assert(logs@.take(i as int) =~= logs@);
    }

    /// Applies one transaction with its receipt.
    ///
    /// The sender pays the value and the gas the receipt reports at the
    /// transaction's gas price, and its nonce goes up by one; the recipient,
    /// where there is one, gets the value, and the input, where there is
    /// any, as its code; then the logs are written. A transaction that
    /// cannot be applied is refused as a whole and the store stays as it
    /// was.
    pub fn apply_transaction(
        &mut self,
        tx: &WvmTransaction,
        receipt: &WvmTransactionReceipt,
    ) -> (result: Result<(), TransferError>)
        ensures
            result == result_of(old(self).store(), *tx, *receipt),
            final(self).store() == after_transaction(old(self).store(), *tx, *receipt),
            final(self).block_number == old(self).block_number,
    {
        let sender_key = address_key(&tx.from);
        let (balance, nonce) = self.balance_and_nonce(&sender_key);
        let price = value_or_zero(&tx.gas_price);
        let used = value_or_zero(&receipt.gas_used);
        proof {
            lemma_word_below_limit(balance);
        }
        let debit = match word_checked_mul(&price, &used) {
            Some(gas_cost) => word_checked_add(&gas_cost, &tx.value),
            None => None,
        };
        let remaining = match debit {
            Some(amount) => word_checked_sub(&balance, &amount),
            None => None,
        };
        let remaining = match remaining {
            Some(word) => word,
            None => {
                return Err(TransferError::InsufficientBalance);
            },
        };
        let next_nonce = match word_checked_add(&nonce, &word_from_u64(1)) {
            Some(word) => word,
            None => {
                return Err(TransferError::NonceOverflow);
            },
        };
        proof {
            lemma_word_below_limit(next_nonce);
        }
        let ghost paid = old(self).store().insert(
            widened(tx.from@),
            sender_after(old(self).store(), *tx, *receipt)->Ok_0,
        );
        let credited = match tx.to {
            None => None,
            Some(target) => {
                let target_key = address_key(&target);
                let held = if bytes_equal(&target_key, &sender_key) {
                    remaining
                } else {
                    self.balance_and_nonce(&target_key).0
                };
                match word_checked_add(&held, &tx.value) {
                    Some(word) => Some((target_key, word)),
                    None => {
                        return Err(TransferError::BalanceOverflow);
                    },
                }
            },
        };
        proof {
            if let Some((_, word)) = credited {
                lemma_word_below_limit(word);
            }
        }
        let mut sender = self.take_account(sender_key);
        sender.balance = remaining;
        sender.nonce = next_nonce;
        self.put_account(sender_key, sender);
        assert(self.store() =~= paid);
        if let Some((target_key, balance)) = credited {
            let mut recipient = self.take_account(target_key);
            recipient.balance = balance;
            if tx.input.len() > 0 {
                recipient.code = tx.input.clone();
            }
            self.put_account(target_key, recipient);
            assert(self.store() =~= paid.insert(
                target_key@,
                recipient_after(paid, tx.to->Some_0@, *tx)->Ok_0,
            ));
        }
        self.apply_logs(&receipt.logs);
        Ok(())
    }

    /// Applies the transactions of a block in order, each with the receipt
    /// at its position, and moves the height to the block's.
    ///
    /// A block that does not come with one receipt per transaction is
    /// refused as a whole: nothing changes. Otherwise every transaction is
    /// tried; one that cannot be applied is passed over and the block goes
    /// on. The result has one entry per transaction.
    pub fn apply_block(
        &mut self,
        block: &WvmBlock<WvmTransaction>,
        receipts: &[WvmTransactionReceipt],
    ) -> (result: Result<Vec<Result<(), TransferError>>, BlockError>)
        ensures
            block.transactions.len() != receipts.len() ==> {
                &&& result is Err
                &&& result->Err_0 == (BlockError::ReceiptCountMismatch {
                    transactions: block.transactions.len(),
                    receipts: receipts.len(),
                })
                &&& final(self).store() == old(self).store()
                &&& final(self).block_number == old(self).block_number
            },
            block.transactions.len() == receipts.len() ==> {
                &&& result is Ok
                &&& are_results_of(
                    result->Ok_0@,
                    old(self).store(),
                    block.transactions@,
                    receipts@,
                )
                &&& final(self).store() == after_transactions(
                    old(self).store(),
                    block.transactions@,
                    receipts@,
                    receipts@.len(),
                )
                &&& final(self).block_number == height_of(*block)
            },
    {
        if block.transactions.len() != receipts.len() {
            return Err(
                BlockError::ReceiptCountMismatch {
                    transactions: block.transactions.len(),
                    receipts: receipts.len(),
                },
            );
        }
        let ghost before = self.store();
        let ghost txs = block.transactions@;
        let mut results: Vec<Result<(), TransferError>> = Vec::new();
        let mut i: usize = 0;
        while i < block.transactions.len()
            invariant
                i <= block.transactions.len(),
                block.transactions.len() == receipts.len(),
                txs == block.transactions@,
                self.block_number == old(self).block_number,
                self.store() == after_transactions(before, txs, receipts@, i as nat),
                results.len() == i,
                forall|j: int|
                    0 <= j < i ==> #[trigger] results@[j] == result_of(
                        after_transactions(before, txs, receipts@, j as nat),
                        txs[j],
                        receipts@[j],
                    ),
            decreases block.transactions.len() - i,
        {
            let result = self.apply_transaction(&block.transactions[i], &receipts[i]);
            results.push(result);
            i += 1;
        }
        self.block_number = block_height(block);
        Ok(results)
    }

    /// Writes the accounts of a genesis allocation to the store. An address
    /// that the store already has is overwritten.
    pub fn initialize_from_genesis(&mut self, genesis: Genesis)
        ensures
            final(self).store() == with_allocation(old(self).store(), genesis.alloc@),
            final(self).block_number == old(self).block_number,
    {
        let mut i: usize = 0;
        while i < genesis.alloc.len()
            invariant
                i <= genesis.alloc.len(),
                self.store() == with_allocation(old(self).store(), genesis.alloc@.take(i as int)),
                self.block_number == old(self).block_number,
            decreases genesis.alloc.len() - i,
        {
            let address = &genesis.alloc[i].0;
            let alloc = &genesis.alloc[i].1;
            let state = genesis_account(alloc);
            proof {
                let next = genesis.alloc@.take(i + 1);
                assert(next.drop_last() =~= genesis.alloc@.take(i as int));
            }
            self.put_account(address_key(address), state);
            i += 1;
        }
        assert(genesis.alloc@.take(i as int) =~= genesis.alloc@);
    }
}

/// The state a genesis account starts with.
pub fn genesis_account(alloc: &AccountAlloc) -> (state: AccountState)
    ensures
        state@ == alloc_state(*alloc),
{
    let balance = match parse_word_decimal(alloc.balance.as_str()) {
        Some(word) => word,
        None => zero_word(),
    };
    let nonce = match hex_quantity(alloc.nonce.as_str()) {
        Some(word) => word,
        None => zero_word(),
    };
    let code = decode_code(alloc.code.as_str());
    let storage = storage_of(&alloc.storage);
    AccountState { nonce, balance, storage, code }
}

} // verus!
