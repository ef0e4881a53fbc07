use state_reconstruct::account::address_key;
use state_reconstruct::block::BlockError;
use state_reconstruct::evm_wvm_types::{WvmBlock, WvmLog, WvmTransaction, WvmTransactionReceipt};
use state_reconstruct::genesis_load::{AccountAlloc, Genesis};
use state_reconstruct::state::{genesis_account, StateReconstructor, TransferError};

const SENDER: [u8; 20] = [0xaa; 20];
const RECIPIENT: [u8; 20] = [0xbb; 20];
const LOGGER: [u8; 20] = [0xcc; 20];

fn amount(n: u128) -> [u8; 32] {
    let mut out = [0u8; 32];
    out[16..].copy_from_slice(&n.to_be_bytes());
    out
}

fn started_with(entries: Vec<([u8; 20], AccountAlloc)>) -> StateReconstructor {
    let mut state = StateReconstructor::new();
    state.initialize_from_genesis(Genesis { alloc: entries, ..Default::default() });
    state
}

fn funded(balance: &str) -> StateReconstructor {
    started_with(vec![(SENDER, AccountAlloc { balance: balance.to_string(), ..Default::default() })])
}

fn payment(value: u128, gas_price: u128) -> WvmTransaction {
    WvmTransaction {
        from: SENDER,
        to: Some(RECIPIENT),
        value: amount(value),
        gas_price: Some(amount(gas_price)),
        ..Default::default()
    }
}

fn receipt(gas_used: u128) -> WvmTransactionReceipt {
    WvmTransactionReceipt { gas_used: Some(amount(gas_used)), ..Default::default() }
}

fn balance_of(state: &StateReconstructor, address: &[u8; 20]) -> [u8; 32] {
    state.get_account_state(address_key(address)).expect("account is in the store").balance
}

fn nonce_of(state: &StateReconstructor, address: &[u8; 20]) -> [u8; 32] {
    state.get_account_state(address_key(address)).expect("account is in the store").nonce
}

#[test]
fn ledger_starts_empty() {
    let state = StateReconstructor::new();
    assert_eq!(state.block_number, 0);
    assert_eq!(state.accounts.len(), 0);
    assert!(state.get_account_state(address_key(&SENDER)).is_none());
}

#[test]
fn ledger_transfer_moves_value_and_charges_gas() {
    let mut state = funded("1000000000000000000");
    let block = WvmBlock {
        number: Some(1),
        transactions: vec![payment(500_000_000_000_000_000, 1)],
        ..Default::default()
    };
    let results = state.apply_block(&block, &[receipt(21_000)]).expect("counts match");
    assert_eq!(results, vec![Ok(())]);
    assert_eq!(
        balance_of(&state, &SENDER),
        amount(1_000_000_000_000_000_000 - 500_000_000_000_000_000 - 21_000)
    );
    assert_eq!(nonce_of(&state, &SENDER), amount(1));
    assert_eq!(balance_of(&state, &RECIPIENT), amount(500_000_000_000_000_000));
    assert_eq!(nonce_of(&state, &RECIPIENT), amount(0));
    assert_eq!(state.block_number, 1);
}

#[test]
fn sender_pays_value_plus_gas_used_times_gas_price() {
    let mut state = funded("1000000");
    assert_eq!(state.apply_transaction(&payment(1_000, 7), &receipt(30_000)), Ok(()));
    assert_eq!(balance_of(&state, &SENDER), amount(1_000_000 - 1_000 - 7 * 30_000));
    assert_eq!(nonce_of(&state, &SENDER), amount(1));
    assert_eq!(state.apply_transaction(&payment(2_000, 2), &receipt(21_000)), Ok(()));
    assert_eq!(balance_of(&state, &SENDER), amount(1_000_000 - 1_000 - 210_000 - 2_000 - 42_000));
    assert_eq!(nonce_of(&state, &SENDER), amount(2));
    assert_eq!(balance_of(&state, &RECIPIENT), amount(3_000));
}

#[test]
fn missing_gas_price_and_gas_used_count_as_zero() {
    let mut state = funded("100");
    let mut tx = payment(40, 5);
    tx.gas_price = None;
    assert_eq!(state.apply_transaction(&tx, &receipt(21_000)), Ok(()));
    assert_eq!(balance_of(&state, &SENDER), amount(60));
    let no_gas = WvmTransactionReceipt::default();
    assert_eq!(state.apply_transaction(&payment(10, 5), &no_gas), Ok(()));
    assert_eq!(balance_of(&state, &SENDER), amount(50));
}

#[test]
fn exact_balance_is_sufficient() {
    let mut state = funded("21100");
    assert_eq!(state.apply_transaction(&payment(100, 1), &receipt(21_000)), Ok(()));
    assert_eq!(balance_of(&state, &SENDER), amount(0));
    assert_eq!(balance_of(&state, &RECIPIENT), amount(100));
}

#[test]
fn insufficient_balance_is_an_error_and_changes_nothing() {
    let mut state = funded("21099");
    assert_eq!(
        state.apply_transaction(&payment(100, 1), &receipt(21_000)),
        Err(TransferError::InsufficientBalance)
    );
    assert_eq!(balance_of(&state, &SENDER), amount(21_099));
    assert_eq!(nonce_of(&state, &SENDER), amount(0));
    assert!(state.get_account_state(address_key(&RECIPIENT)).is_none());
    assert_eq!(state.accounts.len(), 1);
}

#[test]
fn unknown_sender_has_nothing_to_spend() {
    let mut state = StateReconstructor::new();
    assert_eq!(
        state.apply_transaction(&payment(1, 0), &receipt(0)),
        Err(TransferError::InsufficientBalance)
    );
    assert_eq!(state.accounts.len(), 0);
    // A transfer of nothing at no cost is covered by the zero account.
    assert_eq!(state.apply_transaction(&payment(0, 0), &receipt(0)), Ok(()));
    assert_eq!(nonce_of(&state, &SENDER), amount(1));
    assert_eq!(balance_of(&state, &RECIPIENT), amount(0));
}

#[test]
fn gas_cost_beyond_256_bits_is_insufficient_balance() {
    let mut state = funded("1000000");
    let mut tx = payment(0, 0);
    tx.gas_price = Some([0xff; 32]);
    let result = state.apply_transaction(&tx, &WvmTransactionReceipt {
        gas_used: Some([0xff; 32]),
        ..Default::default()
    });
    assert_eq!(result, Err(TransferError::InsufficientBalance));
    let mut tx = payment(0, 1);
    tx.value = [0xff; 32];
    assert_eq!(
        state.apply_transaction(&tx, &receipt(1)),
        Err(TransferError::InsufficientBalance)
    );
    assert_eq!(balance_of(&state, &SENDER), amount(1_000_000));
}

#[test]
fn nonce_at_the_top_cannot_go_up() {
    let top = "0xffffffffffffffffffffffffffffffffffffffffffffffffffffffffffffffff";
    let mut state = started_with(vec![(
        SENDER,
        AccountAlloc { balance: "10".to_string(), nonce: top.to_string(), ..Default::default() },
    )]);
    assert_eq!(nonce_of(&state, &SENDER), [0xff; 32]);
    assert_eq!(
        state.apply_transaction(&payment(1, 0), &receipt(0)),
        Err(TransferError::NonceOverflow)
    );
    assert_eq!(balance_of(&state, &SENDER), amount(10));
    assert!(state.get_account_state(address_key(&RECIPIENT)).is_none());
}

#[test]
fn recipient_balance_cannot_pass_256_bits() {
    let top = "115792089237316195423570985008687907853269984665640564039457584007913129639935";
    let mut state = started_with(vec![
        (SENDER, AccountAlloc { balance: "10".to_string(), ..Default::default() }),
        (RECIPIENT, AccountAlloc { balance: top.to_string(), ..Default::default() }),
    ]);
    assert_eq!(balance_of(&state, &RECIPIENT), [0xff; 32]);
    assert_eq!(
        state.apply_transaction(&payment(1, 0), &receipt(0)),
        Err(TransferError::BalanceOverflow)
    );
    assert_eq!(balance_of(&state, &SENDER), amount(10));
    assert_eq!(nonce_of(&state, &SENDER), amount(0));
    assert_eq!(balance_of(&state, &RECIPIENT), [0xff; 32]);
}

#[test]
fn paying_oneself_costs_the_gas_only() {
    let mut state = funded("1000");
    let mut tx = payment(300, 1);
    tx.to = Some(SENDER);
    assert_eq!(state.apply_transaction(&tx, &receipt(100)), Ok(()));
    assert_eq!(balance_of(&state, &SENDER), amount(900));
    assert_eq!(nonce_of(&state, &SENDER), amount(1));
    assert_eq!(state.accounts.len(), 1);
}

#[test]
fn input_becomes_the_code_of_the_recipient() {
    let mut state = funded("1000");
    let mut tx = payment(0, 0);
    tx.input = vec![0x60, 0x01];
    assert_eq!(state.apply_transaction(&tx, &receipt(0)), Ok(()));
    let recipient = state.get_account_state(address_key(&RECIPIENT)).expect("recipient");
    assert_eq!(recipient.code, vec![0x60, 0x01]);
    // A later transfer without input leaves the code alone.
    assert_eq!(state.apply_transaction(&payment(1, 0), &receipt(0)), Ok(()));
    let recipient = state.get_account_state(address_key(&RECIPIENT)).expect("recipient");
    assert_eq!(recipient.code, vec![0x60, 0x01]);
    assert_eq!(recipient.balance, amount(1));
}

#[test]
fn transaction_without_recipient_only_debits_the_sender() {
    let mut state = funded("1000");
    let mut tx = payment(100, 1);
    tx.to = None;
    tx.input = vec![1, 2, 3];
    assert_eq!(state.apply_transaction(&tx, &receipt(50)), Ok(()));
    assert_eq!(balance_of(&state, &SENDER), amount(850));
    assert_eq!(state.accounts.len(), 1);
    let sender = state.get_account_state(address_key(&SENDER)).expect("sender");
    assert!(sender.code.is_empty());
}

#[test]
fn logs_with_two_topics_write_storage() {
    let mut state = funded("1000");
    let logs = vec![
        WvmLog { address: LOGGER, topics: vec![amount(1), amount(2), amount(3)], ..Default::default() },
        WvmLog { address: LOGGER, topics: vec![amount(7)], ..Default::default() },
        WvmLog { address: RECIPIENT, topics: vec![], ..Default::default() },
        WvmLog { address: LOGGER, topics: vec![amount(1), amount(5)], ..Default::default() },
        WvmLog { address: SENDER, topics: vec![amount(9), amount(9)], ..Default::default() },
    ];
    let with_logs = WvmTransactionReceipt { logs, ..Default::default() };
    let mut tx = payment(10, 0);
    tx.to = None;
    assert_eq!(state.apply_transaction(&tx, &with_logs), Ok(()));
    let logger = state.get_account_state(address_key(&LOGGER)).expect("logger");
    assert_eq!(logger.storage.len(), 1);
    assert_eq!(logger.storage.get(&amount(1)), Some(&amount(5)));
    assert_eq!(logger.balance, amount(0));
    let bystander = state.get_account_state(address_key(&RECIPIENT)).expect("made by its log");
    assert_eq!(bystander.storage.len(), 0);
    let sender = state.get_account_state(address_key(&SENDER)).expect("sender");
    assert_eq!(sender.storage.get(&amount(9)), Some(&amount(9)));
    assert_eq!(sender.balance, amount(990));
    assert_eq!(sender.nonce, amount(1));
}

#[test]
fn logs_of_a_refused_transaction_are_not_written() {
    let mut state = funded("1");
    let with_logs = WvmTransactionReceipt {
        logs: vec![WvmLog { address: LOGGER, topics: vec![amount(1), amount(2)], ..Default::default() }],
        ..Default::default()
    };
    assert_eq!(
        state.apply_transaction(&payment(2, 0), &with_logs),
        Err(TransferError::InsufficientBalance)
    );
    assert!(state.get_account_state(address_key(&LOGGER)).is_none());
}

#[test]
fn ledger_refuses_a_block_with_mismatched_receipts() {
    let mut state = funded("1000");
    let block = WvmBlock {
        number: Some(3),
        transactions: vec![payment(1, 0)],
        ..Default::default()
    };
    assert_eq!(
        state.apply_block(&block, &[]),
        Err(BlockError::ReceiptCountMismatch { transactions: 1, receipts: 0 })
    );
    assert_eq!(
        state.apply_block(&block, &[receipt(0), receipt(0)]),
        Err(BlockError::ReceiptCountMismatch { transactions: 1, receipts: 2 })
    );
    assert_eq!(state.block_number, 0);
    assert_eq!(balance_of(&state, &SENDER), amount(1000));
    assert_eq!(nonce_of(&state, &SENDER), amount(0));
    assert_eq!(state.accounts.len(), 1);
}

#[test]
fn ledger_passes_over_a_transaction_that_cannot_be_applied() {
    let mut state = funded("1000");
    let block = WvmBlock {
        number: Some(8),
        transactions: vec![payment(600, 0), payment(600, 0), payment(400, 0)],
        ..Default::default()
    };
    let results = state
        .apply_block(&block, &[receipt(0), receipt(0), receipt(0)])
        .expect("counts match");
    assert_eq!(results, vec![Ok(()), Err(TransferError::InsufficientBalance), Ok(())]);
    assert_eq!(balance_of(&state, &SENDER), amount(0));
    assert_eq!(nonce_of(&state, &SENDER), amount(2));
    assert_eq!(balance_of(&state, &RECIPIENT), amount(1000));
    assert_eq!(state.block_number, 8);
}

#[test]
fn ledger_block_without_number_sets_height_zero() {
    let mut state = funded("1");
    let numbered: WvmBlock<WvmTransaction> = WvmBlock { number: Some(12), ..Default::default() };
    state.apply_block(&numbered, &[]).expect("counts match");
    assert_eq!(state.block_number, 12);
    let bare: WvmBlock<WvmTransaction> = WvmBlock::default();
    state.apply_block(&bare, &[]).expect("counts match");
    assert_eq!(state.block_number, 0);
}

#[test]
fn ledger_genesis_balance_is_the_decimal_text() {
    let state = started_with(vec![
        (SENDER, AccountAlloc { balance: "1000000000000000000".to_string(), ..Default::default() }),
        (RECIPIENT, AccountAlloc { balance: "0x10".to_string(), ..Default::default() }),
        (LOGGER, AccountAlloc { balance: "1_000".to_string(), ..Default::default() }),
    ]);
    assert_eq!(balance_of(&state, &SENDER), amount(1_000_000_000_000_000_000));
    assert_eq!(balance_of(&state, &RECIPIENT), amount(0));
    assert_eq!(balance_of(&state, &LOGGER), amount(0));
}

#[test]
fn ledger_genesis_balance_beyond_256_bits_is_zero() {
    let too_large = "115792089237316195423570985008687907853269984665640564039457584007913129639936";
    let state = started_with(vec![(
        SENDER,
        AccountAlloc { balance: too_large.to_string(), ..Default::default() },
    )]);
    assert_eq!(balance_of(&state, &SENDER), amount(0));
}

#[test]
fn ledger_genesis_overwrites_colliding_addresses() {
    let mut state = funded("5");
    state.initialize_from_genesis(Genesis {
        alloc: vec![
            (SENDER, AccountAlloc { balance: "6".to_string(), ..Default::default() }),
            (RECIPIENT, AccountAlloc { balance: "7".to_string(), ..Default::default() }),
            (SENDER, AccountAlloc { balance: "8".to_string(), ..Default::default() }),
        ],
        ..Default::default()
    });
    assert_eq!(state.accounts.len(), 2);
    assert_eq!(balance_of(&state, &SENDER), amount(8));
    assert_eq!(balance_of(&state, &RECIPIENT), amount(7));
}

#[test]
fn genesis_account_copies_code_nonce_and_storage() {
    let state = genesis_account(&AccountAlloc {
        balance: "42".to_string(),
        code: "0x60016002".to_string(),
        storage: vec![(amount(1), amount(10)), (amount(2), amount(20)), (amount(1), amount(30))],
        nonce: "0x2a".to_string(),
    });
    assert_eq!(state.balance, amount(42));
    assert_eq!(state.nonce, amount(42));
    assert_eq!(state.code, vec![0x60, 0x01, 0x60, 0x02]);
    assert_eq!(state.storage.len(), 2);
    assert_eq!(state.storage.get(&amount(1)), Some(&amount(30)));
    assert_eq!(state.storage.get(&amount(2)), Some(&amount(20)));
    assert_eq!(state.storage.get(&amount(3)), None);
}

#[test]
fn recipient_balance_may_reach_the_top() {
    let almost = "115792089237316195423570985008687907853269984665640564039457584007913129639934";
    let mut state = started_with(vec![
        (SENDER, AccountAlloc { balance: "10".to_string(), ..Default::default() }),
        (RECIPIENT, AccountAlloc { balance: almost.to_string(), ..Default::default() }),
    ]);
    assert_eq!(state.apply_transaction(&payment(1, 0), &receipt(0)), Ok(()));
    assert_eq!(balance_of(&state, &RECIPIENT), [0xff; 32]);
    assert_eq!(balance_of(&state, &SENDER), amount(9));
}

#[test]
fn large_amounts_are_exact() {
    let start = "100000000000000000000000000000000000000000000000000";
    let mut state = funded(start);
    let mut tx = payment(0, 0);
    // value = 2^128, gas price = 2^64, gas used = 2^64 + 1
    tx.value = {
        let mut w = [0u8; 32];
        w[15] = 1;
        w
    };
    tx.gas_price = Some(amount(1u128 << 64));
    let used = amount((1u128 << 64) + 1);
    assert_eq!(state.apply_transaction(&tx, &receipt_of(used)), Ok(()));
    // 10^50 - 2^128 - 2^64 * (2^64 + 1) = 10^50 - 2^129 - 2^64
    let expected = ethereum_types::U256::from_dec_str(start).unwrap()
        - (ethereum_types::U256::one() << 129)
        - (ethereum_types::U256::one() << 64);
    let mut bytes = [0u8; 32];
    expected.to_big_endian(&mut bytes);
    assert_eq!(balance_of(&state, &SENDER), bytes);
    assert_eq!(balance_of(&state, &RECIPIENT), tx.value);
}

fn receipt_of(gas_used: [u8; 32]) -> WvmTransactionReceipt {
    WvmTransactionReceipt { gas_used: Some(gas_used), ..Default::default() }
}
