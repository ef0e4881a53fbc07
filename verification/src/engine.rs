//! The execution engine: a `revm` interpreter over an in-memory database.
//!
//! The engine is a value of an outside crate, so nothing in it is visible to
//! the verifier. What the rest of the crate needs to know of it is named
//! here: which accounts its database holds, the block context it was made
//! with, and what running a transaction gives. The functions below are the
//! only code that touches the interpreter; their contracts are believed, not
//! proved.

use vstd::prelude::*;
use core::convert::Infallible;
use revm::db::InMemoryDB;
use revm::primitives::{AccountInfo, Address, Bytecode, EVMError, ExecutionResult, U256};
use crate::word::be_nat;

verus! {

/// The block-level values every transaction of a replay runs under.
#[derive(Debug, Clone, Copy, PartialEq, Eq)]
pub struct BlockContext {
    pub gas_limit: [u8; 32],
    pub number: [u8; 32],
    pub timestamp: [u8; 32],
    pub coinbase: [u8; 20],
    pub difficulty: [u8; 32],
    pub basefee: [u8; 32],
}

/// A [`BlockContext`] as numbers.
pub struct BlockContextView {
    pub gas_limit: nat,
    pub number: nat,
    pub timestamp: nat,
    pub coinbase: Seq<u8>,
    pub difficulty: nat,
    pub basefee: nat,
}

impl View for BlockContext {
    type V = BlockContextView;

    open spec fn view(&self) -> BlockContextView {
        BlockContextView {
            gas_limit: be_nat(self.gas_limit@),
            number: be_nat(self.number@),
            timestamp: be_nat(self.timestamp@),
            coinbase: self.coinbase@,
            difficulty: be_nat(self.difficulty@),
            basefee: be_nat(self.basefee@),
        }
    }
}

/// What the engine is asked to run: one call or one contract creation.
#[derive(Debug, Clone, PartialEq, Eq)]
pub struct TxRequest {
    pub caller: [u8; 20],
    pub gas_price: [u8; 32],
    pub gas_limit: u64,
    /// The call target; `None` creates a contract.
    pub to: Option<[u8; 20]>,
    pub value: [u8; 32],
    pub data: Vec<u8>,
}

/// A [`TxRequest`] as numbers and byte strings.
pub struct TxRequestView {
    pub caller: Seq<u8>,
    pub gas_price: nat,
    pub gas_limit: nat,
    pub to: Option<Seq<u8>>,
    pub value: nat,
    pub data: Seq<u8>,
}

impl View for TxRequest {
    type V = TxRequestView;

    open spec fn view(&self) -> TxRequestView {
        TxRequestView {
            caller: self.caller@,
            gas_price: be_nat(self.gas_price@),
            gas_limit: self.gas_limit as nat,
            to: match self.to {
                Some(target) => Some(target@),
                None => None,
            },
            value: be_nat(self.value@),
            data: self.data@,
        }
    }
}

/// How a transaction that the engine accepted ended.
#[derive(Debug, Clone, Copy, PartialEq, Eq, Structural)]
pub enum ExecutionOutcome {
    /// It ran to completion; its effects are in the engine's database.
    Success { gas_used: u64 },
    /// It reverted; only the fee was charged.
    Revert { gas_used: u64 },
    /// It was stopped by an exceptional condition; only the fee was charged.
    Halt { gas_used: u64 },
}

/// How the engine reads the code of an account.
#[derive(Debug, Clone, Copy, PartialEq, Eq, Structural)]
pub enum CodeKind {
    /// Plain instructions. Code written by [`Engine::insert_account_info`]
    /// is always of this kind.
    Legacy,
    /// A code container, as a container-creating transaction deploys it.
    Eof,
    /// A pointer to the account whose code runs in its place.
    Delegation,
}

/// What the engine's database reports for one address.
#[derive(Debug, Clone, PartialEq, Eq)]
pub struct EngineAccountInfo {
    pub nonce: u64,
    pub balance: [u8; 32],
    pub code: Vec<u8>,
    pub kind: CodeKind,
}

/// One entry of the engine's database.
///
/// An entry that does not exist is one that the database remembers as
/// missing; its nonce and balance read as zero and its code as empty, and
/// it may still carry storage. An entry whose storage was cleared is one
/// that a creation made or remade: a read of a slot it does not hold leaves
/// it alone, where any other existing entry takes the slot up with value
/// zero. The code is its bytes together with the kind the engine holds them
/// as, since the same bytes run differently as plain instructions and as a
/// container. The storage is the slots the entry holds, those holding zero
/// too.
pub struct EngineAccount {
    pub exists: bool,
    pub storage_cleared: bool,
    pub nonce: nat,
    pub balance: nat,
    pub code: Seq<u8>,
    pub kind: CodeKind,
    pub storage: Map<nat, nat>,
}

/// What running one transaction gives: the outcome, or `None` where the
/// engine refused the transaction, and the database afterwards.
pub struct Transacted {
    pub outcome: Option<ExecutionOutcome>,
    pub accounts: Map<Seq<u8>, EngineAccount>,
}

/// The interpreter together with its database: a `revm::Evm` over an
/// `InMemoryDB`. Its inside is hidden from the verifier; what is known of it
/// is what [`engine_accounts`] and [`engine_block`] name.
#[verifier::external_body]
pub struct Engine {
    inner: revm::Evm<'static, (), InMemoryDB>,
}

/// `revm`'s error for a transaction that could not be run.
#[verifier::external_type_specification]
#[verifier::external_body]
#[verifier::reject_recursive_types(DBError)]
pub struct ExEvmError<DBError>(EVMError<DBError>);

/// The entries of the engine's database, by address: the `accounts` map of
/// the `CacheDB`, each entry read as [`EngineAccount`] describes.
pub uninterp spec fn engine_accounts(engine: Engine) -> Map<Seq<u8>, EngineAccount>;

/// The block context the engine was made with.
pub uninterp spec fn engine_block(engine: Engine) -> BlockContextView;

/// The result of `revm`'s `transact_commit` on a database with the entries
/// `accounts`, under the block context `block`, for the request `tx`.
pub uninterp spec fn transacted(
    accounts: Map<Seq<u8>, EngineAccount>,
    block: BlockContextView,
    tx: TxRequestView,
) -> Transacted;

/// A database without entries.
pub open spec fn no_accounts() -> Map<Seq<u8>, EngineAccount> {
    Map::empty()
}

/// The database after `insert_account_info`: the entry gets the new nonce,
/// balance and code, the code as plain instructions, and keeps its storage
/// and whether that was cleared. An entry remembered as missing
/// stays missing.
pub open spec fn with_account_info(
    accounts: Map<Seq<u8>, EngineAccount>,
    address: Seq<u8>,
    nonce: nat,
    balance: nat,
    code: Seq<u8>,
) -> Map<Seq<u8>, EngineAccount> {
    if accounts.contains_key(address) && !accounts[address].exists {
        accounts
    } else {
        accounts.insert(
            address,
            EngineAccount {
                exists: true,
                storage_cleared: accounts.contains_key(address)
                    && accounts[address].storage_cleared,
                nonce,
                balance,
                code,
                kind: CodeKind::Legacy,
                storage: if accounts.contains_key(address) {
                    accounts[address].storage
                } else {
                    Map::empty()
                },
            },
        )
    }
}

/// The database after `insert_account_storage`: the slot is set in the
/// entry's storage. Where there was no entry, one is made that is
/// remembered as missing.
pub open spec fn with_storage_slot(
    accounts: Map<Seq<u8>, EngineAccount>,
    address: Seq<u8>,
    slot: nat,
    value: nat,
) -> Map<Seq<u8>, EngineAccount> {
    if accounts.contains_key(address) {
        accounts.insert(
            address,
            EngineAccount {
                storage: accounts[address].storage.insert(slot, value),
                ..accounts[address]
            },
        )
    } else {
        accounts.insert(
            address,
            EngineAccount {
                exists: false,
                storage_cleared: false,
                nonce: 0,
                balance: 0,
                code: Seq::empty(),
                kind: CodeKind::Legacy,
                storage: Map::empty().insert(slot, value),
            },
        )
    }
}

/// Whether `info` is what the database reports for `account`.
pub open spec fn reports(info: EngineAccountInfo, account: EngineAccount) -> bool {
    &&& info.nonce as nat == account.nonce
    &&& be_nat(info.balance@) == account.balance
    &&& info.code@ == account.code
    &&& info.kind == account.kind
}

impl Engine {
    /// An engine over an empty database.
    ///
    /// Calls `Evm::builder().with_db(InMemoryDB::default()).build()` and
    /// sets the six fields of its block environment. The database starts
    /// with no account.
    #[verifier::external_body]
    pub(crate) fn new(block: &BlockContext) -> (engine: Engine)
        ensures
            engine_accounts(engine) == no_accounts(),
            engine_block(engine) == block@,
    {
        let mut inner = revm::Evm::builder().with_db(InMemoryDB::default()).build();
        let env = inner.block_mut();
        env.gas_limit = U256::from_be_bytes(block.gas_limit);
        env.number = U256::from_be_bytes(block.number);
        env.timestamp = U256::from_be_bytes(block.timestamp);
        env.coinbase = Address::from(block.coinbase);
        env.difficulty = U256::from_be_bytes(block.difficulty);
        env.basefee = U256::from_be_bytes(block.basefee);
        Engine { inner }
    }

    /// Sets nonce, balance and code of an address.
    ///
    /// Calls `CacheDB::insert_account_info` with the code as
    /// `Bytecode::new_legacy`. It overwrites the entry's info, keeps its
    /// storage, and does not revive an entry that the database remembers as
    /// missing. Code that has the form of a container is installed as plain
    /// instructions all the same: the interpreter runs a container without
    /// checking it again, so only containers it has validated itself, on
    /// creation, may be held as such.
    #[verifier::external_body]
    pub(crate) fn insert_account_info(
        &mut self,
        address: &[u8; 20],
        nonce: u64,
        balance: &[u8; 32],
        code: &Vec<u8>,
    )
        ensures
            engine_accounts(*final(self)) == with_account_info(
                engine_accounts(*old(self)),
                address@,
                nonce as nat,
                be_nat(balance@),
                code@,
            ),
            engine_block(*final(self)) == engine_block(*old(self)),
    {
        let info = AccountInfo {
            balance: U256::from_be_bytes(*balance),
            nonce,
            code: Some(Bytecode::new_legacy(code.clone().into())),
            ..Default::default()
        };
        self.inner.db_mut().insert_account_info(Address::from(*address), info);
    }

    /// Sets one storage slot of an address.
    ///
    /// Calls `CacheDB::insert_account_storage`, which loads or makes the
    /// entry and writes the slot.
    #[verifier::external_body]
    pub(crate) fn insert_account_storage(
        &mut self,
        address: &[u8; 20],
        slot: &[u8; 32],
        value: &[u8; 32],
    )
        ensures
            engine_accounts(*final(self)) == with_storage_slot(
                engine_accounts(*old(self)),
                address@,
                be_nat(slot@),
                be_nat(value@),
            ),
            engine_block(*final(self)) == engine_block(*old(self)),
    {
        let Ok(()) = self.inner.db_mut().insert_account_storage(
            Address::from(*address),
            U256::from_be_bytes(*slot),
            U256::from_be_bytes(*value),
        );
    }

    /// Nonce, balance and code of an address, where the database has an
    /// existing entry for it.
    ///
    /// Calls `CacheDB::basic_ref`, the reading twin of `basic`. The code is
    /// given as it was deployed, without the padding the interpreter adds,
    /// together with the variant of `Bytecode` it is held in; an account
    /// without code reports none, as plain instructions.
    #[verifier::external_body]
    pub(crate) fn basic(&self, address: &[u8; 20]) -> (info: Option<EngineAccountInfo>)
        ensures
            match info {
                Some(found) => {
                    &&& engine_accounts(*self).contains_key(address@)
                    &&& engine_accounts(*self)[address@].exists
                    &&& reports(found, engine_accounts(*self)[address@])
                },
                None => !engine_accounts(*self).contains_key(address@) || !engine_accounts(
                    *self,
                )[address@].exists,
            },
    {
        let Ok(found) = revm::DatabaseRef::basic_ref(self.inner.db(), Address::from(*address));
        let info = found?;
        let code = info.code.unwrap_or_default();
        let kind = match &code {
            Bytecode::LegacyRaw(_) => CodeKind::Legacy,
            Bytecode::LegacyAnalyzed(_) => CodeKind::Legacy,
            Bytecode::Eof(_) => CodeKind::Eof,
            Bytecode::Eip7702(_) => CodeKind::Delegation,
        };
        let balance = info.balance.to_be_bytes::<32>();
        Some(EngineAccountInfo { nonce: info.nonce, balance, code: code.original_bytes().to_vec(), kind })
    }

    /// Runs one transaction and commits what it changed.
    ///
    /// Sets the six fields of the transaction environment from `tx` and
    /// calls `Evm::transact_commit`. The outcome and the database afterwards
    /// are those that [`transacted`] names; the block context stays.
    #[verifier::external_body]
    pub(crate) fn transact(&mut self, tx: &TxRequest) -> (result: Result<
        ExecutionOutcome,
        EVMError<Infallible>,
    >)
        ensures
            match result {
                Ok(outcome) => transacted(
                    engine_accounts(*old(self)),
                    engine_block(*old(self)),
                    tx@,
                ).outcome == Some(outcome),
                Err(_) => transacted(
                    engine_accounts(*old(self)),
                    engine_block(*old(self)),
                    tx@,
                ).outcome is None,
            },
            engine_accounts(*final(self)) == transacted(
                engine_accounts(*old(self)),
                engine_block(*old(self)),
                tx@,
            ).accounts,
            engine_block(*final(self)) == engine_block(*old(self)),
    {
        let env = self.inner.tx_mut();
        env.caller = tx.caller.into();
        env.gas_price = U256::from_be_bytes(tx.gas_price);
        env.gas_limit = tx.gas_limit;
        env.transact_to = tx.to.map(Address::from).into();
        env.value = U256::from_be_bytes(tx.value);
        env.data = tx.data.clone().into();
        match self.inner.transact_commit()? {
            ExecutionResult::Success { gas_used, .. } => Ok(ExecutionOutcome::Success { gas_used }),
            ExecutionResult::Revert { gas_used, .. } => Ok(ExecutionOutcome::Revert { gas_used }),
            ExecutionResult::Halt { gas_used, .. } => Ok(ExecutionOutcome::Halt { gas_used }),
        }
    }
}

/// What the engine says of a transaction it refused.
///
/// Calls the `Display` impl of `EVMError`.
#[verifier::external_body]
pub(crate) fn refusal_text(error: &EVMError<Infallible>) -> String {
    error.to_string()
}

} // verus!
