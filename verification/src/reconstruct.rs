//! Driving a replay: which height to fetch next, and what to do with what
//! came back.
//!
//! Fetching is not done here. A [`ReplayDriver`] says which height it wants;
//! the caller fetches it and hands in the block or the failure; the driver
//! applies the block to the reconstructor and moves on. Heights are taken in
//! increasing order, each exactly once. A height that could not be fetched
//! is passed over. A block without one receipt per transaction stops the
//! replay for good.

use vstd::prelude::*;
use crate::account::{address_key, widened};
use crate::block::{BlockError, height_of};
use crate::engine::{BlockContextView, ExecutionOutcome, engine_accounts, engine_block};
use crate::evm_exec::{
    ExecError, Snapshot, StateReconstructor, after_transactions, are_results_of,
    genesis_block_context, genesis_engine, genesis_store,
};
use crate::evm_wvm_types::{WvmBlock, WvmTransaction};
use crate::genesis_load::Genesis;
use crate::wvm_archiver::FetchedBlock;

verus! {

/// What the caller is to do next.
#[derive(Debug, Clone, Copy, PartialEq, Eq, Structural)]
pub enum ReplayAction {
    /// Fetch the block at this height and hand it in.
    Fetch { height: u64 },
    /// Stop: the block at this height was refused.
    Abort { height: u64, error: BlockError },
    /// Every height was handled.
    Finish,
}

/// What came back for the height that was asked for.
#[derive(Debug, Clone)]
pub enum ReplayEvent {
    /// The block and its receipts.
    Fetched(FetchedBlock),
    /// The height could not be fetched.
    FetchFailed,
}

/// What became of one event.
#[derive(Debug, Clone)]
pub enum BlockReport {
    /// The block was applied; one result per transaction.
    Applied { height: u64, results: Vec<Result<ExecutionOutcome, ExecError>> },
    /// The height could not be fetched and was passed over.
    Skipped { height: u64 },
    /// The block was refused as a whole; the replay is over.
    Refused { height: u64, error: BlockError },
    /// No height was asked for; the event was dropped.
    Ignored,
}

/// The heights still to replay, `next` up to but not including `end`, and
/// the refusal that stopped the replay, if one did.
#[derive(Debug, Clone, Copy, PartialEq, Eq)]
pub struct ReplayDriver {
    pub next: u64,
    pub end: u64,
    pub halted: Option<(u64, BlockError)>,
}

/// Store, engine database and height of a replay, and whether it was
/// stopped.
pub struct Replay {
    pub snapshot: Snapshot,
    pub height: u64,
    pub halted: bool,
}

/// A replay after one more event. A stopped replay stays as it is; a failed
/// fetch changes nothing; a block with as many receipts as transactions is
/// applied and sets the height; any other block stops the replay.
pub open spec fn replay_step(before: Replay, block: BlockContextView, event: ReplayEvent) -> Replay {
    if before.halted {
        before
    } else {
        match event {
            ReplayEvent::FetchFailed => before,
            ReplayEvent::Fetched(fetched) => if fetched.block.transactions@.len()
                != fetched.receipts@.len() {
                Replay { halted: true, ..before }
            } else {
                Replay {
                    snapshot: after_transactions(
                        before.snapshot,
                        block,
                        fetched.block.transactions@,
                    ),
                    height: height_of(fetched.block),
                    halted: false,
                }
            },
        }
    }
}

/// A replay after the first `count` events.
pub open spec fn replayed(
    start: Replay,
    block: BlockContextView,
    events: Seq<ReplayEvent>,
    count: nat,
) -> Replay
    decreases count,
{
    if count == 0 {
        start
    } else {
        replay_step(replayed(start, block, events, (count - 1) as nat), block, events[count - 1])
    }
}

/// How many heights lie from `first` up to but not including `last`.
pub open spec fn range_len(first: u64, last: u64) -> nat {
    if first < last {
        (last - first) as nat
    } else {
        0
    }
}

/// How many of `available` events a replay over that range takes.
pub open spec fn events_taken(first: u64, last: u64, available: nat) -> nat {
    if available < range_len(first, last) {
        available
    } else {
        range_len(first, last)
    }
}

/// The replay before the first event: what bootstrap from the genesis
/// leaves, at height zero.
pub open spec fn genesis_replay(genesis: Genesis) -> Replay {
    Replay {
        snapshot: Snapshot {
            store: genesis_store(genesis.alloc@),
            engine: genesis_engine(genesis.alloc@),
        },
        height: 0,
        halted: false,
    }
}

/// The replay that a genesis and the events for the heights from `first`
/// on give.
pub open spec fn reconstruction(
    genesis: Genesis,
    first: u64,
    last: u64,
    events: Seq<ReplayEvent>,
) -> Replay {
    replayed(
        genesis_replay(genesis),
        genesis_block_context(genesis),
        events,
        events_taken(first, last, events.len()),
    )
}

/// Whether `report` tells what became of `event`, handed in for `height`
/// to a replay whose store and engine database were `before`.
pub open spec fn is_report_of(
    report: BlockReport,
    before: Snapshot,
    block: BlockContextView,
    event: ReplayEvent,
    height: u64,
) -> bool {
    match event {
        ReplayEvent::FetchFailed => report is Skipped && report->Skipped_height == height,
        ReplayEvent::Fetched(fetched) => if fetched.block.transactions@.len()
            == fetched.receipts@.len() {
            &&& report is Applied
            &&& report->Applied_height == height
            &&& are_results_of(report->results@, before, block, fetched.block.transactions@)
        } else {
            &&& report is Refused
            &&& report->Refused_height == height
            &&& report->error == (BlockError::ReceiptCountMismatch {
                transactions: fetched.block.transactions.len(),
                receipts: fetched.receipts.len(),
            })
        },
    }
}

/// The replay that `state` is in the middle of.
pub open spec fn running(state: StateReconstructor) -> Replay {
    Replay { snapshot: state.snapshot(), height: state.block_number, halted: false }
}

/// Whether `state` is what the replay `replay` leaves.
pub open spec fn holds(state: StateReconstructor, replay: Replay) -> bool {
    &&& state.snapshot() == replay.snapshot
    &&& state.block_number == replay.height
}

/// Replay is a function of the genesis and the blocks: two reconstructors
/// that both come out of the same genesis and the same events hold the same
/// accounts at the same height.
pub proof fn lemma_replay_is_deterministic(
    genesis: Genesis,
    first: u64,
    last: u64,
    events: Seq<ReplayEvent>,
    one: StateReconstructor,
    other: StateReconstructor,
)
    requires
        holds(one, reconstruction(genesis, first, last, events)),
        holds(other, reconstruction(genesis, first, last, events)),
    ensures
        one.store() == other.store(),
        one.block_number == other.block_number,
        engine_accounts(one.evm) == engine_accounts(other.evm),
{
}

/// The store keys of the accounts a block's transactions name: for each
/// transaction in order its sender, then its recipient where it has one.
pub open spec fn touched(txs: Seq<WvmTransaction>) -> Seq<Seq<u8>>
    decreases txs.len(),
{
    if txs.len() == 0 {
        Seq::empty()
    } else {
        let before = touched(txs.drop_last()).push(widened(txs.last().from@));
        match txs.last().to {
            Some(target) => before.push(widened(target@)),
            None => before,
        }
    }
}

/// The store keys of the accounts a block's transactions name, for
/// reporting their state after the block.
pub fn touched_accounts(block: &WvmBlock<WvmTransaction>) -> (keys: Vec<[u8; 32]>)
    ensures
        keys@.len() == touched(block.transactions@).len(),
        forall|i: int| 0 <= i < keys@.len() ==> (#[trigger] keys@[i])@ == touched(
            block.transactions@,
        )[i],
{
    let mut keys: Vec<[u8; 32]> = Vec::new();
    let mut i: usize = 0;
    while i < block.transactions.len()
        invariant
            i <= block.transactions.len(),
            keys@.len() == touched(block.transactions@.take(i as int)).len(),
            forall|j: int| 0 <= j < keys@.len() ==> (#[trigger] keys@[j])@ == touched(
                block.transactions@.take(i as int),
            )[j],
        decreases block.transactions.len() - i,
    {
        let tx = &block.transactions[i];
        proof {
            let next = block.transactions@.take(i + 1);
            assert(next.drop_last() =~= block.transactions@.take(i as int));
        }
        keys.push(address_key(&tx.from));
        if let Some(target) = tx.to {
            keys.push(address_key(&target));
        }
        i += 1;
    }
    assert(block.transactions@.take(i as int) =~= block.transactions@);
    keys
}

impl ReplayDriver {
    /// What the driver wants next.
    pub open spec fn action(&self) -> ReplayAction {
        match self.halted {
            Some((height, error)) => ReplayAction::Abort { height, error },
            None => if self.next < self.end {
                ReplayAction::Fetch { height: self.next }
            } else {
                ReplayAction::Finish
            },
        }
    }

    /// A driver for the heights from `first` up to but not including `last`.
    pub fn new(first: u64, last: u64) -> (driver: Self)
        ensures
            driver.next == first,
            driver.end == last,
            driver.halted is None,
    {
        ReplayDriver { next: first, end: last, halted: None }
    }

    /// What the caller is to do next.
    pub fn next_action(&self) -> (action: ReplayAction)
        ensures
            action == self.action(),
    {
        match self.halted {
            Some((height, error)) => ReplayAction::Abort { height, error },
            None => if self.next < self.end {
                ReplayAction::Fetch { height: self.next }
            } else {
                ReplayAction::Finish
            },
        }
    }

    /// Takes what came back for the height that was asked for.
    ///
    /// Where no height was asked for, the event is dropped and nothing
    /// changes. Otherwise the driver moves to the next height, and the
    /// reconstructor is left as [`replay_step`] says.
    pub fn on_event(&mut self, state: &mut StateReconstructor, event: &ReplayEvent) -> (report:
        BlockReport)
        ensures
            final(self).end == old(self).end,
            engine_block(final(state).evm) == engine_block(old(state).evm),
            !(old(self).action() is Fetch) ==> {
                &&& report is Ignored
                &&& *final(self) == *old(self)
                &&& *final(state) == *old(state)
            },
            old(self).action() is Fetch ==> {
                &&& final(self).next == old(self).next + 1
                &&& holds(
                    *final(state),
                    replay_step(running(*old(state)), engine_block(old(state).evm), *event),
                )
                &&& final(self).halted is Some == replay_step(
                    running(*old(state)),
                    engine_block(old(state).evm),
                    *event,
                ).halted
                &&& is_report_of(
                    report,
                    old(state).snapshot(),
                    engine_block(old(state).evm),
                    *event,
                    old(self).next,
                )
                &&& report is Refused ==> final(self).halted == Some(
                    (old(self).next, report->error),
                )
                &&& !(report is Applied) ==> final(state).evm == old(state).evm
            },
    {
        let height = match self.next_action() {
            ReplayAction::Fetch { height } => height,
            _ => {
                return BlockReport::Ignored;
            },
        };
        self.next = height + 1;
        match event {
            ReplayEvent::FetchFailed => BlockReport::Skipped { height },
            ReplayEvent::Fetched(fetched) => {
                match state.apply_block(&fetched.block, fetched.receipts.as_slice()) {
                    Ok(results) => BlockReport::Applied { height, results },
                    Err(error) => {
                        self.halted = Some((height, error));
                        BlockReport::Refused { height, error }
                    },
                }
            },
        }
    }
}

/// Replays, on top of a genesis, the events that came back for the heights
/// from `first` up to but not including `last`, the event at position `i`
/// being the one for height `first + i`.
///
/// Events beyond the range, and events after a refused block, are left
/// alone. The result is the reconstructor and one report per event that was
/// taken.
pub fn reconstruct_network(genesis: &Genesis, first: u64, last: u64, events: &Vec<ReplayEvent>) -> (done:
    (StateReconstructor, Vec<BlockReport>))
    ensures
        holds(done.0, reconstruction(*genesis, first, last, events@)),
        engine_block(done.0.evm) == genesis_block_context(*genesis),
        done.1@.len() <= events_taken(first, last, events@.len()),
        done.1@.len() == events_taken(first, last, events@.len()) || replayed(
            genesis_replay(*genesis),
            genesis_block_context(*genesis),
            events@,
            done.1@.len(),
        ).halted,
        forall|count: nat|
            count < done.1@.len() ==> !(#[trigger] replayed(
                genesis_replay(*genesis),
                genesis_block_context(*genesis),
                events@,
                count,
            )).halted,
        forall|i: int|
            0 <= i < done.1@.len() ==> is_report_of(
                #[trigger] done.1@[i],
                replayed(
                    genesis_replay(*genesis),
                    genesis_block_context(*genesis),
                    events@,
                    i as nat,
                ).snapshot,
                genesis_block_context(*genesis),
                events@[i],
                (first + i) as u64,
            ),
{
    let mut state = StateReconstructor::from_genesis(genesis);
    let mut driver = ReplayDriver::new(first, last);
    let mut reports: Vec<BlockReport> = Vec::new();
    let ghost start = genesis_replay(*genesis);
    let ghost context = genesis_block_context(*genesis);
    let mut i: usize = 0;
    while i < events.len() && driver.next < driver.end && driver.halted.is_none()
        invariant
            i <= events.len(),
            driver.end == last,
            driver.next == first + i,
            i <= range_len(first, last),
            reports@.len() == i,
            engine_block(state.evm) == context,
            holds(state, replayed(start, context, events@, i as nat)),
            driver.halted is Some == replayed(start, context, events@, i as nat).halted,
            forall|count: nat|
                count < i ==> !(#[trigger] replayed(start, context, events@, count)).halted,
            forall|j: int|
                0 <= j < i ==> is_report_of(
                    #[trigger] reports@[j],
                    replayed(start, context, events@, j as nat).snapshot,
                    context,
                    events@[j],
                    (first + j) as u64,
                ),
        decreases events.len() - i,
    {
        let report = driver.on_event(&mut state, &events[i]);
        reports.push(report);
        i += 1;
    }
    proof {
        let taken = events_taken(first, last, events@.len());
        lemma_stopped_replay_stays(start, context, events@, i as nat, taken);
    }
    (state, reports)
}

/// Once a replay is stopped, or where no event is left, more events change
/// nothing of store, engine database and height.
pub proof fn lemma_stopped_replay_stays(
    start: Replay,
    block: BlockContextView,
    events: Seq<ReplayEvent>,
    reached: nat,
    count: nat,
)
    requires
        reached <= count,
        reached == count || replayed(start, block, events, reached).halted,
    ensures
        replayed(start, block, events, count).snapshot == replayed(
            start,
            block,
            events,
            reached,
        ).snapshot,
        replayed(start, block, events, count).height == replayed(
            start,
            block,
            events,
            reached,
        ).height,
        reached < count ==> replayed(start, block, events, count).halted,
    decreases count,
{
    if reached < count {
        lemma_stopped_replay_stays(start, block, events, reached, (count - 1) as nat);
    }
}

} // verus!
