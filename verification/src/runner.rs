//! The sync loop: which block to ask for next, when to store it, and when to
//! take one block back.
//!
//! The runner does no reading or writing itself. It says what is to be done
//! next, and is told what came of it.
use crate::config::IndexerConfig;
use crate::error::{RpcClientError, TransformError};
use crate::indexer::Web3Indexer;
use crate::types::{same_bytes, H256};
use vstd::prelude::*;

verus! {

/// Seconds to wait when upstream has no new block or cannot be reached.
pub const IDLE_SECONDS: u64 = 1;

/// Why a step of the sync loop could not go on.
#[derive(Debug, Clone, Copy, PartialEq, Eq, Structural)]
pub enum SyncError {
    /// The runner was told of something it had not asked for.
    OutOfTurn,
    /// The tip is the greatest block number there is.
    BlockNumberOverflow,
}

/// What the runner asks to be done.
#[derive(Debug, Clone, Copy, PartialEq, Eq, Structural)]
pub enum SyncAction {
    /// Read the greatest block number of the blocks table.
    ReadTip,
    /// Ask upstream for the block of this number.
    FetchBlock { number: u64 },
    /// Read the hash that the blocks table holds for this number.
    ReadBlockHash { number: u64 },
    /// Transform the block that was fetched and insert it.
    StoreBlock { number: u64 },
    /// Delete the block of this number with its transactions and logs.
    DeleteBlock { number: u64 },
    /// Nothing more: the step is over, with or without progress.
    Finish { progress: bool },
}

/// What the runner is told.
#[derive(Debug, Clone, Copy)]
pub enum SyncEvent {
    /// A new step begins.
    Start,
    /// The greatest block number of the blocks table, if it holds a block.
    Tip(Option<u64>),
    /// The parent hash of the block that upstream gave, if it gave one.
    Block(Option<H256>),
    /// The hash that the blocks table holds, if it holds the block.
    BlockHash(Option<H256>),
    /// The block has been inserted.
    Stored,
    /// The block has been deleted.
    Deleted,
}

/// What the runner waits for.
#[derive(Debug, Clone, Copy)]
pub enum Awaiting {
    /// Nothing: no step is under way.
    Nothing,
    /// The tip of the table, to know which block comes next.
    Tip,
    /// The block of this number from upstream.
    Block { number: u64 },
    /// The stored hash of block `previous`, the one before block `number`.
    BlockHash { number: u64, previous: u64, parent_hash: H256 },
    /// The insertion of this block.
    Store { number: u64 },
    /// The tip of the table, to take it over after the insertion of this
    /// block.
    TipAfterStore { number: u64 },
    /// The deletion of this block.
    Delete { number: u64 },
}

/// What an `Awaiting` stands for.
#[verifier::ext_equal]
pub enum AwaitingView {
    Nothing,
    Tip,
    Block { number: u64 },
    BlockHash { number: u64, previous: u64, parent_hash: Seq<u8> },
    Store { number: u64 },
    TipAfterStore { number: u64 },
    Delete { number: u64 },
}

impl View for Awaiting {
    type V = AwaitingView;

    open spec fn view(&self) -> AwaitingView {
        match *self {
            Awaiting::Nothing => AwaitingView::Nothing,
            Awaiting::Tip => AwaitingView::Tip,
            Awaiting::Block { number } => AwaitingView::Block { number },
            Awaiting::BlockHash { number, previous, parent_hash } => AwaitingView::BlockHash {
                number,
                previous,
                parent_hash: parent_hash@,
            },
            Awaiting::Store { number } => AwaitingView::Store { number },
            Awaiting::TipAfterStore { number } => AwaitingView::TipAfterStore { number },
            Awaiting::Delete { number } => AwaitingView::Delete { number },
        }
    }
}

/// The sync loop's state: the transformer it stores blocks with, the tip it
/// knows of, and what it waits for.
pub struct Runner {
    indexer: Web3Indexer,
    local_tip: Option<u64>,
    awaiting: Awaiting,
}

/// What a `Runner` stands for.
#[verifier::ext_equal]
pub struct RunnerView {
    /// The number of the newest block that the runner knows to be stored;
    /// none while it has not stored one.
    pub local_tip: Option<u64>,
    /// What the runner waits for.
    pub awaiting: AwaitingView,
}

/// The tip after one more block: the table's tip where the runner knew none,
/// and zero where the table is empty too; else the next number.
pub open spec fn bumped_tip(local_tip: Option<u64>, table_tip: Option<u64>) -> Option<u64> {
    match local_tip {
        None => match table_tip {
            Some(n) => Some(n),
            None => Some(0u64),
        },
        Some(t) => if t < u64::MAX {
            Some((t + 1) as u64)
        } else {
            Some(t)
        },
    }
}

/// The tip after one block less: none below block zero.
pub open spec fn reverted_tip(local_tip: Option<u64>) -> Option<u64> {
    match local_tip {
        Some(t) => if t == 0 {
            None
        } else {
            Some((t - 1) as u64)
        },
        None => None,
    }
}

impl RunnerView {
    /// The state and the request once the tip is known: the block after the
    /// tip is asked for, or block zero where there is no tip.
    pub open spec fn fetch_after(self, tip: Option<u64>) -> Result<
        (RunnerView, SyncAction),
        SyncError,
    > {
        match tip {
            None => Ok(
                (
                    RunnerView { awaiting: AwaitingView::Block { number: 0 }, ..self },
                    SyncAction::FetchBlock { number: 0 },
                ),
            ),
            Some(t) => if t == u64::MAX {
                Err(SyncError::BlockNumberOverflow)
            } else {
                Ok(
                    (
                        RunnerView {
                            awaiting: AwaitingView::Block { number: (t + 1) as u64 },
                            ..self
                        },
                        SyncAction::FetchBlock { number: (t + 1) as u64 },
                    ),
                )
            },
        }
    }

    /// The state and the request once the block is to be stored.
    pub open spec fn store(self, number: u64) -> Result<(RunnerView, SyncAction), SyncError> {
        Ok(
            (
                RunnerView { awaiting: AwaitingView::Store { number }, ..self },
                SyncAction::StoreBlock { number },
            ),
        )
    }

    /// The state once the step under way is given up: the runner waits for
    /// nothing and keeps its tip.
    pub open spec fn aborted(self) -> RunnerView {
        RunnerView { awaiting: AwaitingView::Nothing, ..self }
    }

    /// The state and the request that follow on `event`.
    ///
    /// A step begins with the tip, which is read from the table while the
    /// runner has stored no block. The block after the tip is asked of
    /// upstream; without one the step ends idle. Block zero is stored as it
    /// comes. A later block is held against the stored hash of the block
    /// before it: where that hash is not the new block's parent hash, the
    /// block before is deleted and the tip goes one back; where it is, or
    /// where the table holds no such block, the new block is stored and the
    /// tip goes one up.
    pub open spec fn step(self, event: SyncEvent) -> Result<(RunnerView, SyncAction), SyncError> {
        match (self.awaiting, event) {
            (AwaitingView::Nothing, SyncEvent::Start) => match self.local_tip {
                Some(t) => self.fetch_after(Some(t)),
                None => Ok(
                    (RunnerView { awaiting: AwaitingView::Tip, ..self }, SyncAction::ReadTip),
                ),
            },
            (AwaitingView::Tip, SyncEvent::Tip(tip)) => self.fetch_after(tip),
            (AwaitingView::Block { number }, SyncEvent::Block(None)) => Ok(
                (
                    RunnerView { awaiting: AwaitingView::Nothing, ..self },
                    SyncAction::Finish { progress: false },
                ),
            ),
            (AwaitingView::Block { number }, SyncEvent::Block(Some(parent_hash))) => if number
                > 0 {
                Ok(
                    (
                        RunnerView {
                            awaiting: AwaitingView::BlockHash {
                                number,
                                previous: (number - 1) as u64,
                                parent_hash: parent_hash@,
                            },
                            ..self
                        },
                        SyncAction::ReadBlockHash { number: (number - 1) as u64 },
                    ),
                )
            } else {
                self.store(number)
            },
            (
                AwaitingView::BlockHash { number, previous, parent_hash },
                SyncEvent::BlockHash(Some(stored)),
            ) => if stored@ == parent_hash {
                self.store(number)
            } else {
                Ok(
                    (
                        RunnerView { awaiting: AwaitingView::Delete { number: previous }, ..self },
                        SyncAction::DeleteBlock { number: previous },
                    ),
                )
            },
            (AwaitingView::BlockHash { number, .. }, SyncEvent::BlockHash(None)) => self.store(
                number,
            ),
            (AwaitingView::Store { number }, SyncEvent::Stored) => match self.local_tip {
                None => Ok(
                    (
                        RunnerView { awaiting: AwaitingView::TipAfterStore { number }, ..self },
                        SyncAction::ReadTip,
                    ),
                ),
                Some(t) => Ok(
                    (
                        RunnerView {
                            local_tip: bumped_tip(self.local_tip, None),
                            awaiting: AwaitingView::Nothing,
                        },
                        SyncAction::Finish { progress: true },
                    ),
                ),
            },
            (AwaitingView::TipAfterStore { number }, SyncEvent::Tip(tip)) => Ok(
                (
                    RunnerView {
                        local_tip: bumped_tip(self.local_tip, tip),
                        awaiting: AwaitingView::Nothing,
                    },
                    SyncAction::Finish { progress: true },
                ),
            ),
            (AwaitingView::Delete { number }, SyncEvent::Deleted) => Ok(
                (
                    RunnerView {
                        local_tip: reverted_tip(self.local_tip),
                        awaiting: AwaitingView::Nothing,
                    },
                    SyncAction::Finish { progress: true },
                ),
            ),
            _ => Err(SyncError::OutOfTurn),
        }
    }
}

impl View for Runner {
    type V = RunnerView;

    closed spec fn view(&self) -> RunnerView {
        RunnerView { local_tip: self.local_tip, awaiting: self.awaiting@ }
    }
}

impl Runner {
    /// The transformer that the runner stores blocks with.
    pub closed spec fn transformer(&self) -> Web3Indexer {
        self.indexer
    }

    /// A runner that has stored no block and waits for nothing, with a
    /// transformer set up as `config` says.
    pub fn new(config: &IndexerConfig) -> (runner: Runner)
        ensures
            runner@ == (RunnerView { local_tip: None, awaiting: AwaitingView::Nothing }),
            runner.transformer().wf(),
            runner.transformer().l2_sudt_type_script_hash() == config.l2_sudt_type_script_hash@,
            runner.transformer().polyjuice_type_script_hash()
                == config.polyjuice_type_script_hash@,
            runner.transformer().rollup_type_hash() == config.rollup_type_hash@,
            runner.transformer().allowed_eoa_hashes() == set![config.eth_account_lock_hash@],
            runner.transformer().chain_id() == config.chain_id,
    {
        let indexer = Web3Indexer::new(
            config.l2_sudt_type_script_hash,
            config.polyjuice_type_script_hash,
            config.rollup_type_hash,
            config.eth_account_lock_hash,
            config.chain_id,
        );
        Runner { indexer, local_tip: None, awaiting: Awaiting::Nothing }
    }

    /// The transformer that the runner stores blocks with.
    pub fn indexer(&self) -> (indexer: &Web3Indexer)
        ensures
            *indexer == self.transformer(),
    {
        &self.indexer
    }

    /// The tip: the runner's own where it has one, else the table's.
    pub fn tip(&self, table_tip: Option<u64>) -> (tip: Option<u64>)
        ensures
            tip == match self@.local_tip {
                Some(t) => Some(t),
                None => table_tip,
            },
    {
        match self.local_tip {
            Some(t) => Some(t),
            None => table_tip,
        }
    }

    /// Moves the tip one block up.
    pub fn bump_tip(&mut self, table_tip: Option<u64>)
        ensures
            final(self)@ == (RunnerView {
                local_tip: bumped_tip(old(self)@.local_tip, table_tip),
                ..old(self)@
            }),
            final(self).transformer() == old(self).transformer(),
    {
        self.local_tip = match self.local_tip {
            None => match table_tip {
                Some(n) => Some(n),
                None => Some(0),
            },
            Some(t) => if t < u64::MAX {
                Some(t + 1)
            } else {
                Some(t)
            },
        };
    }

    /// Moves the tip one block back.
    pub fn revert_tip(&mut self)
        ensures
            final(self)@ == (RunnerView {
                local_tip: reverted_tip(old(self)@.local_tip),
                ..old(self)@
            }),
            final(self).transformer() == old(self).transformer(),
    {
        self.local_tip = match self.local_tip {
            Some(t) => if t == 0 {
                None
            } else {
                Some(t - 1)
            },
            None => None,
        };
    }

    /// Gives up the step under way, as after a failure of what the runner
    /// asked for. The next event to take is the start of a new step.
    pub fn abort(&mut self)
        ensures
            final(self)@ == old(self)@.aborted(),
            final(self).transformer() == old(self).transformer(),
    {
        self.awaiting = Awaiting::Nothing;
    }

    /// Asks for the block after `tip`.
    fn fetch_after(&mut self, tip: Option<u64>) -> (r: Result<SyncAction, SyncError>)
        ensures
            final(self).transformer() == old(self).transformer(),
            match old(self)@.fetch_after(tip) {
                Ok((next, action)) => r == Ok::<SyncAction, SyncError>(action) && final(self)@
                    == next,
                Err(e) => r == Err::<SyncAction, SyncError>(e) && final(self)@ == old(self)@,
            },
    {
        let number: u64 = match tip {
            None => 0,
            Some(t) => {
                if t == u64::MAX {
                    return Err(SyncError::BlockNumberOverflow);
                }
                t + 1
            },
        };
        self.awaiting = Awaiting::Block { number };
        Ok(SyncAction::FetchBlock { number })
    }

    /// Takes one event of the main step and says what is to be done next.
    ///
    /// An event that was not asked for is refused, and the runner stays as it
    /// was.
    pub fn insert(&mut self, event: SyncEvent) -> (r: Result<SyncAction, SyncError>)
        ensures
            final(self).transformer() == old(self).transformer(),
            match old(self)@.step(event) {
                Ok((next, action)) => r == Ok::<SyncAction, SyncError>(action) && final(self)@
                    == next,
                Err(e) => r == Err::<SyncAction, SyncError>(e) && final(self)@ == old(self)@,
            },
    {
        match (self.awaiting, event) {
            (Awaiting::Nothing, SyncEvent::Start) => match self.local_tip {
                Some(t) => self.fetch_after(Some(t)),
                None => {
                    self.awaiting = Awaiting::Tip;
                    Ok(SyncAction::ReadTip)
                },
            },
            (Awaiting::Tip, SyncEvent::Tip(tip)) => self.fetch_after(tip),
            (Awaiting::Block { number: _ }, SyncEvent::Block(None)) => {
                self.awaiting = Awaiting::Nothing;
                Ok(SyncAction::Finish { progress: false })
            },
            (Awaiting::Block { number }, SyncEvent::Block(Some(parent_hash))) => {
                if number > 0 {
                    let previous: u64 = number - 1;
                    self.awaiting = Awaiting::BlockHash { number, previous, parent_hash };
                    Ok(SyncAction::ReadBlockHash { number: previous })
                } else {
                    self.awaiting = Awaiting::Store { number };
                    Ok(SyncAction::StoreBlock { number })
                }
            },
            (
                Awaiting::BlockHash { number, previous, parent_hash },
                SyncEvent::BlockHash(Some(stored)),
            ) => {
                if same_bytes(stored.as_slice(), parent_hash.as_slice()) {
                    self.awaiting = Awaiting::Store { number };
                    Ok(SyncAction::StoreBlock { number })
                } else {
                    self.awaiting = Awaiting::Delete { number: previous };
                    Ok(SyncAction::DeleteBlock { number: previous })
                }
            },
            (
                Awaiting::BlockHash { number, previous: _, parent_hash: _ },
                SyncEvent::BlockHash(None),
            ) => {
                self.awaiting = Awaiting::Store { number };
                Ok(SyncAction::StoreBlock { number })
            },
            (Awaiting::Store { number }, SyncEvent::Stored) => match self.local_tip {
                None => {
                    self.awaiting = Awaiting::TipAfterStore { number };
                    Ok(SyncAction::ReadTip)
                },
                Some(_) => {
                    self.bump_tip(None);
                    self.awaiting = Awaiting::Nothing;
                    Ok(SyncAction::Finish { progress: true })
                },
            },
            (Awaiting::TipAfterStore { number: _ }, SyncEvent::Tip(tip)) => {
                self.bump_tip(tip);
                self.awaiting = Awaiting::Nothing;
                Ok(SyncAction::Finish { progress: true })
            },
            (Awaiting::Delete { number: _ }, SyncEvent::Deleted) => {
                self.revert_tip();
                self.awaiting = Awaiting::Nothing;
                Ok(SyncAction::Finish { progress: true })
            },
            _ => Err(SyncError::OutOfTurn),
        }
    }
}


/// Why one step of the sync loop failed.
#[derive(Debug, Clone)]
pub enum InsertError {
    /// A call to upstream failed.
    Rpc(RpcClientError),
    /// The runner was driven out of turn.
    Sync(SyncError),
    /// The block could not be turned into rows.
    Transform(TransformError),
    /// Anything else, such as a failure of the database, as text.
    Other(String),
}

/// What the sync loop does after a step.
#[derive(Debug, Clone, Copy, PartialEq, Eq, Structural)]
pub enum LoopStep {
    /// Take the next step at once.
    Again,
    /// Wait this many seconds, then take the next step.
    Wait { seconds: u64 },
    /// Give up.
    Exit,
}

/// What the loop does after a step that ended as `outcome`: after progress
/// the next step at once; after an idle step, or when upstream could not be
/// reached, the next step a second later; after any other failure none.
pub open spec fn loop_step(outcome: Result<bool, InsertError>) -> LoopStep {
    match outcome {
        Ok(progress) => if progress {
            LoopStep::Again
        } else {
            LoopStep::Wait { seconds: IDLE_SECONDS }
        },
        Err(InsertError::Rpc(RpcClientError::ConnectionError(_, _))) => LoopStep::Wait {
            seconds: IDLE_SECONDS,
        },
        Err(_) => LoopStep::Exit,
    }
}

impl Runner {
    /// Says how the loop goes on after a step that ended as `outcome`.
    pub fn run(outcome: &Result<bool, InsertError>) -> (next: LoopStep)
        ensures
            next == loop_step(*outcome),
    {
        match outcome {
            Ok(progress) => {
                if *progress {
                    LoopStep::Again
                } else {
                    LoopStep::Wait { seconds: IDLE_SECONDS }
                }
            },
            Err(InsertError::Rpc(e)) => {
                if e.is_connection_error() {
                    LoopStep::Wait { seconds: IDLE_SECONDS }
                } else {
                    LoopStep::Exit
                }
            },
            Err(_) => LoopStep::Exit,
        }
    }
}

/// Whether the table holds no gap: with a block it holds every block below.
pub open spec fn contiguous(blocks: Set<u64>) -> bool {
    forall|n: u64, m: u64| blocks.contains(n) && m < n ==> blocks.contains(m)
}

/// Whether `tip` is the greatest block number of the table; none for an
/// empty table.
pub open spec fn is_tip(blocks: Set<u64>, tip: Option<u64>) -> bool {
    match tip {
        Some(t) => blocks.contains(t) && forall|n: u64| blocks.contains(n) ==> n <= t,
        None => forall|n: u64| !blocks.contains(n),
    }
}

/// Whether block `number` is the one right above the table's tip.
pub open spec fn follows_tip(blocks: Set<u64>, number: u64) -> bool {
    is_tip(
        blocks,
        if number == 0 {
            None
        } else {
            Some((number - 1) as u64)
        },
    )
}

/// The table once `action` has been carried out.
pub open spec fn table_after(blocks: Set<u64>, action: SyncAction) -> Set<u64> {
    match action {
        SyncAction::StoreBlock { number } => blocks.insert(number),
        SyncAction::DeleteBlock { number } => blocks.remove(number),
        _ => blocks,
    }
}

/// Whether `event` says of the table what is the case. Only a tip can be
/// held against the set of block numbers.
pub open spec fn reports(blocks: Set<u64>, event: SyncEvent) -> bool {
    match event {
        SyncEvent::Tip(tip) => is_tip(blocks, tip),
        _ => true,
    }
}

/// How the runner and the table stand to each other while the runner alone
/// writes the table: the table has no gap, the runner's tip is the table's,
/// and the block that the runner is dealing with lies right at the tip.
pub open spec fn in_step(runner: RunnerView, blocks: Set<u64>) -> bool {
    &&& contiguous(blocks)
    &&& match runner.awaiting {
        AwaitingView::Nothing | AwaitingView::Tip => runner.local_tip is Some ==> is_tip(
            blocks,
            runner.local_tip,
        ),
        AwaitingView::Block { number } => {
            &&& runner.local_tip is Some ==> is_tip(blocks, runner.local_tip)
            &&& follows_tip(blocks, number)
        },
        AwaitingView::BlockHash { number, previous, .. } => {
            &&& runner.local_tip is Some ==> is_tip(blocks, runner.local_tip)
            &&& follows_tip(blocks, number)
            &&& previous + 1 == number
        },
        AwaitingView::Store { number } => {
            &&& is_tip(blocks, Some(number))
            &&& runner.local_tip matches Some(t) ==> t + 1 == number
        },
        AwaitingView::TipAfterStore { number } => {
            &&& is_tip(blocks, Some(number))
            &&& runner.local_tip is None
        },
        AwaitingView::Delete { number } => {
            &&& follows_tip(blocks, number)
            &&& runner.local_tip matches Some(t) ==> t == number
        },
    }
}

/// A runner that has done nothing yet stands well to any table without a gap.
pub proof fn lemma_fresh_runner_in_step(blocks: Set<u64>)
    requires
        contiguous(blocks),
    ensures
        in_step(RunnerView { local_tip: None, awaiting: AwaitingView::Nothing }, blocks),
{
}

/// The blocks table never gets a gap below its tip, and the runner's tip stays
/// the table's: where runner and table stand well to each other and the runner
/// is told the truth about the table, they stand well to each other again once
/// what the runner asked for has been done.
pub proof fn lemma_blocks_stay_contiguous(runner: RunnerView, blocks: Set<u64>, event: SyncEvent)
    requires
        in_step(runner, blocks),
        reports(blocks, event),
    ensures
        runner.step(event) matches Ok((next, action)) ==> in_step(
            next,
            table_after(blocks, action),
        ),
{
}

/// Giving a step up where what the runner asked for was not done leaves
/// runner and table standing well to each other.
pub proof fn lemma_abort_keeps_in_step(runner: RunnerView, blocks: Set<u64>, event: SyncEvent)
    requires
        in_step(runner, blocks),
        reports(blocks, event),
    ensures
        runner.step(event) matches Ok((next, action)) ==> in_step(next.aborted(), blocks),
{
}

} // verus!
