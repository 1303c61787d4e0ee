//! The decisions taken for each item of the pending-transaction feed: whether to simulate it
//! and against which snapshot of the tip, which gas price to simulate with, what to record, and
//! whether two backends agree. Waiting for the feeds, running the backends and taking the time
//! are left to the caller.

use crate::chain::{Block, BlockView, Transaction, TransactionView};
use crate::primitives::{H256, U256};
use crate::runner::{Backend, ExecutionOutcome, SimulationError};
use crate::tip::{Feed, FeedEnded, TipTracker};
use vstd::prelude::*;

verus! {

/// How many pending transactions the feed may hold in flight before it takes no more.
pub const PENDING_FEED_BUFFER: usize = 10;

/// One item of the pending-transaction feed.
#[derive(Clone, Debug, PartialEq, Eq)]
pub enum FeedItem {
    Pending(Transaction),
    /// The client announced a transaction that could not be decoded.
    Undecodable,
}

/// Why an item of the feed is not simulated.
#[derive(Clone, Copy, Debug, PartialEq, Eq)]
pub enum DropReason {
    Undecodable,
    /// Gas limit or nonce is beyond what the execution engine can take.
    OutOfRange,
}

/// One transaction to simulate, with the tip as it was when the transaction was taken from the
/// feed. The tip may move on while the simulation runs; the job keeps its snapshot. The
/// transaction carries the price to simulate with, and goes to every backend as it is.
#[derive(Clone, Debug, PartialEq, Eq)]
pub struct Job {
    pub block: Block,
    pub tx: Transaction,
}

/// What to do about the next item of the feed.
#[derive(Clone, Debug, PartialEq, Eq)]
pub enum Dispatch {
    /// Simulate the transaction.
    Simulate(Job),
    /// Leave the item out, with a warning, and go on with the next one.
    Drop(DropReason),
    /// The feed has ended: stop the engine.
    Stop(FeedEnded),
}

/// Decides what to do about the next item of the pending-transaction feed. A transaction that
/// the engine can take is simulated against the tip as it is now, at the price to simulate
/// with; an item that cannot be used is dropped; the end of the feed stops the engine. Nothing
/// else is looked at: a transaction is simulated whatever its nonce, price or recipient.
pub fn dispatch(tip: &TipTracker, next: Option<FeedItem>) -> (decision: Dispatch)
    ensures
        match next {
            Some(FeedItem::Pending(tx)) => if tx.fits_engine() {
                decision == Dispatch::Simulate(Job { block: tip@, tx: simulated(tx, tip@) })
            } else {
                decision == Dispatch::Drop(DropReason::OutOfRange)
            },
            Some(FeedItem::Undecodable) => decision == Dispatch::Drop(DropReason::Undecodable),
            None => decision == Dispatch::Stop(FeedEnded(Feed::PendingTransactions)),
        },
{
    match next {
        Some(FeedItem::Pending(tx)) => {
            if tx.fits_engine() {
                let block = tip.snapshot();
                let mut tx = tx;
                substitute_gas_price(&mut tx, &block);
                Dispatch::Simulate(Job { block, tx })
            } else {
                Dispatch::Drop(DropReason::OutOfRange)
            }
        },
        Some(FeedItem::Undecodable) => Dispatch::Drop(DropReason::Undecodable),
        None => Dispatch::Stop(FeedEnded(Feed::PendingTransactions)),
    }
}

/// The gas price to simulate with: the most the sender declared to be willing to pay. That is
/// the fee cap where the transaction has one, and otherwise the price the transaction names.
/// Only for a transaction that names neither is the block's base fee taken.
pub open spec fn effective_gas_price(tx: TransactionView, block: BlockView) -> Option<nat> {
    match tx.max_fee_per_gas {
        Some(cap) => Some(cap),
        None => match tx.gas_price {
            Some(price) => Some(price),
            None => block.base_fee_per_gas,
        },
    }
}

/// The price to simulate with, as transaction and block hold it.
pub open spec fn simulated_price(tx: Transaction, block: Block) -> Option<U256> {
    match tx.max_fee_per_gas {
        Some(cap) => Some(cap),
        None => match tx.gas_price {
            Some(price) => Some(price),
            None => block.base_fee_per_gas,
        },
    }
}

/// The transaction as it is simulated against `block`: its gas price is the price to simulate
/// with, and nothing else is changed.
pub open spec fn simulated(tx: Transaction, block: Block) -> Transaction {
    Transaction { gas_price: simulated_price(tx, block), ..tx }
}

/// Sets the transaction's gas price to the price to simulate with. Nothing else changes.
pub fn substitute_gas_price(tx: &mut Transaction, block: &Block)
    ensures
        *final(tx) == simulated(*old(tx), *block),
        final(tx)@ == (TransactionView {
            gas_price: effective_gas_price(old(tx)@, block@),
            ..old(tx)@
        }),
        final(tx).fits_engine() == old(tx).fits_engine(),
{
    let price: Option<U256> = match tx.max_fee_per_gas {
        Some(cap) => Some(cap),
        None => match tx.gas_price {
            Some(price) => Some(price),
            None => block.base_fee_per_gas,
        },
    };
    tx.gas_price = price;
}

/// What came of simulating one transaction against one backend.
#[derive(Debug, PartialEq, Eq)]
pub struct SimulationRecord {
    pub tx_hash: H256,
    /// Number of the block that the transaction was simulated against.
    pub block_number: u64,
    pub backend: Backend,
    /// Wall-clock time of the run, in nanoseconds.
    pub elapsed_nanos: u128,
    pub result: Result<ExecutionOutcome, SimulationError>,
}

/// Records the result of running `job` against `backend`. A failed simulation is recorded like
/// a finished one.
pub fn record(
    job: &Job,
    backend: Backend,
    elapsed_nanos: u128,
    result: Result<ExecutionOutcome, SimulationError>,
) -> (entry: SimulationRecord)
    ensures
        entry == (SimulationRecord {
            tx_hash: job.tx.hash,
            block_number: job.block.number,
            backend,
            elapsed_nanos,
            result,
        }),
{
    SimulationRecord {
        tx_hash: job.tx.hash,
        block_number: job.block.number,
        backend,
        elapsed_nanos,
        result,
    }
}

/// What is reported of one simulation.
#[derive(Clone, Copy, Debug, PartialEq, Eq)]
pub enum LogLine {
    /// The transaction ran to its end.
    Completed {
        tx_hash: H256,
        gas_used: u64,
        success: bool,
        state_changes: usize,
        elapsed_millis: u128,
    },
    /// The transaction could not be simulated.
    Failed { tx_hash: H256, backend: Backend, error: SimulationError },
}

/// The report for a record: every record has one, whether the transaction succeeded, reverted,
/// halted or could not be simulated.
pub open spec fn log_line_of(entry: SimulationRecord) -> LogLine {
    match entry.result {
        Ok(outcome) => LogLine::Completed {
            tx_hash: entry.tx_hash,
            gas_used: outcome.gas_used,
            success: outcome.status is Success,
            state_changes: outcome.state@.len() as usize,
            elapsed_millis: (entry.elapsed_nanos / 1_000_000) as u128,
        },
        Err(error) => LogLine::Failed {
            tx_hash: entry.tx_hash,
            backend: entry.backend,
            error,
        },
    }
}

/// Makes the report for a record.
pub fn log_line(entry: &SimulationRecord) -> (line: LogLine)
    ensures
        line == log_line_of(*entry),
{
    match &entry.result {
        Ok(outcome) => LogLine::Completed {
            tx_hash: entry.tx_hash,
            gas_used: outcome.gas_used(),
            success: outcome.is_success(),
            state_changes: outcome.state_changes(),
            elapsed_millis: entry.elapsed_nanos / 1_000_000,
        },
        Err(error) => LogLine::Failed {
            tx_hash: entry.tx_hash,
            backend: entry.backend,
            error: *error,
        },
    }
}

/// Whether two runs of one transaction tell the same story.
#[derive(Clone, Copy, Debug, PartialEq, Eq)]
pub enum Agreement {
    /// Both ran to their end with the same gas used and the same success flag.
    Match,
    /// Both ran to their end and differ; this is to be reported as a warning.
    Mismatch { gas_used_differs: bool, success_differs: bool },
    /// At least one of the two has no outcome to compare.
    NotComparable,
}

/// The agreement of two records.
pub open spec fn agreement_of(first: SimulationRecord, second: SimulationRecord) -> Agreement {
    match (first.result, second.result) {
        (Ok(a), Ok(b)) => {
            let gas_used_differs = a.gas_used != b.gas_used;
            let success_differs = (a.status is Success) != (b.status is Success);
            if gas_used_differs || success_differs {
                Agreement::Mismatch { gas_used_differs, success_differs }
            } else {
                Agreement::Match
            }
        },
        _ => Agreement::NotComparable,
    }
}

/// Compares the records of two backends for one transaction.
pub fn agreement(first: &SimulationRecord, second: &SimulationRecord) -> (verdict: Agreement)
    ensures
        verdict == agreement_of(*first, *second),
{
    match (&first.result, &second.result) {
        (Ok(a), Ok(b)) => {
            let gas_used_differs = a.gas_used() != b.gas_used();
            let success_differs = a.is_success() != b.is_success();
            if gas_used_differs || success_differs {
                Agreement::Mismatch { gas_used_differs, success_differs }
            } else {
                Agreement::Match
            }
        },
        _ => Agreement::NotComparable,
    }
}

/// One line of the comparison of two backends, fit for later aggregation. The speed of the
/// candidate relative to the baseline is `baseline_nanos / candidate_nanos`.
#[derive(Clone, Copy, Debug, PartialEq, Eq)]
pub struct ComparisonLine {
    pub block_number: u64,
    pub tx_hash: H256,
    pub gas_used: u64,
    pub baseline_nanos: u128,
    pub candidate_nanos: u128,
}

/// The comparison line for two records: there is one exactly when the candidate ran to its
/// end, and it carries the candidate's block, transaction and gas with both run times.
pub open spec fn comparison_line_of(
    baseline: SimulationRecord,
    candidate: SimulationRecord,
) -> Option<ComparisonLine> {
    match candidate.result {
        Ok(outcome) => Some(
            ComparisonLine {
                block_number: candidate.block_number,
                tx_hash: candidate.tx_hash,
                gas_used: outcome.gas_used,
                baseline_nanos: baseline.elapsed_nanos,
                candidate_nanos: candidate.elapsed_nanos,
            },
        ),
        Err(_) => None,
    }
}

/// Makes the comparison line for the records of a baseline and a candidate backend.
pub fn comparison_line(baseline: &SimulationRecord, candidate: &SimulationRecord) -> (line: Option<
    ComparisonLine,
>)
    ensures
        line == comparison_line_of(*baseline, *candidate),
{
    match &candidate.result {
        Ok(outcome) => Some(
            ComparisonLine {
                block_number: candidate.block_number,
                tx_hash: candidate.tx_hash,
                gas_used: outcome.gas_used(),
                baseline_nanos: baseline.elapsed_nanos,
                candidate_nanos: candidate.elapsed_nanos,
            },
        ),
        Err(_) => None,
    }
}

/// Everything that is reported of one transaction that ran against two backends.
#[derive(Clone, Copy, Debug, PartialEq, Eq)]
pub struct Comparison {
    /// The report of the baseline's run.
    pub baseline: LogLine,
    /// The report of the candidate's run.
    pub candidate: LogLine,
    /// Whether the two runs agree; a mismatch is to be reported as a warning.
    pub agreement: Agreement,
    /// The line for later aggregation, where the candidate ran to its end.
    pub line: Option<ComparisonLine>,
}

/// Puts together what is reported of one transaction that ran against a baseline and a
/// candidate backend: one report for each run, their agreement, and the comparison line.
pub fn compare(baseline: &SimulationRecord, candidate: &SimulationRecord) -> (report: Comparison)
    ensures
        report == (Comparison {
            baseline: log_line_of(*baseline),
            candidate: log_line_of(*candidate),
            agreement: agreement_of(*baseline, *candidate),
            line: comparison_line_of(*baseline, *candidate),
        }),
{
    Comparison {
        baseline: log_line(baseline),
        candidate: log_line(candidate),
        agreement: agreement(baseline, candidate),
        line: comparison_line(baseline, candidate),
    }
}

/// Bounds the number of simulations that run at the same time.
pub struct WorkerPool {
    capacity: usize,
    in_flight: usize,
}

impl WorkerPool {
    #[verifier::type_invariant]
    spec fn within_capacity(self) -> bool {
        self.in_flight <= self.capacity
    }

    /// The most simulations that may run at once.
    pub closed spec fn capacity(&self) -> nat {
        self.capacity as nat
    }

    /// The simulations running now.
    pub closed spec fn in_flight(&self) -> nat {
        self.in_flight as nat
    }

    /// A pool with no simulation running.
    pub fn new(capacity: usize) -> (pool: Self)
        ensures
            pool.capacity() == capacity,
            pool.in_flight() == 0,
    {
        WorkerPool { capacity, in_flight: 0 }
    }

    /// Asks for leave to start one more simulation. Leave is given exactly when fewer than
    /// `capacity` are running, and then one more counts as running.
    pub fn try_start(&mut self) -> (started: bool)
        ensures
            final(self).capacity() == old(self).capacity(),
            started == (old(self).in_flight() < old(self).capacity()),
            final(self).in_flight() == old(self).in_flight() + if started {
                1nat
            } else {
                0nat
            },
            final(self).in_flight() <= final(self).capacity(),
    {
        proof {
            use_type_invariant(&*self);
        }
        if self.in_flight < self.capacity {
            let running: usize = self.in_flight + 1;
            *self = WorkerPool { capacity: self.capacity, in_flight: running };
            true
        } else {
            false
        }
    }

    /// Counts one simulation as finished. With none running nothing changes.
    pub fn finish(&mut self)
        ensures
            final(self).capacity() == old(self).capacity(),
            final(self).in_flight() == if old(self).in_flight() > 0 {
                (old(self).in_flight() - 1) as nat
            } else {
                0nat
            },
    {
        if self.in_flight > 0 {
            let running: usize = self.in_flight - 1;
            proof {
                use_type_invariant(&*self);
            }
            *self = WorkerPool { capacity: self.capacity, in_flight: running };
        }
    }

    /// The number of simulations running now, never above the capacity.
    pub fn running(&self) -> (count: usize)
        ensures
            count == self.in_flight(),
            count <= self.capacity(),
    {
        proof {
            use_type_invariant(self);
        }
        self.in_flight
    }
}

} // verus!
