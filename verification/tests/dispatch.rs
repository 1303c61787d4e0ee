use tx_replay::backend::BackendError;
use tx_replay::chain::{Block, Transaction};
use tx_replay::dispatcher::{
    agreement, compare, comparison_line, dispatch, log_line, record, Agreement, Comparison,
    ComparisonLine, Dispatch,
    DropReason, FeedItem, Job, LogLine, SimulationRecord, WorkerPool, PENDING_FEED_BUFFER,
};
use tx_replay::env::Env;
use tx_replay::primitives::{B160, H160, H256, RU256, U256};
use tx_replay::runner::{
    AccountChange, Backend, EngineFault, ExecutionOutcome, ExecutionStatus, Refusal,
    SimulationError, Stage,
};
use tx_replay::tip::{Feed, FeedEnded, TipTracker};
use tx_replay::utils::configure_tx_env;

fn header(number: u64) -> Block {
    Block {
        number,
        timestamp: U256::from_u64(1),
        author: None,
        difficulty: U256::zero(),
        mix_hash: None,
        base_fee_per_gas: Some(U256::from_u64(8)),
        gas_limit: U256::from_u64(30_000_000),
    }
}

/// The transaction as a job carries it: at the price to simulate with.
fn priced(nonce: u64) -> Transaction {
    let mut tx = pending(nonce);
    tx.gas_price = tx.max_fee_per_gas;
    tx
}

fn pending(nonce: u64) -> Transaction {
    Transaction {
        hash: H256([0x42; 32]),
        nonce: U256::from_u64(nonce),
        from: H160([1; 20]),
        to: Some(H160([2; 20])),
        value: U256::zero(),
        gas_price: None,
        gas: U256::from_u64(50_000),
        input: vec![0xde, 0xad],
        access_list: None,
        max_priority_fee_per_gas: Some(U256::from_u64(1)),
        max_fee_per_gas: Some(U256::from_u64(20)),
    }
}

fn outcome(status: ExecutionStatus, gas_used: u64) -> ExecutionOutcome {
    ExecutionOutcome { status, gas_used, output: vec![], state: vec![] }
}

fn entry(
    backend: Backend,
    elapsed_nanos: u128,
    result: Result<ExecutionOutcome, SimulationError>,
) -> SimulationRecord {
    SimulationRecord { tx_hash: H256([0x42; 32]), block_number: 100, backend, elapsed_nanos, result }
}

#[test]
fn feed_buffer_size() {
    assert_eq!(PENDING_FEED_BUFFER, 10);
}

#[test]
fn pending_transaction_is_simulated_against_the_tip() {
    let tip = TipTracker::new(header(100));
    let decision = dispatch(&tip, Some(FeedItem::Pending(pending(3))));
    assert_eq!(
        decision,
        Dispatch::Simulate(Job { block: header(100), tx: priced(3) })
    );
}

#[test]
fn job_carries_the_price_to_simulate_with() {
    let tip = TipTracker::new(header(100));
    let mut legacy = pending(3);
    legacy.max_fee_per_gas = None;
    legacy.gas_price = Some(U256::from_u64(30));
    let mut bare = pending(3);
    bare.max_fee_per_gas = None;
    for (tx, price) in [(pending(3), 20), (legacy, 30), (bare, 8)] {
        match dispatch(&tip, Some(FeedItem::Pending(tx.clone()))) {
            Dispatch::Simulate(job) => {
                assert_eq!(job.tx.gas_price, Some(U256::from_u64(price)));
                let mut rest = job.tx.clone();
                rest.gas_price = tx.gas_price;
                assert_eq!(rest, tx);
            }
            other => panic!("{:?}", other),
        }
    }
}

#[test]
fn job_keeps_its_snapshot_when_the_tip_moves() {
    let mut tip = TipTracker::new(header(100));
    let decision = dispatch(&tip, Some(FeedItem::Pending(pending(3))));
    tip.update(header(101));
    match decision {
        Dispatch::Simulate(job) => {
            assert_eq!(job.block, header(100));
            assert_eq!(job.block.number, 100);
        }
        other => panic!("{:?}", other),
    }
    let next = dispatch(&tip, Some(FeedItem::Pending(pending(4))));
    match next {
        Dispatch::Simulate(job) => assert_eq!(job.block.number, 101),
        other => panic!("{:?}", other),
    }
}

#[test]
fn undecodable_item_is_dropped() {
    let tip = TipTracker::new(header(100));
    assert_eq!(dispatch(&tip, Some(FeedItem::Undecodable)), Dispatch::Drop(DropReason::Undecodable));
}

#[test]
fn oversized_transaction_is_dropped() {
    let tip = TipTracker::new(header(100));
    let mut tx = pending(3);
    tx.gas = U256([0, 0, 1, 0]);
    assert_eq!(
        dispatch(&tip, Some(FeedItem::Pending(tx))),
        Dispatch::Drop(DropReason::OutOfRange)
    );
    let mut tx = pending(3);
    tx.nonce = U256([0, 1, 0, 0]);
    assert_eq!(
        dispatch(&tip, Some(FeedItem::Pending(tx))),
        Dispatch::Drop(DropReason::OutOfRange)
    );
}

#[test]
fn end_of_feed_stops_the_engine() {
    let tip = TipTracker::new(header(100));
    assert_eq!(dispatch(&tip, None), Dispatch::Stop(FeedEnded(Feed::PendingTransactions)));
}

#[test]
fn nonce_far_ahead_is_still_simulated() {
    let tip = TipTracker::new(header(100));
    let far = u64::MAX - 1;
    let decision = dispatch(&tip, Some(FeedItem::Pending(pending(far))));
    let job = match decision {
        Dispatch::Simulate(job) => job,
        other => panic!("{:?}", other),
    };
    let mut env = Env::new();
    configure_tx_env(&mut env, &job.tx);
    assert_eq!(env.tx.nonce, Some(far));
    let reported = Err(SimulationError::Engine(EngineFault::InvalidTransaction(Refusal::NonceTooHigh { tx: u64::MAX - 1, state: 0 })));
    let kept = record(&job, Backend::CachingRemote, 5, reported.clone());
    assert_eq!(kept.result, reported);
}

#[test]
fn record_takes_everything_over() {
    let job = Job { block: header(100), tx: pending(3) };
    let result = Ok(outcome(ExecutionStatus::Reverted, 30_000));
    assert_eq!(
        record(&job, Backend::EmbeddedDatabase, 1_500_000, result.clone()),
        SimulationRecord {
            tx_hash: H256([0x42; 32]),
            block_number: 100,
            backend: Backend::EmbeddedDatabase,
            elapsed_nanos: 1_500_000,
            result,
        }
    );
}

#[test]
fn every_record_has_a_log_line() {
    let change = AccountChange {
        address: B160([1; 20]),
        balance: RU256::from_u64(5),
        nonce: 4,
        code: None,
        storage: vec![(RU256::from_u64(1), RU256::from_u64(2))],
    };
    let done = ExecutionOutcome {
        status: ExecutionStatus::Success,
        gas_used: 21_000,
        output: vec![1],
        state: vec![change.clone(), change],
    };
    assert_eq!(
        log_line(&entry(Backend::DirectRemote, 2_999_999, Ok(done))),
        LogLine::Completed {
            tx_hash: H256([0x42; 32]),
            gas_used: 21_000,
            success: true,
            state_changes: 2,
            elapsed_millis: 2,
        }
    );
    assert_eq!(
        log_line(&entry(Backend::DirectRemote, 7_000_000, Ok(outcome(ExecutionStatus::Reverted, 9)))),
        LogLine::Completed {
            tx_hash: H256([0x42; 32]),
            gas_used: 9,
            success: false,
            state_changes: 0,
            elapsed_millis: 7,
        }
    );
    assert_eq!(
        log_line(&entry(Backend::DirectRemote, 0, Ok(outcome(ExecutionStatus::Halted, 50_000)))),
        LogLine::Completed {
            tx_hash: H256([0x42; 32]),
            gas_used: 50_000,
            success: false,
            state_changes: 0,
            elapsed_millis: 0,
        }
    );
    let error = SimulationError::BackendUnavailable(Stage::Execution);
    assert_eq!(
        log_line(&entry(Backend::CachingRemote, 1, Err(error))),
        LogLine::Failed { tx_hash: H256([0x42; 32]), backend: Backend::CachingRemote, error }
    );
}

#[test]
fn equal_runs_agree() {
    let a = entry(Backend::CachingRemote, 10, Ok(outcome(ExecutionStatus::Success, 21_000)));
    let b = entry(Backend::EmbeddedDatabase, 3, Ok(outcome(ExecutionStatus::Success, 21_000)));
    assert_eq!(agreement(&a, &b), Agreement::Match);
}

#[test]
fn reverted_and_halted_agree_on_failure() {
    let a = entry(Backend::CachingRemote, 10, Ok(outcome(ExecutionStatus::Reverted, 400)));
    let b = entry(Backend::EmbeddedDatabase, 3, Ok(outcome(ExecutionStatus::Halted, 400)));
    assert_eq!(agreement(&a, &b), Agreement::Match);
}

#[test]
fn different_gas_is_a_mismatch() {
    let a = entry(Backend::CachingRemote, 10, Ok(outcome(ExecutionStatus::Success, 21_000)));
    let b = entry(Backend::EmbeddedDatabase, 3, Ok(outcome(ExecutionStatus::Success, 21_001)));
    assert_eq!(
        agreement(&a, &b),
        Agreement::Mismatch { gas_used_differs: true, success_differs: false }
    );
}

#[test]
fn different_status_is_a_mismatch() {
    let a = entry(Backend::CachingRemote, 10, Ok(outcome(ExecutionStatus::Success, 21_000)));
    let b = entry(Backend::EmbeddedDatabase, 3, Ok(outcome(ExecutionStatus::Reverted, 21_000)));
    assert_eq!(
        agreement(&a, &b),
        Agreement::Mismatch { gas_used_differs: false, success_differs: true }
    );
    let c = entry(Backend::EmbeddedDatabase, 3, Ok(outcome(ExecutionStatus::Halted, 5)));
    assert_eq!(
        agreement(&a, &c),
        Agreement::Mismatch { gas_used_differs: true, success_differs: true }
    );
}

#[test]
fn failed_run_cannot_be_compared() {
    let a = entry(Backend::CachingRemote, 10, Ok(outcome(ExecutionStatus::Success, 21_000)));
    let b = entry(Backend::EmbeddedDatabase, 3, Err(SimulationError::NotFound(Stage::LatestState)));
    assert_eq!(agreement(&a, &b), Agreement::NotComparable);
    assert_eq!(agreement(&b, &a), Agreement::NotComparable);
    assert_eq!(agreement(&b, &b), Agreement::NotComparable);
}

#[test]
fn comparison_line_when_candidate_finished() {
    let baseline = entry(Backend::CachingRemote, 900, Err(SimulationError::Engine(EngineFault::Database(BackendError::Unavailable))));
    let candidate = entry(Backend::EmbeddedDatabase, 300, Ok(outcome(ExecutionStatus::Success, 21_000)));
    assert_eq!(
        comparison_line(&baseline, &candidate),
        Some(ComparisonLine {
            block_number: 100,
            tx_hash: H256([0x42; 32]),
            gas_used: 21_000,
            baseline_nanos: 900,
            candidate_nanos: 300,
        })
    );
}

#[test]
fn no_comparison_line_when_candidate_failed() {
    let baseline = entry(Backend::CachingRemote, 900, Ok(outcome(ExecutionStatus::Success, 21_000)));
    let candidate =
        entry(Backend::EmbeddedDatabase, 300, Err(SimulationError::BackendUnavailable(Stage::LatestHeader)));
    assert_eq!(comparison_line(&baseline, &candidate), None);
}

#[test]
fn two_runs_are_reported_together() {
    let baseline = entry(Backend::CachingRemote, 9_000_000, Ok(outcome(ExecutionStatus::Success, 21_000)));
    let candidate = entry(Backend::EmbeddedDatabase, 3_000_000, Ok(outcome(ExecutionStatus::Success, 22_000)));
    assert_eq!(
        compare(&baseline, &candidate),
        Comparison {
            baseline: log_line(&baseline),
            candidate: log_line(&candidate),
            agreement: Agreement::Mismatch { gas_used_differs: true, success_differs: false },
            line: Some(ComparisonLine {
                block_number: 100,
                tx_hash: H256([0x42; 32]),
                gas_used: 22_000,
                baseline_nanos: 9_000_000,
                candidate_nanos: 3_000_000,
            }),
        }
    );
}

#[test]
fn pool_gives_leave_up_to_capacity() {
    let mut pool = WorkerPool::new(2);
    assert_eq!(pool.running(), 0);
    assert!(pool.try_start());
    assert!(pool.try_start());
    assert!(!pool.try_start());
    assert_eq!(pool.running(), 2);
    pool.finish();
    assert_eq!(pool.running(), 1);
    assert!(pool.try_start());
    assert!(!pool.try_start());
}

#[test]
fn pool_without_capacity_gives_no_leave() {
    let mut pool = WorkerPool::new(0);
    assert!(!pool.try_start());
    assert_eq!(pool.running(), 0);
}

#[test]
fn finishing_nothing_changes_nothing() {
    let mut pool = WorkerPool::new(1);
    pool.finish();
    assert_eq!(pool.running(), 0);
    assert!(pool.try_start());
}
