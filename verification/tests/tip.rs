use tx_replay::chain::Block;
use tx_replay::primitives::{H160, H256, U256};
use tx_replay::tip::{Feed, FeedEnded, TipTracker};

fn header(number: u64, fill: u8) -> Block {
    Block {
        number,
        timestamp: U256::from_u64(number * 12),
        author: Some(H160([fill; 20])),
        difficulty: U256::from_u64(fill as u64),
        mix_hash: Some(H256([fill; 32])),
        base_fee_per_gas: Some(U256::from_u64(fill as u64 + 1)),
        gas_limit: U256::from_u64(30_000_000),
    }
}

#[test]
fn seeded_tracker_has_a_tip() {
    let tracker = TipTracker::new(header(10, 1));
    assert_eq!(tracker.snapshot(), header(10, 1));
    assert_eq!(tracker.number(), 10);
}

#[test]
fn update_replaces_every_field() {
    let mut tracker = TipTracker::new(header(10, 1));
    let number = tracker.update(header(11, 2));
    assert_eq!(number, 11);
    assert_eq!(tracker.snapshot(), header(11, 2));
    assert_eq!(tracker.number(), 11);
}

#[test]
fn snapshot_is_always_one_whole_header() {
    let mut tracker = TipTracker::new(header(0, 0));
    for i in 1..50u64 {
        tracker.update(header(i, (i % 200) as u8));
        let seen = tracker.snapshot();
        assert_eq!(seen, header(i, (i % 200) as u8));
    }
}

#[test]
fn snapshot_does_not_follow_later_updates() {
    let mut tracker = TipTracker::new(header(10, 1));
    let taken = tracker.snapshot();
    tracker.update(header(11, 2));
    assert_eq!(taken, header(10, 1));
}

#[test]
fn older_header_is_taken_as_it_comes() {
    let mut tracker = TipTracker::new(header(10, 1));
    tracker.update(header(9, 3));
    assert_eq!(tracker.snapshot(), header(9, 3));
}

#[test]
fn observed_header_becomes_the_tip() {
    let mut tracker = TipTracker::new(header(10, 1));
    assert_eq!(tracker.observe(Some(header(12, 4))), Ok(12));
    assert_eq!(tracker.snapshot(), header(12, 4));
}

#[test]
fn end_of_block_feed_is_reported_and_tip_stays() {
    let mut tracker = TipTracker::new(header(10, 1));
    assert_eq!(tracker.observe(None), Err(FeedEnded(Feed::Blocks)));
    assert_eq!(tracker.snapshot(), header(10, 1));
}
