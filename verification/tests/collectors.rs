use backrun::collectors::{PollingBlockCollector, PollingMempoolCollector};
use backrun::types::{Address, Block, Direction, Trade, TxHash};

fn block(number: u64) -> Block {
    Block { number, timestamp: 1_700_000_000 + number, transactions: Vec::new() }
}

fn tx(id: u128) -> Trade {
    Trade {
        hash: TxHash { hi: 0, lo: id },
        sender: Address { hi: 0, lo: 1 },
        token: Address { hi: 0, lo: 2 },
        amount_in: 100,
        direction: Direction::Buy,
        block_number: None,
    }
}

#[test]
fn block_collector_yields_strictly_increasing() {
    let mut c = PollingBlockCollector::new();
    assert_eq!(c.last_block, 0);
    assert!(c.on_poll(Some(block(5))).is_some());
    assert_eq!(c.last_block, 5);
    // the same block again: no second yield of an equal number
    assert!(c.on_poll(Some(block(5))).is_none());
    // an older block: never yielded
    assert!(c.on_poll(Some(block(4))).is_none());
    assert_eq!(c.last_block, 5);
    let y = c.on_poll(Some(block(7))).expect("a newer block must be yielded");
    assert_eq!(y.number, 7);
    assert_eq!(c.last_block, 7);
}

#[test]
fn block_collector_swallows_failed_fetches() {
    let mut c = PollingBlockCollector::new();
    assert!(c.on_poll(None).is_none());
    assert_eq!(c.last_block, 0);
    assert!(c.on_poll(Some(block(3))).is_some());
    assert!(c.on_poll(None).is_none());
    assert_eq!(c.last_block, 3);
}

#[test]
fn mempool_collector_dedups_within_and_across_polls() {
    let mut c = PollingMempoolCollector::with_window(100, 8);
    let fresh = c.on_poll(vec![tx(1), tx(2), tx(1)]);
    let hashes: Vec<u128> = fresh.iter().map(|t| t.hash.lo).collect();
    assert_eq!(hashes, vec![1, 2]);
    // the same block polled again: everything already seen
    let fresh = c.on_poll(vec![tx(1), tx(2)]);
    assert!(fresh.is_empty());
    // a later block with one new transaction
    let fresh = c.on_poll(vec![tx(2), tx(3)]);
    let hashes: Vec<u128> = fresh.iter().map(|t| t.hash.lo).collect();
    assert_eq!(hashes, vec![3]);
}

#[test]
fn mempool_collector_seen_window_stays_bounded() {
    let mut c = PollingMempoolCollector::with_window(100, 2);
    for i in 0..10u128 {
        let _ = c.on_poll(vec![tx(100 + i)]);
        assert!(c.seen.len() <= 2);
    }
    assert_eq!(c.seen.len(), 2);
}

#[test]
fn mempool_collector_evicts_oldest_first() {
    let mut c = PollingMempoolCollector::with_window(100, 2);
    let fresh = c.on_poll(vec![tx(1), tx(2), tx(3)]);
    assert_eq!(fresh.len(), 3);
    // hash 1 left the window when hash 3 arrived, so it may be yielded
    // again; hashes 2 and 3 are still remembered
    let fresh = c.on_poll(vec![tx(2), tx(3), tx(1)]);
    let hashes: Vec<u128> = fresh.iter().map(|t| t.hash.lo).collect();
    assert_eq!(hashes, vec![1]);
}

#[test]
fn mempool_collector_empty_poll_changes_nothing() {
    let mut c = PollingMempoolCollector::new();
    let fresh = c.on_poll(Vec::new());
    assert!(fresh.is_empty());
    assert!(c.seen.is_empty());
}
