//! The polling collectors' decision cores. The timer loops and the RPC
//! fetches live in the unverified shell; each tick hands its poll result to
//! `on_poll`, which decides what the collector yields and updates the
//! collector-instance-owned state. Each collector carries a ghost history of
//! everything it has yielded, so the stream-wide guarantees are stated as
//! invariants over that history.
//!
//! The mempool collector observes transactions only once they appear in a
//! polled block, so it approximates a pending-transaction feed rather than
//! reading a true one.

use vstd::prelude::*;

use crate::types::{Block, Trade, TxHash};

verus! {

/// Default polling interval of the block collector, in milliseconds.
pub const DEFAULT_BLOCK_INTERVAL_MS: u64 = 1000;

/// Default polling interval of the mempool collector, in milliseconds.
pub const DEFAULT_MEMPOOL_INTERVAL_MS: u64 = 100;

/// Default cap on the mempool collector's window of seen hashes.
pub const DEFAULT_SEEN_CAP: usize = 4096;

/// Polls the latest block and yields it only when its number exceeds the
/// highest number yielded before, so the yielded stream advances strictly.
/// A failed fetch is swallowed for that tick: nothing is yielded and the
/// watermark does not move.
pub struct PollingBlockCollector {
    /// How often the shell polls, in milliseconds.
    pub interval_ms: u64,
    /// The highest block number yielded so far; zero before the first yield.
    pub last_block: u64,
    /// History of every block number yielded, in order.
    pub yielded: Ghost<Seq<u64>>,
}

impl PollingBlockCollector {
    /// The collector's invariant: the yield history is strictly increasing
    /// and the watermark is its last entry.
    pub open spec fn wf(self) -> bool {
        &&& forall|i: int, j: int|
            0 <= i < j < self.yielded@.len() ==> #[trigger] self.yielded@[i] < #[trigger] self.yielded@[j]
        &&& (self.yielded@.len() == 0 ==> self.last_block == 0)
        &&& (self.yielded@.len() > 0 ==> self.yielded@.last() == self.last_block)
    }

    /// A fresh collector with the default interval and nothing yielded.
    pub fn new() -> (c: Self)
        ensures
            c.wf(),
            c.interval_ms == DEFAULT_BLOCK_INTERVAL_MS,
            c.last_block == 0,
            c.yielded@ == Seq::<u64>::empty(),
    {
        PollingBlockCollector {
            interval_ms: DEFAULT_BLOCK_INTERVAL_MS,
            last_block: 0,
            yielded: Ghost(Seq::empty()),
        }
    }

    /// One tick: `poll` is the latest fetched block, or `None` when the
    /// fetch failed. Yields the block exactly when its number exceeds the
    /// watermark; a swallowed tick leaves the collector untouched.
    pub fn on_poll(&mut self, poll: Option<Block>) -> (r: Option<Block>)
        requires
            old(self).wf(),
        ensures
            final(self).wf(),
            final(self).interval_ms == old(self).interval_ms,
            r is Some <==> (poll matches Some(b) && b.number > old(self).last_block),
            r matches Some(b) ==> {
                &&& poll == Some(b)
                &&& final(self).last_block == b.number
                &&& final(self).yielded@ == old(self).yielded@.push(b.number)
            },
            r is None ==> *final(self) == *old(self),
    {
        match poll {
            Some(b) => {
                if b.number > self.last_block {
                    self.last_block = b.number;
                    self.yielded = Ghost(self.yielded@.push(b.number));
                    Some(b)
                } else {
                    None
                }
            },
            None => None,
        }
    }
}

/// Law (monotonicity): whatever sequence of blocks is polled, the numbers a
/// block collector yields form a strictly increasing sequence, so no number
/// is ever yielded twice. `new` establishes the invariant and `on_poll`
/// preserves it, so this holds of every reachable collector state.
pub proof fn lemma_block_yields_monotonic(c: PollingBlockCollector)
    requires
        c.wf(),
    ensures
        forall|i: int, j: int|
            0 <= i < j < c.yielded@.len() ==> #[trigger] c.yielded@[i] < #[trigger] c.yielded@[j],
        forall|i: int, j: int|
            0 <= i < c.yielded@.len() && 0 <= j < c.yielded@.len() && i != j
                ==> #[trigger] c.yielded@[i] != #[trigger] c.yielded@[j],
{
}

/// The most recent `cap` entries of a yield history (all of it while it is
/// still shorter): exactly the hashes a well-formed mempool collector still
/// remembers.
pub open spec fn recent_window(yielded: Seq<TxHash>, cap: int) -> Seq<TxHash> {
    if yielded.len() <= cap {
        yielded
    } else {
        yielded.subrange(yielded.len() - cap, yielded.len() as int)
    }
}

/// What one poll yields: the polled transactions in order, skipping every
/// one whose hash is remembered at the moment it is examined, with each
/// yielded hash remembered immediately.
pub open spec fn fresh_trades(yielded: Seq<TxHash>, cap: int, txs: Seq<Trade>) -> Seq<Trade>
    decreases txs.len(),
{
    if txs.len() == 0 {
        Seq::empty()
    } else {
        let t = txs[0];
        if recent_window(yielded, cap).contains(t.hash) {
            fresh_trades(yielded, cap, txs.drop_first())
        } else {
            seq![t] + fresh_trades(yielded.push(t.hash), cap, txs.drop_first())
        }
    }
}

/// Polls the full transaction list of the latest block and yields each
/// transaction whose hash it does not remember. The memory of seen hashes
/// is a window capped by count — old hashes are evicted first-in first-out —
/// so it stays bounded no matter how many transactions flow past.
pub struct PollingMempoolCollector {
    /// How often the shell polls, in milliseconds.
    pub interval_ms: u64,
    /// Upper bound on how many hashes are remembered.
    pub cap: usize,
    /// The remembered hashes, oldest first.
    pub seen: Vec<TxHash>,
    /// History of every transaction hash yielded, in order.
    pub yielded: Ghost<Seq<TxHash>>,
}

impl PollingMempoolCollector {
    /// The collector's invariant: the remembered hashes are exactly the most
    /// recent window of the yield history, and equal hashes in the history
    /// are always more than `cap` positions apart.
    pub open spec fn wf(self) -> bool {
        &&& self.cap >= 1
        &&& self.seen@ == recent_window(self.yielded@, self.cap as int)
        &&& forall|i: int, j: int|
            0 <= i < j < self.yielded@.len() && #[trigger] self.yielded@[i] == #[trigger] self.yielded@[j]
                ==> j - i > self.cap
    }

    /// A fresh collector with the default interval and window cap.
    pub fn new() -> (c: Self)
        ensures
            c.wf(),
            c.interval_ms == DEFAULT_MEMPOOL_INTERVAL_MS,
            c.cap == DEFAULT_SEEN_CAP,
            c.yielded@ == Seq::<TxHash>::empty(),
    {
        PollingMempoolCollector {
            interval_ms: DEFAULT_MEMPOOL_INTERVAL_MS,
            cap: DEFAULT_SEEN_CAP,
            seen: Vec::new(),
            yielded: Ghost(Seq::empty()),
        }
    }

    /// A fresh collector with a chosen interval and window cap.
    pub fn with_window(interval_ms: u64, cap: usize) -> (c: Self)
        requires
            cap >= 1,
        ensures
            c.wf(),
            c.interval_ms == interval_ms,
            c.cap == cap,
            c.yielded@ == Seq::<TxHash>::empty(),
    {
        PollingMempoolCollector { interval_ms, cap, seen: Vec::new(), yielded: Ghost(Seq::empty()) }
    }

    /// One tick: `txs` is the transaction list of the latest fetched block
    /// (empty when the fetch failed, which thus yields nothing and changes
    /// nothing). Returns exactly the transactions that are fresh under the
    /// remembered window, in order, and remembers their hashes.
    pub fn on_poll(&mut self, txs: Vec<Trade>) -> (fresh: Vec<Trade>)
        requires
            old(self).wf(),
        ensures
            final(self).wf(),
            final(self).interval_ms == old(self).interval_ms,
            final(self).cap == old(self).cap,
            fresh@ == fresh_trades(old(self).yielded@, old(self).cap as int, txs@),
            final(self).yielded@ == old(self).yielded@ + fresh@.map_values(|t: Trade| t.hash),
    {
        let mut fresh: Vec<Trade> = Vec::new();
        let mut i: usize = 0;
        proof {
            assert(txs@.subrange(0, txs@.len() as int) =~= txs@);
            assert(old(self).yielded@ + fresh@.map_values(|t: Trade| t.hash) =~= old(
                self,
            ).yielded@);
        }
        while i < txs.len()
            invariant
                i <= txs.len(),
                self.wf(),
                self.interval_ms == old(self).interval_ms,
                self.cap == old(self).cap,
                self.yielded@ == old(self).yielded@ + fresh@.map_values(|t: Trade| t.hash),
                fresh_trades(old(self).yielded@, old(self).cap as int, txs@) == fresh@
                    + fresh_trades(
                    self.yielded@,
                    self.cap as int,
                    txs@.subrange(i as int, txs@.len() as int),
                ),
            decreases txs.len() - i,
        {
            let ghost y_prev = self.yielded@;
            let ghost seen_prev = self.seen@;
            let ghost fresh_prev = fresh@;
            let ghost rest = txs@.subrange(i as int, txs@.len() as int);
            let t = txs[i];
            proof {
                assert(rest[0] == t);
                assert(rest.drop_first() =~= txs@.subrange(i + 1, txs@.len() as int));
            }
            if seen_contains(&self.seen, t.hash) {
                proof {
                    assert(recent_window(y_prev, self.cap as int).contains(t.hash));
                    assert(fresh_trades(y_prev, self.cap as int, rest) == fresh_trades(
                        y_prev,
                        self.cap as int,
                        rest.drop_first(),
                    ));
                }
            } else {
                let ghost cap = self.cap as int;
                self.seen.push(t.hash);
                if self.seen.len() > self.cap {
                    let _ = self.seen.remove(0);
                }
                self.yielded = Ghost(self.yielded@.push(t.hash));
                fresh.push(t);
                proof {
                    let h = t.hash;
                    let len = y_prev.len() as int;
                    lemma_window_after_push(y_prev, cap, h, seen_prev);
                    lemma_gap_preserved(y_prev, cap, h);
                    if len >= cap {
                        assert(self.seen@ =~= recent_window(y_prev.push(h), cap));
                    }
                    // the yielded history grows by exactly this hash
                    assert(fresh@ =~= fresh_prev.push(t));
                    assert(fresh@.map_values(|tr: Trade| tr.hash) =~= fresh_prev.map_values(
                        |tr: Trade| tr.hash,
                    ).push(h));
                    assert(self.yielded@ =~= old(self).yielded@ + fresh@.map_values(
                        |tr: Trade| tr.hash,
                    ));
                    // one unfolding of the yield specification
                    assert(fresh_trades(y_prev, cap, rest) == seq![t] + fresh_trades(
                        y_prev.push(h),
                        cap,
                        rest.drop_first(),
                    ));
                    assert(fresh_prev + (seq![t] + fresh_trades(
                        y_prev.push(h),
                        cap,
                        rest.drop_first(),
                    )) =~= fresh@ + fresh_trades(y_prev.push(h), cap, rest.drop_first()));
                }
            }
            i += 1;
        }
        proof {
            assert(txs@.subrange(i as int, txs@.len() as int) =~= Seq::<Trade>::empty());
            assert(fresh@ + fresh_trades(self.yielded@, self.cap as int, Seq::empty()) =~= fresh@);
        }
        fresh
    }
}

/// Whether a hash is among the remembered ones.
fn seen_contains(seen: &Vec<TxHash>, h: TxHash) -> (r: bool)
    ensures
        r == seen@.contains(h),
{
    let mut i: usize = 0;
    while i < seen.len()
        invariant
            i <= seen.len(),
            forall|k: int| 0 <= k < i ==> seen@[k] != h,
        decreases seen.len() - i,
    {
        if seen[i] == h {
            assert(seen@[i as int] == h);
            return true;
        }
        i += 1;
    }
    false
}

/// After remembering one fresh hash, the remembered hashes are again the
/// most recent window of the grown history.
proof fn lemma_window_after_push(yielded: Seq<TxHash>, cap: int, h: TxHash, seen: Seq<TxHash>)
    requires
        cap >= 1,
        seen == recent_window(yielded, cap),
    ensures
        yielded.len() < cap ==> seen.push(h) =~= recent_window(yielded.push(h), cap),
        yielded.len() >= cap ==> seen.push(h).remove(0) =~= recent_window(yielded.push(h), cap),
{
    let y2 = yielded.push(h);
    let len = yielded.len() as int;
    if len < cap {
        assert(seen.push(h) =~= recent_window(y2, cap));
    } else {
        assert forall|k: int| 0 <= k < cap implies seen.push(h).remove(0)[k] == recent_window(
            y2,
            cap,
        )[k] by {
            if k < cap - 1 {
                assert(seen.push(h).remove(0)[k] == seen[k + 1]);
                assert(recent_window(y2, cap)[k] == y2[len + 1 - cap + k]);
            }
        }
        assert(seen.push(h).remove(0) =~= recent_window(y2, cap));
    }
}

/// Yielding a hash that is not in the remembered window keeps equal hashes
/// more than `cap` positions apart in the history.
proof fn lemma_gap_preserved(yielded: Seq<TxHash>, cap: int, h: TxHash)
    requires
        cap >= 1,
        forall|i: int, j: int|
            0 <= i < j < yielded.len() && #[trigger] yielded[i] == #[trigger] yielded[j]
                ==> j - i > cap,
        !recent_window(yielded, cap).contains(h),
    ensures
        forall|i: int, j: int|
            0 <= i < j < yielded.push(h).len() && #[trigger] yielded.push(h)[i]
                == #[trigger] yielded.push(h)[j] ==> j - i > cap,
{
    let y2 = yielded.push(h);
    let len = yielded.len() as int;
    let start = if len <= cap {
        0
    } else {
        len - cap
    };
    assert forall|i: int, j: int|
        0 <= i < j < y2.len() && y2[i] == y2[j] implies j - i > cap by {
        if j < len {
            assert(yielded[i] == y2[i] && yielded[j] == y2[j]);
        } else {
            if i >= start {
                assert(recent_window(yielded, cap)[i - start] == yielded[i]);
                assert(recent_window(yielded, cap).contains(h));
                assert(false);
            }
        }
    }
}

/// Law (dedup): equal hashes in a mempool collector's yield history are
/// always more than `cap` yields apart; in particular, until more than
/// `cap + 1` transactions have been yielded, no hash has been yielded twice.
/// A hash can reappear only after its entry has been evicted from the
/// bounded window.
pub proof fn lemma_mempool_dedup(c: PollingMempoolCollector)
    requires
        c.wf(),
    ensures
        forall|i: int, j: int|
            0 <= i < j < c.yielded@.len() && #[trigger] c.yielded@[i] == #[trigger] c.yielded@[j]
                ==> j - i > c.cap,
        c.yielded@.len() <= c.cap + 1 ==> forall|i: int, j: int|
            0 <= i < j < c.yielded@.len() ==> #[trigger] c.yielded@[i] != #[trigger] c.yielded@[j],
{
}

/// Law (bounded memory): however many blocks and transactions a mempool
/// collector has processed, it remembers at most `cap` hashes.
pub proof fn lemma_mempool_bounded(c: PollingMempoolCollector)
    requires
        c.wf(),
    ensures
        c.seen@.len() <= c.cap,
{
}

} // verus!
