//! Plain data model of the pipeline: hashes, addresses, trades, blocks and
//! pool state. Wide on-chain quantities are modelled as fixed-width words;
//! the unverified shell converts between them and its wire types.

use vstd::prelude::*;

verus! {

/// A 256-bit transaction hash, the unique identifier of an observed
/// transaction, split into two words.
#[derive(Clone, Copy, PartialEq, Eq, Structural, Debug, Hash)]
pub struct TxHash {
    pub hi: u128,
    pub lo: u128,
}

/// An account or token address, widened into two words.
#[derive(Clone, Copy, PartialEq, Eq, Structural, Debug, Hash)]
pub struct Address {
    pub hi: u128,
    pub lo: u128,
}

/// Which way a trade moves against the pool: a buy sends the pool's input
/// token and receives the output token, a sell does the reverse.
#[derive(Clone, Copy, PartialEq, Eq, Structural, Debug)]
pub enum Direction {
    Buy,
    Sell,
}

/// A decoded transaction, immutable once constructed. `block_number` is
/// `None` while the trade is still pending.
#[derive(Clone, Copy, PartialEq, Eq, Structural, Debug)]
pub struct Trade {
    pub hash: TxHash,
    pub sender: Address,
    pub token: Address,
    pub amount_in: u64,
    pub direction: Direction,
    pub block_number: Option<u64>,
}

/// One polled block: its number, timestamp and decoded transactions.
#[derive(Clone, Debug)]
pub struct Block {
    pub number: u64,
    pub timestamp: u64,
    pub transactions: Vec<Trade>,
}

/// The AMM curve parameters at a specific block height: reserves, the
/// proportional fee in basis points and the flat minimum fee per trade.
/// Never mutated, only replaced when fetched for a newer block.
#[derive(Clone, Copy, PartialEq, Eq, Structural, Debug)]
pub struct PoolState {
    pub reserve_in: u64,
    pub reserve_out: u64,
    pub fee_rate_bps: u64,
    pub min_fee_absolute: u64,
}

impl PoolState {
    /// A pool is well formed when both reserves are funded and the
    /// proportional fee is a proper fraction.
    pub open spec fn wf(self) -> bool {
        &&& self.reserve_in >= 1
        &&& self.reserve_out >= 1
        &&& self.fee_rate_bps < 10000
    }
}

/// A response transaction still to be signed: everything the solver decides
/// about it. The sender is supplied by the signing shell.
#[derive(Clone, Copy, PartialEq, Eq, Structural, Debug)]
pub struct TradeDraft {
    pub token: Address,
    pub amount_in: u64,
    pub direction: Direction,
}

} // verus!
