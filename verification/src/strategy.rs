//! The strategy: a stateful filter and orchestrator. It tracks the current
//! block, caches the pool parameters fetched for that block, recognizes
//! victim trades against the tracked pool, assembles the solver context,
//! turns a profitable solution into a bundle, and records each candidate as
//! handled once its verdict is in — whatever the verdict was. The chain
//! fetches themselves are done by the shell, which feeds their results back
//! in as plain values.

use vstd::prelude::*;

use crate::bundle::{Bundle, RejectReason, Verdict};
use crate::errors::{ErrorKind, SolveError};
use crate::solver::{solve, solve_spec, Context, SolverParams};
use crate::types::{Address, Block, Direction, PoolState, Trade, TxHash};

verus! {

/// The strategy's configuration: which token's pool is tracked, and the
/// solver's parameters.
#[derive(Clone, Copy, PartialEq, Eq, Structural, Debug)]
pub struct Config {
    pub tracked_token: Address,
    pub params: SolverParams,
}

/// The two event shapes the pipeline routes: a full block, or one pending
/// transaction.
#[derive(Clone, Debug)]
pub enum Event {
    FullBlock(Block),
    PendingTx(Trade),
}

/// What the strategy decides about one observed trade.
#[derive(Clone, Copy, PartialEq, Eq, Structural, Debug)]
pub enum Decision {
    /// Not a recognized buy against the tracked pool, or already handled.
    Ignore,
    /// A candidate, but the pool parameters for the current block must be
    /// fetched first.
    NeedPoolData,
    /// A candidate with its solver context assembled from the cached pool.
    Solve(Context),
}

/// How one candidate ended.
#[derive(Clone, Copy, PartialEq, Eq, Structural, Debug)]
pub enum Outcome {
    /// The bundle passed simulation and may be handed to the executor.
    Approved,
    /// The opportunity was dropped for the recorded, non-fatal reason.
    Dropped(ErrorKind),
}

impl Outcome {
    /// Whether this outcome may terminate the process.
    pub open spec fn is_fatal(self) -> bool {
        match self {
            Outcome::Approved => false,
            Outcome::Dropped(k) => k.is_fatal(),
        }
    }
}

/// The strategy's state as the contracts see it.
pub ghost struct StrategyModel {
    pub config: Config,
    pub attacker: Address,
    pub current_block: u64,
    pub pool_cache: Option<PoolState>,
    pub handled: Seq<TxHash>,
}

/// A trade is recognized when it is a buy against the tracked pool's token.
pub open spec fn recognizes(config: Config, t: Trade) -> bool {
    t.direction is Buy && t.token == config.tracked_token
}

/// A block event invalidates the pool cache tied to the previous block and
/// moves the block context; a repeat of the current block changes nothing.
pub open spec fn step_block(m: StrategyModel, number: u64) -> StrategyModel {
    if number == m.current_block {
        m
    } else {
        StrategyModel {
            config: m.config,
            attacker: m.attacker,
            current_block: number,
            pool_cache: None,
            handled: m.handled,
        }
    }
}

/// A verdict marks the trade handled and changes nothing else.
pub open spec fn step_verdict(m: StrategyModel, hash: TxHash) -> StrategyModel {
    StrategyModel {
        config: m.config,
        attacker: m.attacker,
        current_block: m.current_block,
        pool_cache: m.pool_cache,
        handled: if m.handled.contains(hash) {
            m.handled
        } else {
            m.handled.push(hash)
        },
    }
}

/// The outcome a verdict maps to: a rejection becomes a recorded, non-fatal
/// drop.
pub open spec fn verdict_outcome(v: Verdict) -> Outcome {
    match v {
        Verdict::Accepted { .. } => Outcome::Approved,
        Verdict::Rejected { .. } => Outcome::Dropped(ErrorKind::SimulationRejected),
    }
}

/// The stateful filter and orchestrator, driven by one event at a time.
pub struct Strategy {
    pub config: Config,
    /// The response transactions' sender, supplied by the signing shell.
    pub attacker: Address,
    /// The number of the newest block seen; zero before the first block.
    pub current_block: u64,
    /// Pool parameters fetched for the current block, if any.
    pub pool_cache: Option<PoolState>,
    /// Hashes of trades already taken through a verdict.
    pub handled: Vec<TxHash>,
}

impl View for Strategy {
    type V = StrategyModel;

    open spec fn view(&self) -> StrategyModel {
        StrategyModel {
            config: self.config,
            attacker: self.attacker,
            current_block: self.current_block,
            pool_cache: self.pool_cache,
            handled: self.handled@,
        }
    }
}

impl Strategy {
    /// What the strategy decides about a trade in its current state.
    pub open spec fn decision_spec(self, t: Trade) -> Decision {
        if !recognizes(self.config, t) || self@.handled.contains(t.hash) {
            Decision::Ignore
        } else {
            match self.pool_cache {
                Some(pool) => Decision::Solve(
                    Context { pool, victim: t, balance: 0 },
                ),
                None => Decision::NeedPoolData,
            }
        }
    }

    /// The bundle a context leads to: the solver's solution paired with the
    /// victim, targeting the next block.
    pub open spec fn respond_spec(self, ctx: Context) -> Result<Bundle, SolveError> {
        match solve_spec(ctx, self.config.params) {
            Ok(sol) => Ok(
                Bundle {
                    victim: ctx.victim,
                    response: sol.response,
                    target_block: (self.current_block + 1) as u64,
                    state_block: self.current_block,
                },
            ),
            Err(e) => Err(e),
        }
    }

    /// A fresh strategy with nothing seen and nothing cached.
    pub fn new(config: Config, attacker: Address) -> (s: Self)
        ensures
            s.config == config,
            s.attacker == attacker,
            s.current_block == 0,
            s.pool_cache is None,
            s@.handled == Seq::<TxHash>::empty(),
    {
        Strategy { config, attacker, current_block: 0, pool_cache: None, handled: Vec::new() }
    }

    /// Block event: moves the block context and drops the stale pool cache.
    pub fn on_block(&mut self, number: u64)
        ensures
            final(self)@ == step_block(old(self)@, number),
    {
        if number != self.current_block {
            self.current_block = number;
            self.pool_cache = None;
        }
    }

    /// Trade event: classifies the trade in the current state without
    /// changing anything. The trade is only marked handled later, by the
    /// verdict that ends its candidacy.
    pub fn on_trade(&self, t: &Trade) -> (d: Decision)
        ensures
            d == self.decision_spec(*t),
    {
        let recognized = matches!(t.direction, Direction::Buy)
            && t.token == self.config.tracked_token;
        if !recognized || contains_hash(&self.handled, t.hash) {
            Decision::Ignore
        } else {
            match self.pool_cache {
                Some(pool) => Decision::Solve(Context { pool, victim: *t, balance: 0 }),
                None => Decision::NeedPoolData,
            }
        }
    }

    /// Stores the pool parameters the shell fetched for the current block.
    pub fn supply_pool_data(&mut self, pool: PoolState)
        ensures
            final(self)@ == (StrategyModel { pool_cache: Some(pool), ..old(self)@ }),
    {
        self.pool_cache = Some(pool);
    }

    /// Runs the solver on an assembled context and, on a profitable
    /// solution, builds the bundle for the next block with the current block
    /// as state baseline. Fails exactly as the solver does.
    pub fn respond(&self, ctx: &Context) -> (r: Result<Bundle, SolveError>)
        requires
            self.current_block < u64::MAX,
        ensures
            r == self.respond_spec(*ctx),
            r matches Ok(b) ==> b.wf() && b.victim == ctx.victim && b.state_block
                == self.current_block,
    {
        match solve(ctx, &self.config.params) {
            Ok(sol) => Ok(Bundle::new(ctx.victim, sol.response, self.current_block + 1)),
            Err(e) => Err(e),
        }
    }

    /// Ends one candidate: marks its hash handled — whatever the verdict
    /// was — and maps the verdict to a non-fatal outcome. A rejection thus
    /// alters nothing beyond the handled set and never escalates.
    pub fn on_verdict(&mut self, hash: TxHash, verdict: &Verdict) -> (out: Outcome)
        ensures
            final(self)@ == step_verdict(old(self)@, hash),
            out == verdict_outcome(*verdict),
            !out.is_fatal(),
    {
        if !contains_hash(&self.handled, hash) {
            self.handled.push(hash);
        }
        match verdict {
            Verdict::Accepted { .. } => Outcome::Approved,
            Verdict::Rejected { .. } => Outcome::Dropped(ErrorKind::SimulationRejected),
        }
    }
}

/// Whether a hash is among the handled ones.
fn contains_hash(v: &Vec<TxHash>, h: TxHash) -> (r: bool)
    ensures
        r == v@.contains(h),
{
    let mut i: usize = 0;
    while i < v.len()
        invariant
            i <= v.len(),
            forall|k: int| 0 <= k < i ==> v@[k] != h,
        decreases v.len() - i,
    {
        if v[i] == h {
            assert(v@[i as int] == h);
            return true;
        }
        i += 1;
    }
    false
}

/// Law (rejection isolation): taking a candidate through a rejected verdict
/// changes the strategy state in nothing but the handled set — which gains
/// at most the candidate's hash — and the outcome it reports is never fatal,
/// so it cannot unwind past the dispatcher.
pub proof fn lemma_rejection_isolated(m: StrategyModel, hash: TxHash, reason: RejectReason)
    ensures
        step_verdict(m, hash).config == m.config,
        step_verdict(m, hash).attacker == m.attacker,
        step_verdict(m, hash).current_block == m.current_block,
        step_verdict(m, hash).pool_cache == m.pool_cache,
        step_verdict(m, hash).handled == if m.handled.contains(hash) {
            m.handled
        } else {
            m.handled.push(hash)
        },
        !verdict_outcome(Verdict::Rejected { reason }).is_fatal(),
{
}

} // verus!
