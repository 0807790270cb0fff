//! The opportunity solver: a pure, deterministic search for the
//! profit-maximizing response trade against a constant-relationship pricing
//! curve with a proportional fee and a flat minimum fee.
//!
//! The victim's buy shifts the reserves; the solver then searches the bounded
//! domain `[0, max_feasible]` of response sizes with a derivative-free
//! bracketing (ternary) search, assuming the profit function is unimodal over
//! the domain for the supported curve family. It stops once the bracket is
//! within the absolute tolerance or the iteration budget is spent, and
//! returns the best sampled point. All quantities are denominated in the
//! token's smallest unit, with the pre-trade price taken as par.

use vstd::prelude::*;
use vstd::arithmetic::div_mod::{
    lemma_div_pos_is_pos, lemma_fundamental_div_mod, lemma_mod_pos_bound,
    lemma_multiply_divide_le, lemma_multiply_divide_lt,
};

use crate::errors::SolveError;
use crate::types::{Direction, PoolState, Trade, TradeDraft};

verus! {

/// Everything the solver reads: the pool at the victim's block, the victim
/// trade itself, and the solver-owned output-token balance (zero means the
/// response acquires its input within the bundle, so only the reserve
/// constrains the domain). Consumed exactly once per candidate; immutable.
#[derive(Clone, Copy, PartialEq, Eq, Structural, Debug)]
pub struct Context {
    pub pool: PoolState,
    pub victim: Trade,
    pub balance: u64,
}

/// The solver's configuration surface: bracket tolerance (in smallest token
/// units), iteration budget, the gas cost charged against the response, and
/// the minimum profit margin a solution must clear.
#[derive(Clone, Copy, PartialEq, Eq, Structural, Debug)]
pub struct SolverParams {
    pub tolerance: u64,
    pub max_iters: u64,
    pub gas_cost: u64,
    pub min_profit: u64,
}

/// A profitable response: its size, its expected net profit, and the
/// transaction descriptor that realizes it. Derived quantities, never
/// mutated after construction.
#[derive(Clone, Copy, PartialEq, Eq, Structural, Debug)]
pub struct Solution {
    pub response_amount: u64,
    pub expected_profit: u64,
    pub response: TradeDraft,
}

/// The proportional fee on a trade of size `x`, in the same unit as `x`.
pub open spec fn fee_of(x: int, bps: int) -> int {
    x * bps / 10000
}

/// Curve output: swapping `x` units (already net of any fee) into the side
/// holding `r_in` yields this many units from the side holding `r_out`.
pub open spec fn swap_return(r_in: int, r_out: int, x: int) -> int {
    r_out * x / (r_in + x)
}

impl Context {
    /// Inputs the solver accepts: a well-formed pool, a buy with a positive
    /// size, and a shifted input reserve that still fits the word width.
    /// Anything else is malformed or inconsistent candidate data.
    pub open spec fn valid(self) -> bool {
        &&& self.pool.wf()
        &&& self.victim.direction is Buy
        &&& self.victim.amount_in >= 1
        &&& self.pool.reserve_in + self.victim.amount_in <= u64::MAX
    }

    /// The victim's input net of the proportional fee.
    pub open spec fn victim_effective(self) -> int {
        self.victim.amount_in - fee_of(self.victim.amount_in as int, self.pool.fee_rate_bps as int)
    }

    /// What the victim's buy takes out of the output reserve.
    pub open spec fn victim_received(self) -> int {
        swap_return(
            self.pool.reserve_in as int,
            self.pool.reserve_out as int,
            self.victim_effective(),
        )
    }

    /// The input-token reserve right after the victim's buy.
    pub open spec fn reserve_in_after(self) -> int {
        self.pool.reserve_in + self.victim.amount_in
    }

    /// The output-token reserve right after the victim's buy.
    pub open spec fn reserve_out_after(self) -> int {
        self.pool.reserve_out - self.victim_received()
    }

    /// What a response of size `x` (output token in, input token out) is
    /// returned by the curve in its state right after the victim's buy.
    pub open spec fn response_gross(self, x: int) -> int {
        swap_return(self.reserve_out_after(), self.reserve_in_after(), x)
    }

    /// The upper end of the search domain, from the reserve and balance
    /// constraints.
    pub open spec fn max_feasible(self) -> int {
        if self.balance > 0 && (self.balance as int) < self.reserve_out_after() {
            self.balance as int
        } else {
            self.reserve_out_after()
        }
    }
}

/// Net profit of a response of size `x`: the value extracted from the
/// shifted curve, minus the size given up, the proportional trading fee, the
/// flat minimum fee and the gas cost.
pub open spec fn profit_at(ctx: Context, params: SolverParams, x: int) -> int {
    ctx.response_gross(x) - x - fee_of(x, ctx.pool.fee_rate_bps as int)
        - ctx.pool.min_fee_absolute - params.gas_cost
}

/// The more profitable of two sampled points, keeping the first on ties.
pub open spec fn pick_better(ctx: Context, params: SolverParams, a: u64, b: u64) -> u64 {
    if profit_at(ctx, params, b as int) > profit_at(ctx, params, a as int) {
        b
    } else {
        a
    }
}

/// The bracketing search: narrows `[lo, hi]` by thirds, tracking the best
/// sampled point, until the bracket is within the tolerance or the fuel is
/// spent.
pub open spec fn search_rec(
    ctx: Context,
    params: SolverParams,
    lo: u64,
    hi: u64,
    best: u64,
    fuel: u64,
) -> u64
    decreases fuel,
{
    if fuel == 0 || hi - lo <= params.tolerance {
        best
    } else {
        let d = ((hi - lo) / 3) as u64;
        let m1 = (lo + d) as u64;
        let m2 = (hi - d) as u64;
        let b = pick_better(ctx, params, pick_better(ctx, params, best, m1), m2);
        if profit_at(ctx, params, m1 as int) < profit_at(ctx, params, m2 as int) {
            search_rec(ctx, params, m1, hi, b, (fuel - 1) as u64)
        } else {
            search_rec(ctx, params, lo, m2, b, (fuel - 1) as u64)
        }
    }
}

/// The response size the solver settles on for a valid context.
pub open spec fn best_response(ctx: Context, params: SolverParams) -> u64 {
    search_rec(ctx, params, 0, ctx.max_feasible() as u64, 0, params.max_iters)
}

/// The solver's whole result as a function of its inputs alone.
pub open spec fn solve_spec(ctx: Context, params: SolverParams) -> Result<Solution, SolveError> {
    if !ctx.valid() {
        Err(SolveError::InvalidContext)
    } else {
        let x = best_response(ctx, params);
        let p = profit_at(ctx, params, x as int);
        if p > params.min_profit {
            Ok(
                Solution {
                    response_amount: x,
                    expected_profit: p as u64,
                    response: TradeDraft {
                        token: ctx.victim.token,
                        amount_in: x,
                        direction: Direction::Sell,
                    },
                },
            )
        } else {
            Err(SolveError::NoOpportunity)
        }
    }
}

/// Products of bounded factors stay bounded.
proof fn lemma_mul_le(a: int, b: int, c: int, d: int)
    by (nonlinear_arith)
    requires
        0 <= a <= c,
        0 <= b <= d,
    ensures
        a * b <= c * d,
{
}

/// The proportional fee never exceeds the trade itself.
proof fn lemma_fee_bounds(x: int, bps: int)
    requires
        0 <= x,
        0 <= bps < 10000,
    ensures
        0 <= fee_of(x, bps) <= x,
{
    lemma_div_pos_is_pos(x * bps, 10000);
    assert(x * bps <= 10000 * x) by (nonlinear_arith)
        requires
            0 <= x,
            0 <= bps < 10000,
    ;
    lemma_multiply_divide_le(x * bps, 10000, x);
}

/// The curve never pays out a whole funded reserve.
proof fn lemma_swap_return_bounds(r_in: int, r_out: int, x: int)
    requires
        r_in >= 1,
        r_out >= 1,
        x >= 0,
    ensures
        0 <= swap_return(r_in, r_out, x) < r_out,
{
    lemma_div_pos_is_pos(r_out * x, r_in + x);
    assert(r_out * x < (r_in + x) * r_out) by (nonlinear_arith)
        requires
            r_in >= 1,
            r_out >= 1,
            x >= 0,
    ;
    lemma_multiply_divide_lt(r_out * x, r_in + x, r_out);
}

/// After a valid victim buy both reserves stay funded and in range.
proof fn lemma_reserves_after(ctx: Context)
    requires
        ctx.valid(),
    ensures
        1 <= ctx.reserve_in_after() <= u64::MAX,
        1 <= ctx.reserve_out_after() <= u64::MAX,
        0 <= ctx.victim_effective() <= ctx.victim.amount_in,
        0 <= ctx.victim_received() < ctx.pool.reserve_out,
{
    lemma_fee_bounds(ctx.victim.amount_in as int, ctx.pool.fee_rate_bps as int);
    lemma_swap_return_bounds(
        ctx.pool.reserve_in as int,
        ctx.pool.reserve_out as int,
        ctx.victim_effective(),
    );
}

/// Profit is capped by the shifted input reserve, which fits the word width.
proof fn lemma_profit_upper(ctx: Context, params: SolverParams, x: int)
    requires
        ctx.valid(),
        0 <= x,
    ensures
        profit_at(ctx, params, x) <= ctx.reserve_in_after() <= u64::MAX,
{
    lemma_reserves_after(ctx);
    lemma_fee_bounds(x, ctx.pool.fee_rate_bps as int);
    lemma_swap_return_bounds(ctx.reserve_out_after(), ctx.reserve_in_after(), x);
}

/// The search never leaves the domain: its result is one of the sampled
/// points, all of which lie at or below the bracket's high end (or it is the
/// incoming best point).
proof fn lemma_search_bounded(
    ctx: Context,
    params: SolverParams,
    lo: u64,
    hi: u64,
    best: u64,
    fuel: u64,
)
    requires
        lo <= hi,
    ensures
        search_rec(ctx, params, lo, hi, best, fuel) <= (if best > hi {
            best
        } else {
            hi
        }),
    decreases fuel,
{
    if fuel == 0 || hi - lo <= params.tolerance {
    } else {
        lemma_fundamental_div_mod((hi - lo) as int, 3);
        lemma_mod_pos_bound((hi - lo) as int, 3);
        let d = ((hi - lo) / 3) as u64;
        let m1 = (lo + d) as u64;
        let m2 = (hi - d) as u64;
        let b = pick_better(ctx, params, pick_better(ctx, params, best, m1), m2);
        if profit_at(ctx, params, m1 as int) < profit_at(ctx, params, m2 as int) {
            lemma_search_bounded(ctx, params, m1, hi, b, (fuel - 1) as u64);
        } else {
            lemma_search_bounded(ctx, params, lo, m2, b, (fuel - 1) as u64);
        }
    }
}

/// Runtime form of `fee_of`, exact on the whole input range.
fn fee_amount(x: u64, bps: u64) -> (r: u64)
    requires
        bps < 10000,
    ensures
        r == fee_of(x as int, bps as int),
        r <= x,
{
    proof {
        lemma_fee_bounds(x as int, bps as int);
    }
    let prod: u128 = (x as u128) * (bps as u128);
    (prod / 10000) as u64
}

/// The reserves right after the victim's buy, computed exactly.
fn pool_after_victim(ctx: &Context) -> (r: (u64, u64))
    requires
        ctx.valid(),
    ensures
        r.0 == ctx.reserve_in_after(),
        r.1 == ctx.reserve_out_after(),
        r.0 >= 1,
        r.1 >= 1,
{
    proof {
        lemma_reserves_after(*ctx);
        lemma_mul_le(
            ctx.pool.reserve_out as int,
            ctx.victim_effective(),
            u64::MAX as int,
            u64::MAX as int,
        );
    }
    let fee = fee_amount(ctx.victim.amount_in, ctx.pool.fee_rate_bps);
    let eff = ctx.victim.amount_in - fee;
    let num: u128 = (ctx.pool.reserve_out as u128) * (eff as u128);
    let den: u128 = (ctx.pool.reserve_in as u128) + (eff as u128);
    let dy = (num / den) as u64;
    (ctx.pool.reserve_in + ctx.victim.amount_in, ctx.pool.reserve_out - dy)
}

/// Runtime form of `profit_at`, exact on the whole domain.
fn profit_value(ctx: &Context, params: &SolverParams, x: u64) -> (r: i128)
    requires
        ctx.valid(),
    ensures
        r as int == profit_at(*ctx, *params, x as int),
{
    proof {
        lemma_reserves_after(*ctx);
        lemma_swap_return_bounds(ctx.reserve_out_after(), ctx.reserve_in_after(), x as int);
        lemma_mul_le(ctx.reserve_in_after(), x as int, u64::MAX as int, u64::MAX as int);
        lemma_fee_bounds(x as int, ctx.pool.fee_rate_bps as int);
    }
    let (pri, pro) = pool_after_victim(ctx);
    let num: u128 = (pri as u128) * (x as u128);
    let den: u128 = (pro as u128) + (x as u128);
    let gross = (num / den) as u64;
    let xfee = fee_amount(x, ctx.pool.fee_rate_bps);
    (gross as i128) - (x as i128) - (xfee as i128) - (ctx.pool.min_fee_absolute as i128)
        - (params.gas_cost as i128)
}

/// Runtime form of `search_rec`: the bracketing search itself.
fn search(ctx: &Context, params: &SolverParams, lo: u64, hi: u64, best: u64, fuel: u64) -> (r: u64)
    requires
        ctx.valid(),
        lo <= hi,
    ensures
        r == search_rec(*ctx, *params, lo, hi, best, fuel),
    decreases fuel,
{
    if fuel == 0 || hi - lo <= params.tolerance {
        return best;
    }
    let d = (hi - lo) / 3;
    proof {
        lemma_fundamental_div_mod((hi - lo) as int, 3);
        lemma_mod_pos_bound((hi - lo) as int, 3);
    }
    let m1 = lo + d;
    let m2 = hi - d;
    let p_best = profit_value(ctx, params, best);
    let p1 = profit_value(ctx, params, m1);
    let p2 = profit_value(ctx, params, m2);
    let b1 = if p1 > p_best { m1 } else { best };
    let pb1 = if p1 > p_best { p1 } else { p_best };
    let b2 = if p2 > pb1 { m2 } else { b1 };
    if p1 < p2 {
        search(ctx, params, m1, hi, b2, fuel - 1)
    } else {
        search(ctx, params, lo, m2, b2, fuel - 1)
    }
}

/// The opportunity solver. Pure and deterministic: the result is pinned to
/// `solve_spec`, a function of the context and parameters alone. It returns
/// `InvalidContext` exactly on malformed input, `NoOpportunity` exactly when
/// the best sampled response does not clear the required margin, and
/// otherwise the best sampled response with its exact expected profit.
pub fn solve(ctx: &Context, params: &SolverParams) -> (r: Result<Solution, SolveError>)
    ensures
        r == solve_spec(*ctx, *params),
        r is Err <==> !ctx.valid() || profit_at(
            *ctx,
            *params,
            best_response(*ctx, *params) as int,
        ) <= params.min_profit,
        !ctx.valid() ==> r == Err::<Solution, SolveError>(SolveError::InvalidContext),
        r is Ok ==> {
            let sol = r->Ok_0;
            &&& sol.response_amount == best_response(*ctx, *params)
            &&& sol.response_amount <= ctx.max_feasible()
            &&& sol.expected_profit == profit_at(*ctx, *params, sol.response_amount as int)
            &&& sol.expected_profit > params.min_profit
            &&& sol.response == (TradeDraft {
                token: ctx.victim.token,
                amount_in: sol.response_amount,
                direction: Direction::Sell,
            })
        },
{
    let valid = ctx.pool.reserve_in >= 1 && ctx.pool.reserve_out >= 1
        && ctx.pool.fee_rate_bps < 10000 && matches!(ctx.victim.direction, Direction::Buy)
        && ctx.victim.amount_in >= 1
        && ctx.victim.amount_in <= u64::MAX - ctx.pool.reserve_in;
    if !valid {
        return Err(SolveError::InvalidContext);
    }
    let (_, pro) = pool_after_victim(ctx);
    let mf = if ctx.balance > 0 && ctx.balance < pro {
        ctx.balance
    } else {
        pro
    };
    let x = search(ctx, params, 0, mf, 0, params.max_iters);
    let p = profit_value(ctx, params, x);
    if p > params.min_profit as i128 {
        proof {
            lemma_profit_upper(*ctx, *params, x as int);
            lemma_search_bounded(*ctx, *params, 0, mf, 0, params.max_iters);
        }
        Ok(
            Solution {
                response_amount: x,
                expected_profit: p as u64,
                response: TradeDraft {
                    token: ctx.victim.token,
                    amount_in: x,
                    direction: Direction::Sell,
                },
            },
        )
    } else {
        Err(SolveError::NoOpportunity)
    }
}

/// Law: the solver is deterministic. Its result is a function of the
/// context and parameters alone, so two calls on an identical context and
/// identical parameters return identical response amounts and profits.
pub proof fn lemma_solver_deterministic(
    ctx: Context,
    params: SolverParams,
    r1: Result<Solution, SolveError>,
    r2: Result<Solution, SolveError>,
)
    requires
        r1 == solve_spec(ctx, params),
        r2 == solve_spec(ctx, params),
    ensures
        r1 == r2,
{
}

} // verus!
