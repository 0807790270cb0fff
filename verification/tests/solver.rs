use backrun::errors::SolveError;
use backrun::solver::{solve, Context, SolverParams, Solution};
use backrun::types::{Address, Direction, PoolState, Trade, TxHash};

fn hash(n: u128) -> TxHash {
    TxHash { hi: 0, lo: n }
}

fn addr(n: u128) -> Address {
    Address { hi: 0, lo: n }
}

fn buy(amount_in: u64) -> Trade {
    Trade {
        hash: hash(1),
        sender: addr(2),
        token: addr(3),
        amount_in,
        direction: Direction::Buy,
        block_number: Some(10),
    }
}

fn pool(reserve_in: u64, reserve_out: u64, fee_rate_bps: u64, min_fee_absolute: u64) -> PoolState {
    PoolState { reserve_in, reserve_out, fee_rate_bps, min_fee_absolute }
}

fn params(tolerance: u64, max_iters: u64, gas_cost: u64, min_profit: u64) -> SolverParams {
    SolverParams { tolerance, max_iters, gas_cost, min_profit }
}

#[test]
fn solver_concrete_opportunity() {
    // Reserves of one million each, a 30 bps fee, no flat fee: a victim buy
    // of 50_000 shifts the pool enough that a response close to the
    // analytic optimum (about 46_000) clears a profit of about 2_230.
    let ctx = Context { pool: pool(1_000_000, 1_000_000, 30, 0), victim: buy(50_000), balance: 0 };
    let sol = solve(&ctx, &params(1, 64, 0, 0)).expect("an opportunity must be found");
    assert!(sol.expected_profit > 0);
    assert!(sol.expected_profit >= 2_225 && sol.expected_profit <= 2_235);
    assert!(sol.response_amount >= 43_000 && sol.response_amount <= 49_000);
    assert_eq!(sol.response.amount_in, sol.response_amount);
    assert_eq!(sol.response.token, addr(3));
    assert!(matches!(sol.response.direction, Direction::Sell));
}

#[test]
fn solver_no_opportunity_on_negligible_impact() {
    // The same pool, a victim buy of a single unit and a gas cost of 1000:
    // no response can recover the cost.
    let ctx = Context { pool: pool(1_000_000, 1_000_000, 30, 0), victim: buy(1), balance: 0 };
    let r = solve(&ctx, &params(1, 64, 1000, 0));
    assert_eq!(r, Err(SolveError::NoOpportunity));
}

#[test]
fn solver_exact_tiny_scenario() {
    // Small enough to follow by hand: reserves 10/10, no fees, victim buys
    // 5 (receives 3, leaving reserves 15/7), balance caps the domain at 3.
    // Profit is 0, 0, 1, 1 at sizes 0..3; the search settles on 2 with
    // profit exactly 1.
    let ctx = Context { pool: pool(10, 10, 0, 0), victim: buy(5), balance: 3 };
    let r = solve(&ctx, &params(1, 10, 0, 0));
    assert_eq!(
        r,
        Ok(Solution {
            response_amount: 2,
            expected_profit: 1,
            response: backrun::types::TradeDraft {
                token: addr(3),
                amount_in: 2,
                direction: Direction::Sell,
            },
        })
    );
}

#[test]
fn solver_deterministic_on_identical_context() {
    let ctx = Context { pool: pool(1_000_000, 1_000_000, 30, 0), victim: buy(50_000), balance: 0 };
    let p = params(1, 64, 0, 0);
    let r1 = solve(&ctx, &p);
    let r2 = solve(&ctx, &p);
    assert_eq!(r1, r2);
    let sol1 = r1.expect("an opportunity must be found");
    let sol2 = r2.expect("an opportunity must be found");
    assert_eq!(sol1.response_amount, sol2.response_amount);
    assert_eq!(sol1.expected_profit, sol2.expected_profit);
}

#[test]
fn solver_rejects_excessive_fee_rate() {
    let ctx = Context { pool: pool(1_000_000, 1_000_000, 10_000, 0), victim: buy(50_000), balance: 0 };
    assert_eq!(solve(&ctx, &params(1, 64, 0, 0)), Err(SolveError::InvalidContext));
}

#[test]
fn solver_rejects_unfunded_reserves() {
    let ctx = Context { pool: pool(0, 1_000_000, 30, 0), victim: buy(50_000), balance: 0 };
    assert_eq!(solve(&ctx, &params(1, 64, 0, 0)), Err(SolveError::InvalidContext));
    let ctx = Context { pool: pool(1_000_000, 0, 30, 0), victim: buy(50_000), balance: 0 };
    assert_eq!(solve(&ctx, &params(1, 64, 0, 0)), Err(SolveError::InvalidContext));
}

#[test]
fn solver_rejects_non_buy_victim() {
    let mut t = buy(50_000);
    t.direction = Direction::Sell;
    let ctx = Context { pool: pool(1_000_000, 1_000_000, 30, 0), victim: t, balance: 0 };
    assert_eq!(solve(&ctx, &params(1, 64, 0, 0)), Err(SolveError::InvalidContext));
}

#[test]
fn solver_rejects_zero_and_overflowing_victim() {
    let ctx = Context { pool: pool(1_000_000, 1_000_000, 30, 0), victim: buy(0), balance: 0 };
    assert_eq!(solve(&ctx, &params(1, 64, 0, 0)), Err(SolveError::InvalidContext));
    let ctx = Context { pool: pool(2, 2, 30, 0), victim: buy(u64::MAX - 1), balance: 0 };
    assert_eq!(solve(&ctx, &params(1, 64, 0, 0)), Err(SolveError::InvalidContext));
}

#[test]
fn solver_reports_no_opportunity_without_iterations() {
    // With no iteration budget the best sampled point is the domain's low
    // end, which never clears the margin.
    let ctx = Context { pool: pool(1_000_000, 1_000_000, 30, 0), victim: buy(50_000), balance: 0 };
    assert_eq!(solve(&ctx, &params(1, 0, 0, 0)), Err(SolveError::NoOpportunity));
}

#[test]
fn solver_respects_min_profit_margin() {
    // The concrete opportunity clears about 2_230; a margin above that must
    // turn it into a no-opportunity report.
    let ctx = Context { pool: pool(1_000_000, 1_000_000, 30, 0), victim: buy(50_000), balance: 0 };
    assert_eq!(solve(&ctx, &params(1, 64, 0, 100_000)), Err(SolveError::NoOpportunity));
}
