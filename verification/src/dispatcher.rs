//! The dispatcher's delivery core: events from the merged collector streams
//! are handed to the strategy strictly in order, exactly once each, with no
//! overlap — the strategy is never re-entered. The merging of the live
//! streams is shell plumbing; this function is the serialized delivery it
//! drives, and it carries no retry logic of its own.

use vstd::prelude::*;

use crate::strategy::{recognizes, step_block, Decision, Event, Strategy, StrategyModel};
use crate::types::Trade;

verus! {

/// How one event moves the strategy state: a block event steps the block
/// context, a trade event changes nothing until its verdict.
pub open spec fn step_event(m: StrategyModel, e: Event) -> StrategyModel {
    match e {
        Event::FullBlock(b) => step_block(m, b.number),
        Event::PendingTx(_) => m,
    }
}

/// The strategy state after a sequence of events, delivered in order.
pub open spec fn run_events(m: StrategyModel, evs: Seq<Event>) -> StrategyModel
    decreases evs.len(),
{
    if evs.len() == 0 {
        m
    } else {
        step_event(run_events(m, evs.drop_last()), evs.last())
    }
}

/// The candidate trades a sequence of events produces: the recognized,
/// not-yet-handled pending trades, in delivery order. Recognition reads
/// only the configuration and the handled set, neither of which delivery
/// itself changes.
pub open spec fn candidates_of(m: StrategyModel, evs: Seq<Event>) -> Seq<Trade>
    decreases evs.len(),
{
    if evs.len() == 0 {
        Seq::empty()
    } else {
        candidates_of(m, evs.drop_last()) + (match evs.last() {
            Event::PendingTx(t) => if recognizes(m.config, t) && !m.handled.contains(t.hash) {
                seq![t]
            } else {
                Seq::empty()
            },
            Event::FullBlock(_) => Seq::empty(),
        })
    }
}

/// Delivers a batch of merged events to the strategy, one at a time and in
/// order. The final state is exactly the in-order fold of the events, and
/// the returned candidates are exactly the recognized, unhandled pending
/// trades, in the order they arrived; the shell takes each candidate on
/// through the fetch, solve and simulate steps.
pub fn dispatch(strategy: &mut Strategy, events: Vec<Event>) -> (candidates: Vec<Trade>)
    ensures
        final(strategy)@ == run_events(old(strategy)@, events@),
        candidates@ == candidates_of(old(strategy)@, events@),
{
    let mut candidates: Vec<Trade> = Vec::new();
    let mut i: usize = 0;
    proof {
        assert(events@.subrange(0, 0) =~= Seq::<Event>::empty());
    }
    while i < events.len()
        invariant
            i <= events.len(),
            strategy@ == run_events(old(strategy)@, events@.subrange(0, i as int)),
            strategy@.handled == old(strategy)@.handled,
            strategy@.config == old(strategy)@.config,
            candidates@ == candidates_of(old(strategy)@, events@.subrange(0, i as int)),
        decreases events.len() - i,
    {
        let ghost prefix = events@.subrange(0, i as int);
        proof {
            assert(events@.subrange(0, i + 1).drop_last() =~= prefix);
            assert(events@.subrange(0, i + 1).last() == events@[i as int]);
        }
        match &events[i] {
            Event::FullBlock(b) => {
                strategy.on_block(b.number);
            },
            Event::PendingTx(t) => {
                match strategy.on_trade(t) {
                    Decision::Ignore => {},
                    Decision::NeedPoolData => {
                        candidates.push(*t);
                    },
                    Decision::Solve(_) => {
                        candidates.push(*t);
                    },
                }
                proof {
                    assert(candidates@ =~= candidates_of(
                        old(strategy)@,
                        events@.subrange(0, i + 1),
                    ));
                }
            },
        }
        i += 1;
    }
    proof {
        assert(events@.subrange(0, events@.len() as int) =~= events@);
    }
    candidates
}

} // verus!
