//! Bundle construction and the interpretation of a bundle simulation: the
//! ordered two-transaction pair sent for simulation, and the verdict drawn
//! from what the simulation reported. The simulation request itself is chain
//! I/O and lives in the unverified shell, which hands back the reported
//! fields as plain values. A transport failure never reaches this module:
//! the shell retries it a bounded number of times as a transient failure,
//! distinct from the semantic rejections classified here.

use vstd::prelude::*;

use crate::types::{Trade, TradeDraft};

verus! {

/// The ordered transaction pair submitted for atomic inclusion: the victim
/// trade, then the response, targeting `target_block` and simulated against
/// the state of the block before it. A transient value, discarded after
/// validation.
#[derive(Clone, Copy, PartialEq, Eq, Structural, Debug)]
pub struct Bundle {
    pub victim: Trade,
    pub response: TradeDraft,
    pub target_block: u64,
    pub state_block: u64,
}

/// One entry of a bundle's simulation order.
#[derive(Clone, Copy, PartialEq, Eq, Structural, Debug)]
pub enum BundleItem {
    Victim(Trade),
    Response(TradeDraft),
}

impl Bundle {
    /// Every bundle simulates against the block directly before its target.
    pub open spec fn wf(self) -> bool {
        &&& self.target_block >= 1
        &&& self.state_block == self.target_block - 1
    }

    /// Builds the bundle for a target block; the state baseline is always
    /// the block before the target.
    pub fn new(victim: Trade, response: TradeDraft, target_block: u64) -> (b: Bundle)
        requires
            target_block >= 1,
        ensures
            b.wf(),
            b.victim == victim,
            b.response == response,
            b.target_block == target_block,
            b.state_block == target_block - 1,
    {
        Bundle { victim, response, target_block, state_block: target_block - 1 }
    }

    /// The transactions in simulation order: always the victim first and the
    /// response directly after it.
    pub fn simulation_order(&self) -> (v: Vec<BundleItem>)
        ensures
            v@.len() == 2,
            v@[0] == BundleItem::Victim(self.victim),
            v@[1] == BundleItem::Response(self.response),
    {
        let mut v: Vec<BundleItem> = Vec::new();
        v.push(BundleItem::Victim(self.victim));
        v.push(BundleItem::Response(self.response));
        v
    }
}

/// What the simulation reported, as plain values: an optional success flag,
/// the gas used if reported, and an optional error message.
#[derive(Clone, PartialEq, Eq, Debug)]
pub struct SimResponse {
    pub success: Option<bool>,
    pub gas_used: Option<u64>,
    pub error: Option<String>,
}

/// Why a bundle was rejected by simulation.
#[derive(Clone, Copy, PartialEq, Eq, Structural, Debug)]
pub enum RejectReason {
    /// The simulation reported an error field.
    ReportedError,
    /// The simulation reported an explicit failure flag.
    ReportedFailure,
}

/// The validation verdict over a simulated bundle. A rejection is a normal
/// filtering outcome, never escalated to a process error.
#[derive(Clone, Copy, PartialEq, Eq, Structural, Debug)]
pub enum Verdict {
    Accepted { gas_used: u64 },
    Rejected { reason: RejectReason },
}

/// The verdict as a function of the reported fields: rejected exactly when
/// an error is present or the success flag is reported false, accepted
/// otherwise with the reported gas (zero when none was reported).
pub open spec fn classify_spec(resp: SimResponse) -> Verdict {
    if resp.error is Some {
        Verdict::Rejected { reason: RejectReason::ReportedError }
    } else if resp.success == Some(false) {
        Verdict::Rejected { reason: RejectReason::ReportedFailure }
    } else {
        Verdict::Accepted {
            gas_used: match resp.gas_used {
                Some(g) => g,
                None => 0,
            },
        }
    }
}

/// Interprets a simulation response. The verdict is pinned to
/// `classify_spec`: rejected if and only if the response carries an error or
/// an explicit failure flag.
pub fn classify_simulation(resp: &SimResponse) -> (v: Verdict)
    ensures
        v == classify_spec(*resp),
        v is Rejected <==> resp.error is Some || resp.success == Some(false),
{
    if resp.error.is_some() {
        Verdict::Rejected { reason: RejectReason::ReportedError }
    } else if matches!(resp.success, Some(false)) {
        Verdict::Rejected { reason: RejectReason::ReportedFailure }
    } else {
        let gas = match resp.gas_used {
            Some(g) => g,
            None => 0,
        };
        Verdict::Accepted { gas_used: gas }
    }
}

} // verus!
