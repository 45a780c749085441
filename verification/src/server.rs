//! In-memory state for a host that drives the engine with one policy:
//! a demonstration wiring of the enforcement engine with baseline risk
//! parameters and the policy chosen at construction time.

use vstd::prelude::*;

use crate::engine::ClawcolatorEngine;
use crate::ledger::fresh_risk_engine;
use crate::ledger::RiskParams;
use crate::policy::MarketParams;
use crate::policy::OpenClawAgent;

verus! {

/// The baseline risk parameters a served engine starts from.
pub open spec fn server_base_params() -> RiskParams {
    RiskParams {
        warmup_period_slots: 100,
        maintenance_margin_bps: 500,
        initial_margin_bps: 1000,
        trading_fee_bps: 10,
        max_accounts: 1000,
        new_account_fee: 0,
        risk_reduction_threshold: 0,
        maintenance_fee_per_slot: 0,
        max_crank_staleness_slots: u64::MAX,
        liquidation_fee_bps: 50,
        liquidation_fee_cap: 100_000,
        liquidation_buffer_bps: 100,
        min_liquidation_abs: 100_000,
    }
}

/// An engine paired with the policy that drives it.
pub struct ServerState<A: OpenClawAgent> {
    /// The enforcement engine.
    pub engine: ClawcolatorEngine,
    /// The decision policy every operation consults.
    pub agent: A,
}

impl<A: OpenClawAgent> ServerState<A> {
    /// A fresh server state over the baseline risk parameters, holding the
    /// given policy.
    pub fn new(agent: A) -> (r: ServerState<A>)
        ensures
            r.agent == agent,
            r.engine.spec_engine() == fresh_risk_engine(server_base_params()),
            r.engine.spec_market_params() == MarketParams::spec_default(),
            !r.engine.spec_shutdown(),
            !r.engine.spec_frozen(),
    {
        let base_params = RiskParams {
            warmup_period_slots: 100,
            maintenance_margin_bps: 500,
            initial_margin_bps: 1000,
            trading_fee_bps: 10,
            max_accounts: 1000,
            new_account_fee: 0,
            risk_reduction_threshold: 0,
            maintenance_fee_per_slot: 0,
            max_crank_staleness_slots: u64::MAX,
            liquidation_fee_bps: 50,
            liquidation_fee_cap: 100_000,
            liquidation_buffer_bps: 100,
            min_liquidation_abs: 100_000,
        };

        ServerState { engine: ClawcolatorEngine::new(base_params), agent }
    }
}

} // verus!
