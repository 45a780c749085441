//! The enforcement engine: validates every policy decision against protocol
//! bounds before it may mutate state, and owns the monotonic safety flags.

use vstd::prelude::*;

use crate::ledger::abs_i128;
use crate::ledger::fresh_risk_engine;
use crate::ledger::sat_abs_i128;
use crate::ledger::saturating_abs_i128;
use crate::ledger::MatchingEngine;
use crate::ledger::RiskEngine;
use crate::ledger::RiskError;
use crate::ledger::RiskParams;
use crate::ledger::TradeExecution;
use crate::ledger::BPS_SCALE;
use crate::ledger::MAX_ORACLE_PRICE;
use crate::ledger::MAX_POSITION_ABS;
use crate::policy::AgentContext;
use crate::policy::AnomalyActions;
use crate::policy::MarketParams;
use crate::policy::OpenClawAgent;
use crate::policy::TradeDecision;
use crate::policy::TradeRequest;

verus! {

/// The engine that wraps the external ledger engine and delegates all
/// market decisions to a policy while enforcing protocol invariants.
///
/// The safety flags and the market parameters are owned exclusively by this
/// type: they change only through validated decisions, and once `shutdown`
/// or `market_frozen` is set, no operation of this engine clears it.
pub struct ClawcolatorEngine {
    /// Underlying ledger engine.
    engine: RiskEngine,
    /// Current market parameters, as last validated.
    market_params: MarketParams,
    /// Whether the system is shut down (terminal).
    shutdown: bool,
    /// Whether the market is frozen.
    market_frozen: bool,
}

/// Whether an execution `(price, exec_size)` answering a request of signed
/// size `requested_size` is within every protocol bound, under the given
/// per-account position cap:
/// the price is nonzero and at most the protocol maximum; and the size is
/// either exactly zero (a valid "no fill") or has a representable magnitude
/// that stays within the protocol-wide position bound, keeps the requested
/// direction, never exceeds the requested magnitude (partial fill only),
/// and stays within the configured per-account cap.
pub open spec fn trade_execution_valid(
    price: u64,
    exec_size: i128,
    requested_size: i128,
    max_position_size: u128,
) -> bool {
    &&& 0 < price <= MAX_ORACLE_PRICE
    &&& (exec_size == 0 || {
        &&& exec_size != i128::MIN
        &&& abs_i128(exec_size as int) <= MAX_POSITION_ABS as int
        &&& ((exec_size > 0) <==> (requested_size > 0))
        &&& abs_i128(exec_size as int) <= sat_abs_i128(requested_size as int)
        &&& abs_i128(exec_size as int) <= max_position_size as int
    })
}

/// The exact verdict of the trade decision validator, checks in order and
/// short-circuiting on the first failure: `Ok` exactly when
/// `trade_execution_valid` holds, `Undercollateralized` when only the
/// configured position cap is violated, `InvalidMatchingEngine` otherwise.
pub open spec fn validate_trade_execution_result(
    price: u64,
    exec_size: i128,
    requested_size: i128,
    max_position_size: u128,
) -> Result<(), RiskError> {
    if price == 0 || price > MAX_ORACLE_PRICE {
        Err(RiskError::InvalidMatchingEngine)
    } else if exec_size == 0 {
        Ok(())
    } else if exec_size == i128::MIN {
        Err(RiskError::InvalidMatchingEngine)
    } else if abs_i128(exec_size as int) > MAX_POSITION_ABS as int {
        Err(RiskError::InvalidMatchingEngine)
    } else if (exec_size > 0) != (requested_size > 0) {
        Err(RiskError::InvalidMatchingEngine)
    } else if abs_i128(exec_size as int) > sat_abs_i128(requested_size as int) {
        Err(RiskError::InvalidMatchingEngine)
    } else if abs_i128(exec_size as int) > max_position_size as int {
        Err(RiskError::Undercollateralized)
    } else {
        Ok(())
    }
}

/// Accepted executions fill in the requested direction and never beyond the
/// requested magnitude: a policy can neither flip a trade's direction nor
/// turn a request into a larger fill.
pub proof fn lemma_accepted_trade_is_partial_fill(
    price: u64,
    exec_size: i128,
    requested_size: i128,
    max_position_size: u128,
)
    requires
        trade_execution_valid(price, exec_size, requested_size, max_position_size),
    ensures
        exec_size != 0 ==> ((exec_size > 0) <==> (requested_size > 0)),
        abs_i128(exec_size as int) <= abs_i128(requested_size as int),
{
}

/// Accepted executions carry a positive price within the protocol bound.
pub proof fn lemma_accepted_trade_price_in_bounds(
    price: u64,
    exec_size: i128,
    requested_size: i128,
    max_position_size: u128,
)
    requires
        trade_execution_valid(price, exec_size, requested_size, max_position_size),
    ensures
        0 < price <= MAX_ORACLE_PRICE,
{
}

/// Accepted executions stay within the configured per-account position cap.
pub proof fn lemma_accepted_trade_within_position_cap(
    price: u64,
    exec_size: i128,
    requested_size: i128,
    max_position_size: u128,
)
    requires
        trade_execution_valid(price, exec_size, requested_size, max_position_size),
    ensures
        abs_i128(exec_size as int) <= max_position_size as int,
{
}

/// Whether proposed market parameters are within every protocol bound,
/// given the ledger engine's maintenance margin: leverage at most 100x,
/// position cap within the protocol bound, at most all capital active, and
/// a minimum margin no laxer than the maintenance margin.
pub open spec fn market_params_valid(params: MarketParams, maintenance_margin_bps: u64) -> bool {
    &&& params.max_leverage_bps <= BPS_SCALE
    &&& params.max_position_size <= MAX_POSITION_ABS
    &&& params.active_capital_ratio_bps <= BPS_SCALE
    &&& params.min_margin_bps >= maintenance_margin_bps
}

/// The exact verdict of the market parameter validator, checks in order:
/// `Overflow` for a hard protocol bound exceeded, `Undercollateralized` for
/// a minimum margin below the engine's maintenance margin, `Ok` exactly
/// when `market_params_valid` holds.
pub open spec fn validate_market_params_result(
    params: MarketParams,
    maintenance_margin_bps: u64,
) -> Result<(), RiskError> {
    if params.max_leverage_bps > BPS_SCALE {
        Err(RiskError::Overflow)
    } else if params.max_position_size > MAX_POSITION_ABS {
        Err(RiskError::Overflow)
    } else if params.active_capital_ratio_bps > BPS_SCALE {
        Err(RiskError::Overflow)
    } else if params.min_margin_bps < maintenance_margin_bps {
        Err(RiskError::Undercollateralized)
    } else {
        Ok(())
    }
}

/// The market parameters after a validated anomaly response: a proposed
/// reduced position cap is applied only when it is within the protocol
/// bound, and is silently ignored otherwise; no other field moves.
pub open spec fn params_after_reduce_limits(
    params: MarketParams,
    reduce_limits: Option<u128>,
) -> MarketParams {
    match reduce_limits {
        Some(new_max_size) => if new_max_size <= MAX_POSITION_ABS {
            MarketParams { max_position_size: new_max_size, ..params }
        } else {
            params
        },
        None => params,
    }
}

/// The context snapshot that a given ledger-engine state and oracle price
/// determine. `build_context` returns exactly this value, so two snapshots
/// taken with no intervening mutation and the same price are identical.
pub open spec fn context_of(e: RiskEngine, oracle_price: u64) -> AgentContext {
    AgentContext {
        current_slot: e.current_slot,
        oracle_price,
        vault: e.vault,
        insurance_balance: e.insurance_balance,
        total_capital: e.total_capital,
        total_positive_pnl: e.total_positive_pnl,
        total_open_interest: e.total_open_interest,
        risk_params: e.params,
        risk_reduction_mode: false,
        last_crank_slot: e.last_crank_slot,
    }
}

impl ClawcolatorEngine {
    /// The ledger engine inside, as the contracts see it.
    pub closed spec fn spec_engine(&self) -> RiskEngine {
        self.engine
    }

    /// The current market parameters, as the contracts see them.
    pub closed spec fn spec_market_params(&self) -> MarketParams {
        self.market_params
    }

    /// Whether the system is shut down, as the contracts see it.
    pub closed spec fn spec_shutdown(&self) -> bool {
        self.shutdown
    }

    /// Whether the market is frozen, as the contracts see it.
    pub closed spec fn spec_frozen(&self) -> bool {
        self.market_frozen
    }

    /// A new enforcement engine over a fresh ledger engine: default market
    /// parameters, not frozen, not shut down.
    pub fn new(base_params: RiskParams) -> (r: ClawcolatorEngine)
        ensures
            r.spec_engine() == fresh_risk_engine(base_params),
            r.spec_market_params() == MarketParams::spec_default(),
            !r.spec_shutdown(),
            !r.spec_frozen(),
    {
        ClawcolatorEngine {
            engine: RiskEngine::new(base_params),
            market_params: MarketParams::default(),
            shutdown: false,
            market_frozen: false,
        }
    }

    /// Re-initialize in place, as `new` would.
    pub fn init_in_place(&mut self, base_params: RiskParams)
        ensures
            final(self).spec_engine() == fresh_risk_engine(base_params),
            final(self).spec_market_params() == MarketParams::spec_default(),
            !final(self).spec_shutdown(),
            !final(self).spec_frozen(),
    {
        self.engine.init_in_place(base_params);
        self.market_params = MarketParams::default();
        self.shutdown = false;
        self.market_frozen = false;
    }

    /// Build a read-only context snapshot for the given oracle price.
    ///
    /// The snapshot is a pure function of the engine state and the price,
    /// so calling this twice with the same price and no intervening
    /// mutation yields identical snapshots.
    pub fn build_context(&self, oracle_price: u64) -> (r: AgentContext)
        ensures
            r == context_of(self.spec_engine(), oracle_price),
    {
        AgentContext {
            current_slot: self.engine.current_slot,
            oracle_price,
            vault: self.engine.vault,
            insurance_balance: self.engine.insurance_balance,
            total_capital: self.engine.total_capital,
            total_positive_pnl: self.engine.total_positive_pnl,
            total_open_interest: self.engine.total_open_interest,
            risk_params: self.engine.params,
            risk_reduction_mode: false,
            last_crank_slot: self.engine.last_crank_slot,
        }
    }

    /// Check a policy's accepted execution against every protocol bound,
    /// in order, short-circuiting on the first failure: price bounds, the
    /// trivially valid zero fill, representable magnitude, the protocol
    /// position bound, direction preserved, partial fill only, and the
    /// configured per-account position cap.
    pub fn validate_trade_execution(
        &self,
        price: u64,
        exec_size: i128,
        requested_size: i128,
    ) -> (r: Result<(), RiskError>)
        ensures
            r == validate_trade_execution_result(
                price,
                exec_size,
                requested_size,
                self.spec_market_params().max_position_size,
            ),
            r is Ok <==> trade_execution_valid(
                price,
                exec_size,
                requested_size,
                self.spec_market_params().max_position_size,
            ),
    {
        if price == 0 || price > MAX_ORACLE_PRICE {
            return Err(RiskError::InvalidMatchingEngine);
        }

        if exec_size == 0 {
            return Ok(());  // no fill is valid
        }
        if exec_size == i128::MIN {
            return Err(RiskError::InvalidMatchingEngine);
        }
        if saturating_abs_i128(exec_size) as u128 > MAX_POSITION_ABS {
            return Err(RiskError::InvalidMatchingEngine);
        }

        // Must keep the requested direction.
        if (exec_size > 0) != (requested_size > 0) {
            return Err(RiskError::InvalidMatchingEngine);
        }

        // Must be a partial fill at most.
        if saturating_abs_i128(exec_size) > saturating_abs_i128(requested_size) {
            return Err(RiskError::InvalidMatchingEngine);
        }

        // Check against the configured market parameters.
        if saturating_abs_i128(exec_size) as u128 > self.market_params.max_position_size {
            return Err(RiskError::Undercollateralized);
        }

        Ok(())
    }

    /// Check proposed market parameters against the protocol bounds and the
    /// ledger engine's maintenance margin, without mutating anything.
    pub fn validate_market_params(&self, params: &MarketParams) -> (r: Result<(), RiskError>)
        ensures
            r == validate_market_params_result(
                *params,
                self.spec_engine().params.maintenance_margin_bps,
            ),
            r is Ok <==> market_params_valid(
                *params,
                self.spec_engine().params.maintenance_margin_bps,
            ),
    {
        // Max leverage must be reasonable (at most 100x).
        if params.max_leverage_bps > BPS_SCALE {
            return Err(RiskError::Overflow);
        }

        // Max position size must be within the protocol bound.
        if params.max_position_size > MAX_POSITION_ABS {
            return Err(RiskError::Overflow);
        }

        // At most all capital may be active.
        if params.active_capital_ratio_bps > BPS_SCALE {
            return Err(RiskError::Overflow);
        }

        // Min margin must be no laxer than the engine's maintenance margin.
        if params.min_margin_bps < self.engine.params.maintenance_margin_bps {
            return Err(RiskError::Undercollateralized);
        }

        Ok(())
    }

    /// Validate proposed market parameters and, on success, atomically
    /// replace the current parameters with the proposal — all six fields,
    /// never a field-by-field merge. A rejected proposal leaves the current
    /// parameters entirely unchanged.
    pub fn apply_market_params(&mut self, params: MarketParams) -> (r: Result<(), RiskError>)
        ensures
            r == validate_market_params_result(
                params,
                old(self).spec_engine().params.maintenance_margin_bps,
            ),
            r is Ok ==> final(self).spec_market_params() == params,
            r is Err ==> final(self).spec_market_params() == old(self).spec_market_params(),
            final(self).spec_engine() == old(self).spec_engine(),
            final(self).spec_shutdown() == old(self).spec_shutdown(),
            final(self).spec_frozen() == old(self).spec_frozen(),
    {
        let verdict = self.validate_market_params(&params);
        if let Err(e) = verdict {
            return Err(e);
        }
        self.market_params = params;
        Ok(())
    }

    /// Ask the policy for market parameters and apply them if they pass
    /// validation. A failure — the policy's own, or a rejected proposal —
    /// leaves the engine entirely unchanged; on success the current
    /// parameters are valid.
    pub fn update_market_params<A: OpenClawAgent>(&mut self, agent: &A) -> (r: Result<
        (),
        RiskError,
    >)
        ensures
            r is Err ==> *final(self) == *old(self),
            r is Ok ==> market_params_valid(
                final(self).spec_market_params(),
                old(self).spec_engine().params.maintenance_margin_bps,
            ),
            final(self).spec_engine() == old(self).spec_engine(),
            final(self).spec_shutdown() == old(self).spec_shutdown(),
            final(self).spec_frozen() == old(self).spec_frozen(),
    {
        // Oracle price is not needed for a parameter proposal.
        let context = self.build_context(0);
        let params = match agent.get_market_params(&context) {
            Ok(p) => p,
            Err(e) => {
                return Err(e);
            },
        };
        self.apply_market_params(params)
    }

    /// Apply a validated anomaly response to the safety state: freezing or
    /// stopping trading freezes the market, an initiated shutdown shuts the
    /// system down, and a proposed reduced position cap is applied only
    /// when it is within the protocol bound. Neither flag is ever cleared.
    pub fn apply_anomaly_actions(&mut self, actions: &AnomalyActions)
        ensures
            final(self).spec_frozen() == (old(self).spec_frozen() || actions.freeze_market
                || actions.stop_trading),
            final(self).spec_shutdown() == (old(self).spec_shutdown()
                || actions.initiate_shutdown),
            final(self).spec_market_params() == params_after_reduce_limits(
                old(self).spec_market_params(),
                actions.reduce_limits,
            ),
            final(self).spec_engine() == old(self).spec_engine(),
    {
        if actions.freeze_market {
            self.market_frozen = true;
        }

        if actions.stop_trading {
            self.market_frozen = true;
        }

        if actions.initiate_shutdown {
            self.shutdown = true;
        }

        if let Some(new_max_size) = actions.reduce_limits {
            if new_max_size <= MAX_POSITION_ABS {
                self.market_params.max_position_size = new_max_size;
            }
        }
    }

    /// Ask the policy to monitor for anomalies and apply its response to
    /// the safety state. A policy failure leaves the engine entirely
    /// unchanged; whatever the response, the safety flags only ever move
    /// from `false` to `true`, and only the position cap among the market
    /// parameters can move, never above the protocol bound.
    pub fn check_anomalies<A: OpenClawAgent>(&mut self, agent: &A, oracle_price: u64) -> (r:
        Result<(), RiskError>)
        ensures
            r is Err ==> *final(self) == *old(self),
            old(self).spec_shutdown() ==> final(self).spec_shutdown(),
            old(self).spec_frozen() ==> final(self).spec_frozen(),
            final(self).spec_engine() == old(self).spec_engine(),
            final(self).spec_market_params().max_position_size
                <= old(self).spec_market_params().max_position_size
                || final(self).spec_market_params().max_position_size <= MAX_POSITION_ABS,
            final(self).spec_market_params() == (MarketParams {
                max_position_size: final(self).spec_market_params().max_position_size,
                ..old(self).spec_market_params()
            }),
    {
        let context = self.build_context(oracle_price);
        let response = match agent.detect_anomalies(&context) {
            Ok(resp) => resp,
            Err(e) => {
                return Err(e);
            },
        };
        self.apply_anomaly_actions(&response.actions);
        Ok(())
    }

    /// Process one policy decision for a trade of the given requested size:
    /// a rejection and a quote are final and mutate nothing (quotes have no
    /// settlement path in this core); an accepted execution is checked by
    /// the trade decision validator and, exactly when the verdict is `Ok`,
    /// settled against the ledger engine through a matcher that answers
    /// with the validated pair — otherwise that verdict is returned and
    /// nothing changes.
    pub fn settle_decision(
        &mut self,
        decision: TradeDecision,
        user_idx: u16,
        oracle_price: u64,
        requested_size: i128,
        now_slot: u64,
    ) -> (r: Result<(), RiskError>)
        ensures
            decision matches TradeDecision::Reject { .. } ==> r == Err::<
                (),
                RiskError,
            >(RiskError::Unauthorized) && *final(self) == *old(self),
            decision matches TradeDecision::RequestQuote { .. } ==> r == Err::<
                (),
                RiskError,
            >(RiskError::Unauthorized) && *final(self) == *old(self),
            (decision matches TradeDecision::Accept { price, size } ==> {
                let verdict = validate_trade_execution_result(
                    price,
                    size,
                    requested_size,
                    old(self).spec_market_params().max_position_size,
                );
                &&& (verdict is Err ==> r == verdict && *final(self) == *old(self))
                &&& (verdict is Ok ==> {
                    &&& r == Ok::<(), RiskError>(())
                    &&& final(self).spec_engine() == (RiskEngine {
                        last_execution: Some(TradeExecution { price, size }),
                        ..old(self).spec_engine()
                    })
                    &&& final(self).spec_market_params() == old(self).spec_market_params()
                    &&& final(self).spec_shutdown() == old(self).spec_shutdown()
                    &&& final(self).spec_frozen() == old(self).spec_frozen()
                })
            }),
    {
        match decision {
            TradeDecision::Accept { price, size: exec_size } => {
                // Validate the policy's decision before anything settles.
                let verdict = self.validate_trade_execution(price, exec_size, requested_size);
                if let Err(e) = verdict {
                    return Err(e);
                }

                // Settle through a matcher that answers with exactly the
                // validated execution pair. The policy itself is the
                // counterparty, held at account index 0.
                let matcher = AgentMatcher { price, size: exec_size };
                let lp_idx: u16 = 0;

                self.engine.execute_trade(
                    &matcher,
                    lp_idx,
                    user_idx,
                    now_slot,
                    oracle_price,
                    requested_size,
                )
            },
            TradeDecision::Reject { reason: _ } => Err(RiskError::Unauthorized),
            TradeDecision::RequestQuote { quote_price: _, max_size: _ } => {
                // No settlement path for quotes in this core.
                Err(RiskError::Unauthorized)
            },
        }
    }

    /// Run one trade through the full enforcement flow: refuse outright if
    /// the system is shut down or the market frozen; otherwise build a
    /// snapshot, ask the policy for a decision, and hand it to
    /// `settle_decision`, which validates it and settles it against the
    /// ledger engine exactly when it is valid.
    ///
    /// Whatever the policy answers, this never touches the safety flags or
    /// the market parameters, and a trade succeeds only when the policy
    /// accepted it with an execution within every protocol bound. A policy
    /// rejection, a quote, and a policy failure all surface as errors with
    /// no state change.
    pub fn execute_trade<A: OpenClawAgent>(
        &mut self,
        agent: &A,
        user_idx: u16,
        oracle_price: u64,
        size: i128,
        now_slot: u64,
    ) -> (r: Result<(), RiskError>)
        ensures
            old(self).spec_shutdown() || old(self).spec_frozen() ==> r == Err::<
                (),
                RiskError,
            >(RiskError::Unauthorized),
            r is Err ==> *final(self) == *old(self),
            r is Ok ==> !old(self).spec_shutdown() && !old(self).spec_frozen(),
            r is Ok ==> (final(self).spec_engine().last_execution matches Some(exec)
                && trade_execution_valid(
                exec.price,
                exec.size,
                size,
                old(self).spec_market_params().max_position_size,
            )),
            final(self).spec_market_params() == old(self).spec_market_params(),
            final(self).spec_shutdown() == old(self).spec_shutdown(),
            final(self).spec_frozen() == old(self).spec_frozen(),
            final(self).spec_engine() == (RiskEngine {
                last_execution: final(self).spec_engine().last_execution,
                ..old(self).spec_engine()
            }),
    {
        // Fail fast on the safety state, before even asking the policy.
        if self.shutdown {
            return Err(RiskError::Unauthorized);
        }
        if self.market_frozen {
            return Err(RiskError::Unauthorized);
        }

        let context = self.build_context(oracle_price);

        let request = TradeRequest { user_idx, size, requested_price: None };

        let decision = match agent.decide_trade(&context, &request) {
            Ok(d) => d,
            Err(e) => {
                return Err(e);
            },
        };

        self.settle_decision(decision, user_idx, oracle_price, size, now_slot)
    }

    /// Record a validated shutdown decision: a `true` decision shuts the
    /// system down; nothing ever turns the flag back off.
    pub fn apply_shutdown_decision(&mut self, shutdown_now: bool)
        ensures
            final(self).spec_shutdown() == (old(self).spec_shutdown() || shutdown_now),
            final(self).spec_frozen() == old(self).spec_frozen(),
            final(self).spec_market_params() == old(self).spec_market_params(),
            final(self).spec_engine() == old(self).spec_engine(),
    {
        if shutdown_now {
            self.shutdown = true;
        }
    }

    /// Ask the policy whether the system should shut down, and record the
    /// decision. A policy failure leaves the engine entirely unchanged; a
    /// shutdown once entered is never left.
    pub fn check_shutdown<A: OpenClawAgent>(&mut self, agent: &A, oracle_price: u64) -> (r: Result<
        (),
        RiskError,
    >)
        ensures
            r is Err ==> *final(self) == *old(self),
            old(self).spec_shutdown() ==> final(self).spec_shutdown(),
            final(self).spec_frozen() == old(self).spec_frozen(),
            final(self).spec_market_params() == old(self).spec_market_params(),
            final(self).spec_engine() == old(self).spec_engine(),
    {
        let context = self.build_context(oracle_price);
        let shutdown_now = match agent.should_shutdown(&context) {
            Ok(b) => b,
            Err(e) => {
                return Err(e);
            },
        };
        self.apply_shutdown_decision(shutdown_now);
        Ok(())
    }

    /// The current market parameters.
    pub fn market_params(&self) -> (r: MarketParams)
        ensures
            r == self.spec_market_params(),
    {
        self.market_params
    }

    /// Whether the system is shut down.
    pub fn is_shutdown(&self) -> (r: bool)
        ensures
            r == self.spec_shutdown(),
    {
        self.shutdown
    }

    /// Whether the market is frozen.
    pub fn is_frozen(&self) -> (r: bool)
        ensures
            r == self.spec_frozen(),
    {
        self.market_frozen
    }

    /// Read access to the underlying ledger engine.
    pub fn risk_engine(&self) -> (r: &RiskEngine)
        ensures
            *r == self.spec_engine(),
    {
        &self.engine
    }

    /// Mutable access to the underlying ledger engine. The caller can move
    /// the ledger aggregates, but not the safety flags or the market
    /// parameters, which only validated decisions may touch.
    pub fn risk_engine_mut(&mut self) -> (r: &mut RiskEngine)
        ensures
            *r == old(self).spec_engine(),
            final(self).spec_engine() == *final(r),
            final(self).spec_market_params() == old(self).spec_market_params(),
            final(self).spec_shutdown() == old(self).spec_shutdown(),
            final(self).spec_frozen() == old(self).spec_frozen(),
    {
        &mut self.engine
    }
}

/// Adapter that lets the ledger engine settle a decision the enforcement
/// layer already validated: asked to match, it deterministically answers
/// with exactly that pair, so settlement is a pass-through, never a
/// re-derivation.
pub struct AgentMatcher {
    /// The validated execution price.
    pub price: u64,
    /// The validated execution size.
    pub size: i128,
}

impl MatchingEngine for AgentMatcher {
    /// Whatever is asked, the answer is the validated pair, and nothing
    /// else.
    open spec fn spec_match(&self, lp_account_id: u64, oracle_price: u64, size: i128) -> Result<
        TradeExecution,
        RiskError,
    > {
        Ok(TradeExecution { price: self.price, size: self.size })
    }

    fn execute_match(&self, lp_account_id: u64, oracle_price: u64, size: i128) -> (r: Result<
        TradeExecution,
        RiskError,
    >) {
        let _ = lp_account_id;
        let _ = oracle_price;
        let _ = size;
        Ok(TradeExecution { price: self.price, size: self.size })
    }
}

} // verus!
