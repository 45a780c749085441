//! A simple reference policy.
//!
//! The enforcement layer assumes nothing about a policy, so this one exists
//! for callers and tests that need a concrete, predictable decision-maker:
//! it quotes the oracle price adjusted by a configured spread, fills
//! requests completely or not at all, refuses anything beyond its position
//! and leverage limits, and watches the insurance-fund ratio for distress.

use vstd::prelude::*;

use crate::ledger::abs_i128;
use crate::ledger::saturating_abs_i128;
use crate::ledger::RiskError;
use crate::ledger::BPS_SCALE;
use crate::ledger::MAX_ORACLE_PRICE;
use crate::ledger::MAX_POSITION_ABS;
use crate::ledger::PRICE_SCALE;
use crate::policy::AgentContext;
use crate::policy::AnomalyActions;
use crate::policy::AnomalyResponse;
use crate::policy::AnomalyType;
use crate::policy::LiquidityAllocation;
use crate::policy::MarketParams;
use crate::policy::OpenClawAgent;
use crate::policy::RiskActions;
use crate::policy::RiskAssessment;
use crate::policy::TradeDecision;
use crate::policy::TradeRejectionReason;
use crate::policy::TradeRequest;

verus! {

/// Insurance ratio under which the simple policy turns defensive: it stops
/// trading and holds back reserve capital.
pub const DEFENSIVE_INSURANCE_RATIO_BPS: u64 = 500;

/// Risk level at and above which the simple policy recommends reducing
/// exposure.
pub const HIGH_RISK_BPS: u64 = 8000;

/// A deterministic, conservative decision policy with fixed configured
/// limits.
#[derive(Clone, Copy, Debug, PartialEq, Eq, Structural)]
pub struct SimpleAgent {
    /// Largest position magnitude the policy fills.
    pub max_position_size: u128,
    /// Largest leverage the policy tolerates, in basis points.
    pub max_leverage_bps: u64,
    /// Spread the policy quotes around the oracle price, in basis points.
    pub spread_bps: u64,
    /// Minimum margin the policy proposes, in basis points.
    pub min_margin_bps: u64,
    /// Insurance ratio under which the policy asks for a shutdown.
    pub min_insurance_ratio_bps: u64,
}

/// A `u128` product, saturating at `u128::MAX`, as the integers see it.
pub open spec fn sat_mul_u128(a: int, b: int) -> int {
    if a * b > u128::MAX as int {
        u128::MAX as int
    } else {
        a * b
    }
}

/// Scaling a value to basis points saturates exactly when the value is
/// above `u128::MAX / BPS_SCALE`.
proof fn lemma_bps_scaling_saturation(value: u128)
    ensures
        value <= u128::MAX / (BPS_SCALE as u128) ==> value * (BPS_SCALE as int) <= u128::MAX as int,
        value > u128::MAX / (BPS_SCALE as u128) ==> value * (BPS_SCALE as int) > u128::MAX as int,
{
    let limit = u128::MAX / (BPS_SCALE as u128);
    assert(value <= limit ==> value * (BPS_SCALE as int) <= u128::MAX as int) by (nonlinear_arith)
        requires
            limit == u128::MAX / (BPS_SCALE as u128),
    ;
    assert(value > limit ==> value * (BPS_SCALE as int) > u128::MAX as int) by (nonlinear_arith)
        requires
            limit == u128::MAX / (BPS_SCALE as u128),
    ;
}

/// Insurance-fund health in basis points: the insurance balance over the
/// vault balance, scaled to basis points with a saturating product.
/// Meaningful only when the vault is nonempty.
pub open spec fn insurance_ratio_bps(vault: int, insurance: int) -> int {
    sat_mul_u128(insurance, BPS_SCALE as int) / vault
}

/// Spread adjustment for an oracle price, in price units, rounded down.
pub open spec fn spread_amount(oracle_price: int, spread_bps: int) -> int {
    oracle_price * spread_bps / (BPS_SCALE as int)
}

/// Leverage a filled request would put on the venue, in basis points: the
/// notional (magnitude times price, in protocol units) over total capital.
/// Meaningful only when total capital is nonzero.
pub open spec fn trade_leverage_bps(oracle_price: int, size: int, total_capital: int) -> int {
    abs_i128(size) * oracle_price / (PRICE_SCALE as int) * (BPS_SCALE as int) / total_capital
}

/// The simple policy's trade decision, checks in order: reject on an
/// unusable oracle price; accept a zero request as a zero fill; reject an
/// unrepresentable or over-limit magnitude; reject when the venue has no
/// capital; reject when the filled request would exceed the leverage limit;
/// otherwise fill completely at the oracle price moved by the spread
/// against the taker — up for a long, down for a short — rejecting quotes
/// pushed outside the valid price range.
pub open spec fn simple_trade_decision(
    agent: SimpleAgent,
    context: AgentContext,
    request: TradeRequest,
) -> TradeDecision {
    if context.oracle_price == 0 || context.oracle_price > MAX_ORACLE_PRICE {
        TradeDecision::Reject { reason: TradeRejectionReason::MarketConditions }
    } else if request.size == 0 {
        TradeDecision::Accept { price: context.oracle_price, size: 0 }
    } else if request.size == i128::MIN {
        TradeDecision::Reject { reason: TradeRejectionReason::RiskLimit }
    } else if abs_i128(request.size as int) > agent.max_position_size as int || abs_i128(
        request.size as int,
    ) > MAX_POSITION_ABS as int {
        TradeDecision::Reject { reason: TradeRejectionReason::RiskLimit }
    } else if context.total_capital == 0 {
        TradeDecision::Reject { reason: TradeRejectionReason::InsufficientLiquidity }
    } else if trade_leverage_bps(
        context.oracle_price as int,
        request.size as int,
        context.total_capital as int,
    ) > agent.max_leverage_bps as int {
        TradeDecision::Reject { reason: TradeRejectionReason::RiskLimit }
    } else {
        let adjustment = spread_amount(context.oracle_price as int, agent.spread_bps as int);
        if request.size > 0 {
            let quoted = context.oracle_price + adjustment;
            if quoted > MAX_ORACLE_PRICE as int {
                TradeDecision::Reject { reason: TradeRejectionReason::MarketConditions }
            } else {
                TradeDecision::Accept { price: quoted as u64, size: request.size }
            }
        } else {
            if adjustment >= context.oracle_price as int {
                TradeDecision::Reject { reason: TradeRejectionReason::MarketConditions }
            } else {
                TradeDecision::Accept {
                    price: (context.oracle_price - adjustment) as u64,
                    size: request.size,
                }
            }
        }
    }
}

/// The simple policy asks for a shutdown exactly when the vault holds
/// funds and the insurance ratio has fallen under its configured floor.
pub open spec fn simple_shutdown_decision(agent: SimpleAgent, context: AgentContext) -> bool {
    context.vault > 0 && insurance_ratio_bps(context.vault as int, context.insurance_balance as int)
        < agent.min_insurance_ratio_bps as int
}

/// Whether the simple policy considers the venue in liquidity distress:
/// the vault holds funds and the insurance ratio is under the defensive
/// floor.
pub open spec fn simple_liquidity_distress(context: AgentContext) -> bool {
    context.vault > 0 && insurance_ratio_bps(context.vault as int, context.insurance_balance as int)
        < DEFENSIVE_INSURANCE_RATIO_BPS as int
}

/// The market parameters the simple policy proposes: its configured limits,
/// no funding, and all capital active.
pub open spec fn simple_market_params(agent: SimpleAgent) -> MarketParams {
    MarketParams {
        max_leverage_bps: agent.max_leverage_bps,
        max_position_size: agent.max_position_size,
        spread_bps: agent.spread_bps,
        funding_rate_bps_per_slot: 0,
        min_margin_bps: agent.min_margin_bps,
        active_capital_ratio_bps: BPS_SCALE,
    }
}

/// The liquidity allocation the simple policy chooses: everything active in
/// calm conditions; in distress, half the capital goes to reserve and the
/// policy turns defensive.
pub open spec fn simple_liquidity_allocation(context: AgentContext) -> LiquidityAllocation {
    if simple_liquidity_distress(context) {
        LiquidityAllocation {
            target_active_capital: (context.total_capital / 2) as u128,
            reserve_capital: (context.total_capital - context.total_capital / 2) as u128,
            defensive_mode: true,
        }
    } else {
        LiquidityAllocation {
            target_active_capital: context.total_capital,
            reserve_capital: 0,
            defensive_mode: false,
        }
    }
}

/// The risk level the simple policy reports, in basis points: open interest
/// over total capital, saturating, capped at 10000; a venue with open
/// interest and no capital is maximally risky.
pub open spec fn simple_risk_level_bps(context: AgentContext) -> int {
    if context.total_capital == 0 {
        if context.total_open_interest > 0 {
            BPS_SCALE as int
        } else {
            0
        }
    } else {
        let utilization = sat_mul_u128(context.total_open_interest as int, BPS_SCALE as int)
            / context.total_capital as int;
        if utilization > BPS_SCALE as int {
            BPS_SCALE as int
        } else {
            utilization
        }
    }
}

/// Every trade the simple policy accepts passes the protocol's trade
/// validation, as long as the venue's configured position cap is at least
/// the policy's own.
pub proof fn lemma_simple_agent_accepts_valid(
    agent: SimpleAgent,
    context: AgentContext,
    request: TradeRequest,
    venue_max_position_size: u128,
)
    requires
        agent.max_position_size <= venue_max_position_size,
    ensures
        (simple_trade_decision(agent, context, request) matches TradeDecision::Accept {
            price,
            size,
        } ==> crate::engine::trade_execution_valid(
            price,
            size,
            request.size,
            venue_max_position_size,
        )),
{
}

impl SimpleAgent {
    /// Insurance-fund health of a snapshot in basis points.
    fn insurance_ratio(vault: u128, insurance: u128) -> (r: u128)
        requires
            vault > 0,
        ensures
            r == insurance_ratio_bps(vault as int, insurance as int),
    {
        proof {
            lemma_bps_scaling_saturation(insurance);
        }
        let limit: u128 = u128::MAX / (BPS_SCALE as u128);
        let scaled: u128 = if insurance > limit {
            u128::MAX
        } else {
            insurance * (BPS_SCALE as u128)
        };
        assert(scaled == sat_mul_u128(insurance as int, BPS_SCALE as int));
        scaled / vault
    }
}

impl OpenClawAgent for SimpleAgent {
    fn decide_trade(&self, context: &AgentContext, request: &TradeRequest) -> (r: Result<
        TradeDecision,
        RiskError,
    >)
        ensures
            r == Ok::<TradeDecision, RiskError>(simple_trade_decision(*self, *context, *request)),
    {
        let oracle = context.oracle_price;
        if oracle == 0 || oracle > MAX_ORACLE_PRICE {
            return Ok(TradeDecision::Reject { reason: TradeRejectionReason::MarketConditions });
        }
        if request.size == 0 {
            return Ok(TradeDecision::Accept { price: oracle, size: 0 });
        }
        if request.size == i128::MIN {
            return Ok(TradeDecision::Reject { reason: TradeRejectionReason::RiskLimit });
        }

        let magnitude = saturating_abs_i128(request.size) as u128;
        if magnitude > self.max_position_size || magnitude > MAX_POSITION_ABS {
            return Ok(TradeDecision::Reject { reason: TradeRejectionReason::RiskLimit });
        }
        if context.total_capital == 0 {
            return Ok(TradeDecision::Reject { reason: TradeRejectionReason::InsufficientLiquidity });
        }

        // magnitude and oracle are both within the protocol bounds, so the
        // notional and the leverage fit comfortably in 128 bits.
        assert(magnitude * oracle <= MAX_POSITION_ABS * MAX_ORACLE_PRICE) by (nonlinear_arith)
            requires
                magnitude <= MAX_POSITION_ABS,
                oracle <= MAX_ORACLE_PRICE,
        ;
        let notional: u128 = magnitude * (oracle as u128) / (PRICE_SCALE as u128);
        let leverage_bps: u128 = notional * (BPS_SCALE as u128) / context.total_capital;
        if leverage_bps > self.max_leverage_bps as u128 {
            return Ok(TradeDecision::Reject { reason: TradeRejectionReason::RiskLimit });
        }

        assert((oracle as u128) * (self.spread_bps as u128) <= (u64::MAX as u128) * (
        u64::MAX as u128)) by (nonlinear_arith)
            requires
                oracle <= u64::MAX,
                self.spread_bps <= u64::MAX,
        ;
        let adjustment: u128 = (oracle as u128) * (self.spread_bps as u128) / (BPS_SCALE as u128);
        if request.size > 0 {
            let quoted: u128 = oracle as u128 + adjustment;
            if quoted > MAX_ORACLE_PRICE as u128 {
                return Ok(TradeDecision::Reject { reason: TradeRejectionReason::MarketConditions });
            }
            Ok(TradeDecision::Accept { price: quoted as u64, size: request.size })
        } else {
            if adjustment >= oracle as u128 {
                return Ok(TradeDecision::Reject { reason: TradeRejectionReason::MarketConditions });
            }
            Ok(TradeDecision::Accept { price: oracle - adjustment as u64, size: request.size })
        }
    }

    fn get_market_params(&self, context: &AgentContext) -> (r: Result<MarketParams, RiskError>)
        ensures
            r == Ok::<MarketParams, RiskError>(simple_market_params(*self)),
    {
        let _ = context;
        Ok(
            MarketParams {
                max_leverage_bps: self.max_leverage_bps,
                max_position_size: self.max_position_size,
                spread_bps: self.spread_bps,
                funding_rate_bps_per_slot: 0,
                min_margin_bps: self.min_margin_bps,
                active_capital_ratio_bps: BPS_SCALE,
            },
        )
    }

    fn decide_liquidity_allocation(&self, context: &AgentContext) -> (r: Result<
        LiquidityAllocation,
        RiskError,
    >)
        ensures
            r == Ok::<LiquidityAllocation, RiskError>(simple_liquidity_allocation(*context)),
    {
        let distressed = if context.vault > 0 {
            let ratio = SimpleAgent::insurance_ratio(context.vault, context.insurance_balance);
            ratio < DEFENSIVE_INSURANCE_RATIO_BPS as u128
        } else {
            false
        };
        if distressed {
            let target = context.total_capital / 2;
            Ok(
                LiquidityAllocation {
                    target_active_capital: target,
                    reserve_capital: context.total_capital - target,
                    defensive_mode: true,
                },
            )
        } else {
            Ok(
                LiquidityAllocation {
                    target_active_capital: context.total_capital,
                    reserve_capital: 0,
                    defensive_mode: false,
                },
            )
        }
    }

    fn assess_risk(&self, context: &AgentContext) -> (r: Result<RiskAssessment, RiskError>)
        ensures
            r is Ok,
            (r->Ok_0).risk_level_bps == simple_risk_level_bps(*context),
            (r->Ok_0).actions.reduce_exposure == (simple_risk_level_bps(*context)
                >= HIGH_RISK_BPS as int),
            !(r->Ok_0).actions.hedge,
            (r->Ok_0).actions.close_positions_len == 0,
            (r->Ok_0).actions.increase_margin is None,
    {
        let level: u64 = if context.total_capital == 0 {
            if context.total_open_interest > 0 {
                BPS_SCALE
            } else {
                0
            }
        } else {
            proof {
                lemma_bps_scaling_saturation(context.total_open_interest);
            }
            let limit: u128 = u128::MAX / (BPS_SCALE as u128);
            let scaled: u128 = if context.total_open_interest > limit {
                u128::MAX
            } else {
                context.total_open_interest * (BPS_SCALE as u128)
            };
            assert(scaled == sat_mul_u128(context.total_open_interest as int, BPS_SCALE as int));
            let utilization = scaled / context.total_capital;
            if utilization > BPS_SCALE as u128 {
                BPS_SCALE
            } else {
                utilization as u64
            }
        };
        Ok(
            RiskAssessment {
                risk_level_bps: level,
                actions: RiskActions {
                    reduce_exposure: level >= HIGH_RISK_BPS,
                    hedge: false,
                    close_positions: [0u16;16],
                    close_positions_len: 0,
                    increase_margin: None,
                },
            },
        )
    }

    fn detect_anomalies(&self, context: &AgentContext) -> (r: Result<AnomalyResponse, RiskError>)
        ensures
            simple_liquidity_distress(*context) ==> r == Ok::<AnomalyResponse, RiskError>(
                AnomalyResponse {
                    anomaly_type: AnomalyType::LiquidityCrisis,
                    severity_bps: BPS_SCALE,
                    actions: AnomalyActions {
                        freeze_market: false,
                        reduce_limits: None,
                        stop_trading: true,
                        initiate_shutdown: false,
                    },
                },
            ),
            !simple_liquidity_distress(*context) ==> r == Ok::<AnomalyResponse, RiskError>(
                AnomalyResponse {
                    anomaly_type: AnomalyType::Other,
                    severity_bps: 0,
                    actions: AnomalyActions {
                        freeze_market: false,
                        reduce_limits: None,
                        stop_trading: false,
                        initiate_shutdown: false,
                    },
                },
            ),
    {
        let distressed = if context.vault > 0 {
            let ratio = SimpleAgent::insurance_ratio(context.vault, context.insurance_balance);
            ratio < DEFENSIVE_INSURANCE_RATIO_BPS as u128
        } else {
            false
        };
        if distressed {
            Ok(
                AnomalyResponse {
                    anomaly_type: AnomalyType::LiquidityCrisis,
                    severity_bps: BPS_SCALE,
                    actions: AnomalyActions {
                        freeze_market: false,
                        reduce_limits: None,
                        stop_trading: true,
                        initiate_shutdown: false,
                    },
                },
            )
        } else {
            Ok(
                AnomalyResponse {
                    anomaly_type: AnomalyType::Other,
                    severity_bps: 0,
                    actions: AnomalyActions {
                        freeze_market: false,
                        reduce_limits: None,
                        stop_trading: false,
                        initiate_shutdown: false,
                    },
                },
            )
        }
    }

    fn should_shutdown(&self, context: &AgentContext) -> (r: Result<bool, RiskError>)
        ensures
            r == Ok::<bool, RiskError>(simple_shutdown_decision(*self, *context)),
    {
        if context.vault == 0 {
            return Ok(false);
        }
        let ratio = SimpleAgent::insurance_ratio(context.vault, context.insurance_balance);
        Ok(ratio < self.min_insurance_ratio_bps as u128)
    }
}

} // verus!
