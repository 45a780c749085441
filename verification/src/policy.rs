//! Data model of policy decisions, and the capability an external decision
//! policy implements.
//!
//! The policy is untrusted: nothing here assumes anything about an
//! implementation beyond its types. Every value a policy returns is
//! validated by the enforcement layer before it may mutate state.

use vstd::prelude::*;

use crate::ledger::MAX_POSITION_ABS;
use crate::ledger::RiskError;
use crate::ledger::RiskParams;

verus! {

/// Read-only, internally consistent snapshot of engine state handed to the
/// policy for decision-making. Created fresh on every decision request and
/// never mutated.
#[derive(Clone, Debug, PartialEq, Eq, Structural)]
pub struct AgentContext {
    /// Current time-step.
    pub current_slot: u64,
    /// Oracle price the decision is being made against.
    pub oracle_price: u64,
    /// Vault balance.
    pub vault: u128,
    /// Insurance fund balance.
    pub insurance_balance: u128,
    /// Total capital across all accounts.
    pub total_capital: u128,
    /// Total positive unrealized profit.
    pub total_positive_pnl: u128,
    /// Total open interest.
    pub total_open_interest: u128,
    /// Current risk parameters of the ledger engine.
    pub risk_params: RiskParams,
    /// Whether the system is in risk-reduction-only mode. The ledger engine
    /// exposes no such signal, so the snapshot always reports `false`; this
    /// is a known gap of the snapshot, not a guaranteed-correct signal.
    pub risk_reduction_mode: bool,
    /// Time-step of the last reconciliation crank.
    pub last_crank_slot: u64,
}

/// Trade request from a user.
#[derive(Clone, Copy, Debug, PartialEq, Eq, Structural)]
pub struct TradeRequest {
    /// User account index.
    pub user_idx: u16,
    /// Requested position size: positive is long, negative is short.
    pub size: i128,
    /// Caller-suggested price, if any; the policy may override it.
    pub requested_price: Option<u64>,
}

/// A policy's decision about a trade. Exactly one variant is produced per
/// decision call.
#[derive(Clone, Copy, Debug, PartialEq, Eq, Structural)]
pub enum TradeDecision {
    /// Accept the trade with the given execution details.
    Accept {
        /// Execution price.
        price: u64,
        /// Execution size; may be a partial fill of the request.
        size: i128,
    },
    /// Reject the trade.
    Reject {
        /// Reason for the rejection.
        reason: TradeRejectionReason,
    },
    /// Offer a quote instead of executing (request-for-quote). This core
    /// has no settlement path for quotes and always refuses the variant.
    RequestQuote {
        /// The policy's quote price.
        quote_price: u64,
        /// Maximum size available at that quote.
        max_size: i128,
    },
}

/// Why a policy rejected a trade.
#[derive(Clone, Copy, Debug, PartialEq, Eq, Structural)]
pub enum TradeRejectionReason {
    /// Market conditions not favorable.
    MarketConditions,
    /// Risk limits exceeded.
    RiskLimit,
    /// Insufficient liquidity.
    InsufficientLiquidity,
    /// Anomaly detected.
    AnomalyDetected,
    /// System shutdown.
    SystemShutdown,
    /// Other reason.
    Other,
}

/// Dynamic market parameters proposed by the policy and enforced by the
/// protocol. Mutated only through a validated update.
#[derive(Clone, Copy, Debug, PartialEq, Eq, Structural)]
pub struct MarketParams {
    /// Maximum leverage, in basis points.
    pub max_leverage_bps: u64,
    /// Maximum position size per account.
    pub max_position_size: u128,
    /// Bid-ask spread, in basis points.
    pub spread_bps: u64,
    /// Funding rate per time-step, in signed basis points.
    pub funding_rate_bps_per_slot: i64,
    /// Minimum margin requirement, in basis points.
    pub min_margin_bps: u64,
    /// Maximum share of capital that may actively trade, in basis points.
    pub active_capital_ratio_bps: u64,
}

impl MarketParams {
    /// The conservative defaults a fresh engine starts from: 10x leverage,
    /// the protocol-wide position cap, a 0.1% spread, no funding, 5% margin
    /// and all capital active.
    pub open spec fn spec_default() -> MarketParams {
        MarketParams {
            max_leverage_bps: 1000,
            max_position_size: MAX_POSITION_ABS,
            spread_bps: 10,
            funding_rate_bps_per_slot: 0,
            min_margin_bps: 500,
            active_capital_ratio_bps: 10000,
        }
    }
}

impl Default for MarketParams {
    fn default() -> (r: MarketParams)
        ensures
            r == MarketParams::spec_default(),
    {
        MarketParams {
            max_leverage_bps: 1000,
            max_position_size: MAX_POSITION_ABS,
            spread_bps: 10,
            funding_rate_bps_per_slot: 0,
            min_margin_bps: 500,
            active_capital_ratio_bps: 10000,
        }
    }
}

/// A policy's decision about liquidity allocation.
#[derive(Clone, Debug, PartialEq, Eq, Structural)]
pub struct LiquidityAllocation {
    /// Capital that should be actively trading.
    pub target_active_capital: u128,
    /// Capital kept back as a buffer.
    pub reserve_capital: u128,
    /// Whether to enter defensive mode.
    pub defensive_mode: bool,
}

/// A policy's risk assessment.
#[derive(Clone, Debug, PartialEq, Eq)]
pub struct RiskAssessment {
    /// Overall risk level, 0 to 10000 basis points.
    pub risk_level_bps: u64,
    /// Recommended actions.
    pub actions: RiskActions,
}

/// Actions a policy recommends in a risk assessment. The close-position
/// list has fixed capacity: the first `close_positions_len` slots are
/// occupied.
#[derive(Clone, Debug, Default, PartialEq, Eq)]
pub struct RiskActions {
    /// Reduce exposure.
    pub reduce_exposure: bool,
    /// Hedge positions.
    pub hedge: bool,
    /// Specific positions to close, at most 16 per assessment.
    pub close_positions: [u16; 16],
    /// How many leading slots of `close_positions` are occupied.
    pub close_positions_len: usize,
    /// New margin requirement in basis points, or `None` for no change.
    pub increase_margin: Option<u64>,
}

/// Kinds of anomaly a policy can report.
#[derive(Clone, Copy, Debug, PartialEq, Eq, Structural)]
pub enum AnomalyType {
    /// Oracle manipulation detected.
    OracleManipulation,
    /// High volatility.
    HighVolatility,
    /// Unusual trading patterns.
    UnusualPatterns,
    /// Liquidity crisis.
    LiquidityCrisis,
    /// Other anomaly.
    Other,
}

/// A policy's response to a detected anomaly.
#[derive(Clone, Debug, PartialEq, Eq, Structural)]
pub struct AnomalyResponse {
    /// Kind of anomaly.
    pub anomaly_type: AnomalyType,
    /// Severity, 0 to 10000 basis points.
    pub severity_bps: u64,
    /// Recommended actions.
    pub actions: AnomalyActions,
}

/// Actions a policy recommends in response to an anomaly.
#[derive(Clone, Debug, Default, PartialEq, Eq, Structural)]
pub struct AnomalyActions {
    /// Freeze the market.
    pub freeze_market: bool,
    /// New, reduced maximum position size, or `None` for no change.
    pub reduce_limits: Option<u128>,
    /// Stop trading.
    pub stop_trading: bool,
    /// Initiate a controlled shutdown.
    pub initiate_shutdown: bool,
}

/// The capability an external, swappable decision policy implements.
///
/// The policy is the sole decision-maker for all market operations, and
/// none of its answers are trusted: the enforcement layer validates every
/// decision before it is allowed to mutate state, and treats a failure
/// from any operation as the most conservative outcome for that operation.
pub trait OpenClawAgent {
    /// Decide whether to accept, reject, or quote a trade. An error is
    /// treated by the caller as a rejection.
    fn decide_trade(
        &self,
        context: &AgentContext,
        request: &TradeRequest,
    ) -> Result<TradeDecision, RiskError>;

    /// Propose the current market parameters. The protocol validates the
    /// proposal before applying it.
    fn get_market_params(&self, context: &AgentContext) -> Result<MarketParams, RiskError>;

    /// Decide how much capital should actively trade versus stay in
    /// reserve.
    fn decide_liquidity_allocation(
        &self,
        context: &AgentContext,
    ) -> Result<LiquidityAllocation, RiskError>;

    /// Assess the current risk level and recommend actions.
    fn assess_risk(&self, context: &AgentContext) -> Result<RiskAssessment, RiskError>;

    /// Monitor market conditions for anomalies and recommend a response.
    fn detect_anomalies(&self, context: &AgentContext) -> Result<AnomalyResponse, RiskError>;

    /// Decide whether the system should initiate a controlled shutdown.
    fn should_shutdown(&self, context: &AgentContext) -> Result<bool, RiskError>;
}

} // verus!
