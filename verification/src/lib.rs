//! Clawcolator: a protocol-owned enforcement layer for a leveraged-trading
//! venue that delegates every market decision to an untrusted, pluggable
//! policy and independently validates each decision before it may touch
//! ledger state.
//!
//! The enforcement layer guarantees, by proof, that no policy output can
//! violate the protocol invariants: position limits, price bounds,
//! partial-fill-only semantics, parameter bounds, and monotonic safety
//! states. All arithmetic is deterministic fixed-point integer arithmetic
//! with explicit overflow handling.

mod agent;
mod engine;
mod ledger;
mod policy;
mod server;

pub use server::ServerState;
pub use server::server_base_params;

pub use agent::SimpleAgent;
pub use agent::DEFENSIVE_INSURANCE_RATIO_BPS;
pub use agent::HIGH_RISK_BPS;
pub use agent::insurance_ratio_bps;
pub use agent::lemma_simple_agent_accepts_valid;
pub use agent::sat_mul_u128;
pub use agent::simple_liquidity_allocation;
pub use agent::simple_liquidity_distress;
pub use agent::simple_market_params;
pub use agent::simple_risk_level_bps;
pub use agent::simple_shutdown_decision;
pub use agent::simple_trade_decision;
pub use agent::spread_amount;
pub use agent::trade_leverage_bps;
pub use engine::lemma_accepted_trade_is_partial_fill;
pub use engine::lemma_accepted_trade_price_in_bounds;
pub use engine::lemma_accepted_trade_within_position_cap;
pub use engine::market_params_valid;
pub use engine::params_after_reduce_limits;
pub use engine::trade_execution_valid;
pub use engine::validate_market_params_result;
pub use engine::validate_trade_execution_result;
pub use ledger::abs_i128;
pub use ledger::execution_within_protocol_bounds;
pub use ledger::fresh_risk_engine;
pub use ledger::sat_abs_i128;
pub use ledger::settlement_result;

pub use engine::ClawcolatorEngine;
pub use engine::context_of;

pub use policy::AgentContext;
pub use policy::TradeRequest;
pub use policy::TradeDecision;
pub use policy::TradeRejectionReason;
pub use policy::MarketParams;
pub use policy::LiquidityAllocation;
pub use policy::RiskAssessment;
pub use policy::RiskActions;
pub use policy::AnomalyType;
pub use policy::AnomalyResponse;
pub use policy::AnomalyActions;
pub use policy::OpenClawAgent;

pub use ledger::MAX_ORACLE_PRICE;
pub use ledger::MAX_POSITION_ABS;
pub use ledger::PRICE_SCALE;
pub use ledger::BPS_SCALE;
pub use ledger::RiskError;
pub use ledger::RiskParams;
pub use ledger::TradeExecution;
pub use ledger::MatchingEngine;
pub use ledger::RiskEngine;
pub use ledger::saturating_abs_i128;
