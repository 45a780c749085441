//! Behaviour of the enforcement engine: trade validation, parameter
//! updates, the safety state machine, and the full policy-driven flow.

use clawcolator::ClawcolatorEngine;
use clawcolator::MarketParams;
use clawcolator::RiskError;
use clawcolator::RiskParams;
use clawcolator::ServerState;
use clawcolator::SimpleAgent;
use clawcolator::MAX_ORACLE_PRICE;
use clawcolator::MAX_POSITION_ABS;

fn base_risk_params() -> RiskParams {
    RiskParams {
        warmup_period_slots: 100,
        maintenance_margin_bps: 500,
        initial_margin_bps: 1000,
        trading_fee_bps: 10,
        max_accounts: 1000,
        new_account_fee: 0,
        risk_reduction_threshold: 0,
        maintenance_fee_per_slot: 0,
        max_crank_staleness_slots: u64::MAX,
        liquidation_fee_bps: 50,
        liquidation_fee_cap: 100_000,
        liquidation_buffer_bps: 100,
        min_liquidation_abs: 100_000,
    }
}

fn funded_engine() -> ClawcolatorEngine {
    let mut engine = ClawcolatorEngine::new(base_risk_params());
    let ledger = engine.risk_engine_mut();
    ledger.vault = 10_000_000;
    ledger.insurance_balance = 1_000_000;
    ledger.total_capital = 9_000_000;
    engine
}

fn default_agent() -> SimpleAgent {
    SimpleAgent {
        max_position_size: 1_000_000,
        max_leverage_bps: 1000,
        spread_bps: 10,
        min_margin_bps: 500,
        min_insurance_ratio_bps: 100,
    }
}

#[test]
fn trade_validation_accepts_partial_fill() {
    let engine = funded_engine();
    assert_eq!(engine.validate_trade_execution(1_000_000, 500, 1000), Ok(()));
    assert_eq!(engine.validate_trade_execution(1_000_000, -500, -1000), Ok(()));
    assert_eq!(engine.validate_trade_execution(1_000_000, 1000, 1000), Ok(()));
}

#[test]
fn trade_validation_accepts_zero_fill() {
    let engine = funded_engine();
    // A zero fill is valid whatever was requested.
    assert_eq!(engine.validate_trade_execution(1, 0, 1000), Ok(()));
    assert_eq!(engine.validate_trade_execution(1, 0, -1000), Ok(()));
    assert_eq!(engine.validate_trade_execution(1, 0, 0), Ok(()));
}

#[test]
fn trade_validation_rejects_bad_price() {
    let engine = funded_engine();
    assert_eq!(
        engine.validate_trade_execution(0, 500, 1000),
        Err(RiskError::InvalidMatchingEngine)
    );
    assert_eq!(
        engine.validate_trade_execution(MAX_ORACLE_PRICE + 1, 500, 1000),
        Err(RiskError::InvalidMatchingEngine)
    );
    assert_eq!(engine.validate_trade_execution(MAX_ORACLE_PRICE, 500, 1000), Ok(()));
}

#[test]
fn trade_validation_rejects_unrepresentable_size() {
    let engine = funded_engine();
    assert_eq!(
        engine.validate_trade_execution(1_000_000, i128::MIN, i128::MIN),
        Err(RiskError::InvalidMatchingEngine)
    );
}

#[test]
fn trade_validation_rejects_direction_flip() {
    let engine = funded_engine();
    assert_eq!(
        engine.validate_trade_execution(1_000_000, -500, 1000),
        Err(RiskError::InvalidMatchingEngine)
    );
    assert_eq!(
        engine.validate_trade_execution(1_000_000, 500, -1000),
        Err(RiskError::InvalidMatchingEngine)
    );
}

#[test]
fn trade_validation_rejects_overfill() {
    let engine = funded_engine();
    assert_eq!(
        engine.validate_trade_execution(1_000_000, 1001, 1000),
        Err(RiskError::InvalidMatchingEngine)
    );
    assert_eq!(
        engine.validate_trade_execution(1_000_000, -1001, -1000),
        Err(RiskError::InvalidMatchingEngine)
    );
}

#[test]
fn trade_validation_rejects_position_cap_violation() {
    let mut engine = funded_engine();
    let mut params = engine.market_params();
    params.max_position_size = 100;
    assert_eq!(engine.apply_market_params(params), Ok(()));

    assert_eq!(
        engine.validate_trade_execution(1_000_000, 101, 500),
        Err(RiskError::Undercollateralized)
    );
    assert_eq!(engine.validate_trade_execution(1_000_000, 100, 500), Ok(()));
}

#[test]
fn market_params_update_is_atomic_and_total() {
    let mut engine = funded_engine();
    let before = engine.market_params();

    // A rejected proposal leaves the parameters entirely unchanged.
    let mut overleveraged = before;
    overleveraged.max_leverage_bps = 15_000;
    overleveraged.spread_bps = 77;
    assert_eq!(engine.apply_market_params(overleveraged), Err(RiskError::Overflow));
    assert_eq!(engine.market_params(), before);

    // An accepted proposal replaces all six fields.
    let proposal = MarketParams {
        max_leverage_bps: 2000,
        max_position_size: 123_456,
        spread_bps: 25,
        funding_rate_bps_per_slot: -3,
        min_margin_bps: 600,
        active_capital_ratio_bps: 9_000,
    };
    assert_eq!(engine.apply_market_params(proposal), Ok(()));
    assert_eq!(engine.market_params(), proposal);
}

#[test]
fn market_params_validation_errors() {
    let engine = funded_engine();
    let good = MarketParams {
        max_leverage_bps: 2000,
        max_position_size: 1_000_000,
        spread_bps: 25,
        funding_rate_bps_per_slot: 0,
        min_margin_bps: 600,
        active_capital_ratio_bps: 10_000,
    };
    assert_eq!(engine.validate_market_params(&good), Ok(()));

    let mut p = good;
    p.max_leverage_bps = 10_001;
    assert_eq!(engine.validate_market_params(&p), Err(RiskError::Overflow));

    let mut p = good;
    p.max_position_size = MAX_POSITION_ABS + 1;
    assert_eq!(engine.validate_market_params(&p), Err(RiskError::Overflow));

    let mut p = good;
    p.active_capital_ratio_bps = 10_001;
    assert_eq!(engine.validate_market_params(&p), Err(RiskError::Overflow));

    // Below the ledger engine's 500 bps maintenance margin.
    let mut p = good;
    p.min_margin_bps = 499;
    assert_eq!(engine.validate_market_params(&p), Err(RiskError::Undercollateralized));
}

#[test]
fn update_market_params_applies_policy_proposal() {
    let mut engine = funded_engine();
    let agent = default_agent();

    assert_eq!(engine.update_market_params(&agent), Ok(()));
    let applied = engine.market_params();
    assert_eq!(applied.max_leverage_bps, 1000);
    assert_eq!(applied.max_position_size, 1_000_000);
    assert_eq!(applied.spread_bps, 10);
    assert_eq!(applied.min_margin_bps, 500);

    // A proposal breaking a hard bound is refused and changes nothing.
    let mut reckless = default_agent();
    reckless.max_leverage_bps = 15_000;
    assert_eq!(engine.update_market_params(&reckless), Err(RiskError::Overflow));
    assert_eq!(engine.market_params(), applied);
}

#[test]
fn build_context_is_idempotent() {
    let engine = funded_engine();
    let first = engine.build_context(1_000_000);
    let second = engine.build_context(1_000_000);
    assert_eq!(first, second);
    assert_eq!(first.vault, 10_000_000);
    assert_eq!(first.insurance_balance, 1_000_000);
    assert_eq!(first.total_capital, 9_000_000);
    assert_eq!(first.oracle_price, 1_000_000);
    assert!(!first.risk_reduction_mode);
}

#[test]
fn settle_decision_rejection_is_final() {
    let mut engine = funded_engine();
    let before = engine.build_context(1_000_000);

    let reject = clawcolator::TradeDecision::Reject {
        reason: clawcolator::TradeRejectionReason::MarketConditions,
    };
    assert_eq!(
        engine.settle_decision(reject, 1, 1_000_000, 1000, 1000),
        Err(RiskError::Unauthorized)
    );
    assert_eq!(engine.risk_engine().last_execution, None);
    assert_eq!(engine.build_context(1_000_000), before);
}

#[test]
fn settle_decision_refuses_quotes() {
    let mut engine = funded_engine();

    let quote = clawcolator::TradeDecision::RequestQuote { quote_price: 1_000_000, max_size: 500 };
    assert_eq!(
        engine.settle_decision(quote, 1, 1_000_000, 1000, 1000),
        Err(RiskError::Unauthorized)
    );
    assert_eq!(engine.risk_engine().last_execution, None);
}

#[test]
fn settle_decision_surfaces_validation_error() {
    let mut engine = funded_engine();

    // An accepted decision that flips the requested direction never
    // reaches settlement, and the validator's own error comes back.
    let flipped = clawcolator::TradeDecision::Accept { price: 1_000_000, size: -500 };
    assert_eq!(
        engine.settle_decision(flipped, 1, 1_000_000, 1000, 1000),
        Err(RiskError::InvalidMatchingEngine)
    );
    assert_eq!(engine.risk_engine().last_execution, None);

    // One that only breaks the configured position cap comes back as a
    // collateral error.
    let mut params = engine.market_params();
    params.max_position_size = 100;
    assert_eq!(engine.apply_market_params(params), Ok(()));
    let oversized = clawcolator::TradeDecision::Accept { price: 1_000_000, size: 500 };
    assert_eq!(
        engine.settle_decision(oversized, 1, 1_000_000, 1000, 1000),
        Err(RiskError::Undercollateralized)
    );
    assert_eq!(engine.risk_engine().last_execution, None);
}

#[test]
fn settle_decision_settles_valid_acceptance() {
    let mut engine = funded_engine();

    let accept = clawcolator::TradeDecision::Accept { price: 999_500, size: 500 };
    assert_eq!(engine.settle_decision(accept, 1, 1_000_000, 1000, 1000), Ok(()));
    assert_eq!(
        engine.risk_engine().last_execution,
        Some(clawcolator::TradeExecution { price: 999_500, size: 500 })
    );
    assert!(!engine.is_frozen());
    assert!(!engine.is_shutdown());
}

#[test]
fn execute_trade_settles_accepted_decision() {
    let mut engine = funded_engine();
    let agent = default_agent();

    assert_eq!(engine.execute_trade(&agent, 1, 1_000_000, 1000, 1000), Ok(()));
    // The recorded settlement is exactly the policy's validated decision.
    assert_eq!(
        engine.risk_engine().last_execution,
        Some(clawcolator::TradeExecution { price: 1_001_000, size: 1000 })
    );
    assert!(!engine.is_frozen());
    assert!(!engine.is_shutdown());
}

#[test]
fn execute_trade_surfaces_policy_rejection() {
    let mut engine = funded_engine();
    let agent = default_agent();

    // The policy rejects a request over its own position limit, and
    // nothing settles.
    assert_eq!(
        engine.execute_trade(&agent, 1, 1_000_000, 2_000_000, 1000),
        Err(RiskError::Unauthorized)
    );
    assert_eq!(engine.risk_engine().last_execution, None);
}

#[test]
fn execute_trade_refused_when_frozen_or_shutdown() {
    let agent = default_agent();

    let mut frozen = funded_engine();
    // Deplete the insurance fund under the defensive floor and let the
    // policy's anomaly response freeze the market.
    frozen.risk_engine_mut().insurance_balance = 50_000;
    assert_eq!(frozen.check_anomalies(&agent, 1_000_000), Ok(()));
    assert!(frozen.is_frozen());
    assert_eq!(
        frozen.execute_trade(&agent, 1, 1_000_000, 1000, 1000),
        Err(RiskError::Unauthorized)
    );

    let mut shut = funded_engine();
    shut.risk_engine_mut().insurance_balance = 50_000;
    assert_eq!(shut.check_shutdown(&agent, 1_000_000), Ok(()));
    assert!(shut.is_shutdown());
    assert_eq!(
        shut.execute_trade(&agent, 1, 1_000_000, 1000, 1000),
        Err(RiskError::Unauthorized)
    );
}

#[test]
fn shutdown_scenario_insurance_ratio() {
    let agent = default_agent();
    let mut engine = funded_engine();

    // Ratio 1000 bps: the policy sees no reason to shut down.
    assert_eq!(engine.check_shutdown(&agent, 1_000_000), Ok(()));
    assert!(!engine.is_shutdown());

    // Ratio 50 bps, under the 100 bps floor: shutdown, and it sticks.
    engine.risk_engine_mut().insurance_balance = 50_000;
    assert_eq!(engine.check_shutdown(&agent, 1_000_000), Ok(()));
    assert!(engine.is_shutdown());
}

#[test]
fn safety_flags_are_monotonic() {
    let agent = default_agent();
    let mut engine = funded_engine();

    // Freeze and shut down through a depleted insurance fund.
    engine.risk_engine_mut().insurance_balance = 0;
    assert_eq!(engine.check_anomalies(&agent, 1_000_000), Ok(()));
    assert_eq!(engine.check_shutdown(&agent, 1_000_000), Ok(()));
    assert!(engine.is_frozen());
    assert!(engine.is_shutdown());

    // Conditions recover, and every core operation runs again: the flags
    // never go back to false.
    engine.risk_engine_mut().insurance_balance = 5_000_000;
    assert_eq!(engine.check_anomalies(&agent, 1_000_000), Ok(()));
    assert_eq!(engine.check_shutdown(&agent, 1_000_000), Ok(()));
    assert_eq!(engine.update_market_params(&agent), Ok(()));
    assert_eq!(
        engine.execute_trade(&agent, 1, 1_000_000, 1000, 1000),
        Err(RiskError::Unauthorized)
    );
    assert!(engine.is_frozen());
    assert!(engine.is_shutdown());
}

#[test]
fn anomaly_reduce_limits_applied_only_within_bounds() {
    let mut engine = funded_engine();
    let before = engine.market_params();

    let mut actions = clawcolator::AnomalyActions::default();
    actions.reduce_limits = Some(42);
    engine.apply_anomaly_actions(&actions);
    assert_eq!(engine.market_params().max_position_size, 42);
    assert_eq!(engine.market_params().max_leverage_bps, before.max_leverage_bps);
    assert!(!engine.is_frozen());
    assert!(!engine.is_shutdown());

    // A proposed cap above the protocol bound is silently ignored.
    let mut oversized = clawcolator::AnomalyActions::default();
    oversized.reduce_limits = Some(MAX_POSITION_ABS + 1);
    engine.apply_anomaly_actions(&oversized);
    assert_eq!(engine.market_params().max_position_size, 42);
}

#[test]
fn anomaly_actions_drive_safety_flags() {
    let mut engine = funded_engine();

    let mut freeze = clawcolator::AnomalyActions::default();
    freeze.freeze_market = true;
    engine.apply_anomaly_actions(&freeze);
    assert!(engine.is_frozen());
    assert!(!engine.is_shutdown());

    let mut stop = clawcolator::AnomalyActions::default();
    stop.stop_trading = true;
    let mut engine2 = funded_engine();
    engine2.apply_anomaly_actions(&stop);
    assert!(engine2.is_frozen());

    let mut shutdown = clawcolator::AnomalyActions::default();
    shutdown.initiate_shutdown = true;
    let mut engine3 = funded_engine();
    engine3.apply_anomaly_actions(&shutdown);
    assert!(engine3.is_shutdown());
    assert!(!engine3.is_frozen());
}

#[test]
fn init_in_place_restores_fresh_state() {
    let mut engine = funded_engine();
    let agent = default_agent();
    engine.risk_engine_mut().insurance_balance = 0;
    assert_eq!(engine.check_shutdown(&agent, 1_000_000), Ok(()));
    assert!(engine.is_shutdown());

    engine.init_in_place(base_risk_params());
    assert!(!engine.is_shutdown());
    assert!(!engine.is_frozen());
    assert_eq!(engine.risk_engine().vault, 0);
    assert_eq!(engine.risk_engine().last_execution, None);
    assert_eq!(engine.market_params(), MarketParams::default());
}

#[test]
fn server_state_wires_engine_and_agent() {
    let state = ServerState::new(default_agent());
    assert!(!state.engine.is_shutdown());
    assert!(!state.engine.is_frozen());
    assert_eq!(state.engine.risk_engine().params.maintenance_margin_bps, 500);
    assert_eq!(state.engine.risk_engine().params.max_crank_staleness_slots, u64::MAX);
    assert_eq!(state.engine.market_params(), MarketParams::default());
    assert_eq!(state.agent, default_agent());
}

#[test]
fn saturating_abs_handles_extremes() {
    assert_eq!(clawcolator::saturating_abs_i128(i128::MIN), i128::MAX);
    assert_eq!(clawcolator::saturating_abs_i128(-5), 5);
    assert_eq!(clawcolator::saturating_abs_i128(7), 7);
    assert_eq!(clawcolator::saturating_abs_i128(0), 0);
}
