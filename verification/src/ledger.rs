//! Boundary model of the external ledger/margin engine.
//!
//! The enforcement layer sits on top of a ledger engine that owns account
//! balances, collateral and settlement math. That engine is an external
//! collaborator: this module models exactly the slice of it that the
//! enforcement layer consumes — the aggregate totals it reads when building
//! a context snapshot, its risk parameters, and the trade-settlement entry
//! point it calls with a matching capability. Account-level bookkeeping
//! (margin, settlement, liquidation) stays outside this model.

use vstd::prelude::*;

verus! {

/// Largest oracle price the protocol accepts, in fixed-point price units.
pub const MAX_ORACLE_PRICE: u64 = 1_000_000_000_000_000_000;

/// Largest position magnitude the protocol ever allows.
pub const MAX_POSITION_ABS: u128 = 1_000_000_000_000_000_000;

/// Fixed-point scale of oracle prices: a price equal to `PRICE_SCALE`
/// represents 1.0 protocol units.
pub const PRICE_SCALE: u64 = 1_000_000;

/// Basis-point denominator: every ratio in the system is parts per 10000.
pub const BPS_SCALE: u64 = 10_000;

/// Errors surfaced by the ledger engine and the enforcement layer.
#[derive(Clone, Copy, Debug, PartialEq, Eq, Structural)]
pub enum RiskError {
    /// System shutdown, market frozen, or the policy refused the operation.
    Unauthorized,
    /// A matching engine or policy produced an execution outside protocol bounds.
    InvalidMatchingEngine,
    /// An execution or parameter violates a capital or margin bound.
    Undercollateralized,
    /// A proposed parameter exceeds a hard protocol bound.
    Overflow,
}

/// Risk parameters owned by the external ledger engine.
#[derive(Clone, Copy, Debug, PartialEq, Eq, Structural)]
pub struct RiskParams {
    pub warmup_period_slots: u64,
    pub maintenance_margin_bps: u64,
    pub initial_margin_bps: u64,
    pub trading_fee_bps: u64,
    pub max_accounts: u64,
    pub new_account_fee: u128,
    pub risk_reduction_threshold: u128,
    pub maintenance_fee_per_slot: u128,
    pub max_crank_staleness_slots: u64,
    pub liquidation_fee_bps: u64,
    pub liquidation_fee_cap: u128,
    pub liquidation_buffer_bps: u64,
    pub min_liquidation_abs: u128,
}

/// Execution record a matching engine hands back: the pair that settles.
#[derive(Clone, Copy, Debug, PartialEq, Eq, Structural)]
pub struct TradeExecution {
    pub price: u64,
    pub size: i128,
}

/// Counterparty-matching capability the ledger engine settles trades
/// through. An implementation declares what it answers as a function of
/// its own state and the request, and the ledger engine still re-checks
/// whatever execution comes back against protocol bounds.
pub trait MatchingEngine {
    /// What this matcher answers for a given request.
    spec fn spec_match(
        &self,
        lp_account_id: u64,
        oracle_price: u64,
        size: i128,
    ) -> Result<TradeExecution, RiskError>;

    /// Produce the execution pair for a requested trade against the given
    /// counterparty account at the given oracle price.
    fn execute_match(&self, lp_account_id: u64, oracle_price: u64, size: i128) -> (r: Result<
        TradeExecution,
        RiskError,
    >)
        ensures
            r == self.spec_match(lp_account_id, oracle_price, size),
    ;
}

/// Magnitude of a signed size, as the mathematical integers see it.
pub open spec fn abs_i128(v: int) -> int {
    if v < 0 {
        -v
    } else {
        v
    }
}

/// Magnitude of a signed size with the one unrepresentable case saturated:
/// `i128::MIN` maps to `i128::MAX`.
pub open spec fn sat_abs_i128(v: int) -> int {
    if v == i128::MIN as int {
        i128::MAX as int
    } else {
        abs_i128(v)
    }
}

/// Saturating magnitude of an `i128`: `i128::MIN`, whose true magnitude is
/// not representable, saturates to `i128::MAX`.
pub fn saturating_abs_i128(val: i128) -> (r: i128)
    ensures
        r == sat_abs_i128(val as int),
{
    if val == i128::MIN {
        i128::MAX
    } else if val < 0 {
        -val
    } else {
        val
    }
}

/// Aggregate view of the external ledger engine: the totals and parameters
/// the enforcement layer reads, plus the settlement entry point it calls.
pub struct RiskEngine {
    /// Current time-step counter.
    pub current_slot: u64,
    /// Pooled collateral held by the venue.
    pub vault: u128,
    /// Insurance-fund balance (loss-absorption buffer).
    pub insurance_balance: u128,
    /// Total capital across all accounts.
    pub total_capital: u128,
    /// Total positive unrealized profit.
    pub total_positive_pnl: u128,
    /// Total open interest.
    pub total_open_interest: u128,
    /// Risk parameters owned by the ledger engine.
    pub params: RiskParams,
    /// Time-step of the last reconciliation crank.
    pub last_crank_slot: u64,
    /// Execution record of the most recently settled trade, if any. It
    /// stands in for the account-level settlement effects this model keeps
    /// outside, so that what settled stays visible to contracts and tests.
    pub last_execution: Option<TradeExecution>,
}

/// A freshly initialized ledger engine: zero aggregates under the given
/// risk parameters.
pub open spec fn fresh_risk_engine(params: RiskParams) -> RiskEngine {
    RiskEngine {
        current_slot: 0,
        vault: 0,
        insurance_balance: 0,
        total_capital: 0,
        total_positive_pnl: 0,
        total_open_interest: 0,
        params,
        last_crank_slot: 0,
        last_execution: None,
    }
}

/// An execution pair the ledger engine is willing to settle: a nonzero
/// in-bounds price, and a size that is either zero (no fill) or has a
/// representable magnitude within the protocol position bound.
pub open spec fn execution_within_protocol_bounds(exec: TradeExecution) -> bool {
    &&& 0 < exec.price <= MAX_ORACLE_PRICE
    &&& (exec.size == 0 || {
        &&& exec.size != i128::MIN
        &&& abs_i128(exec.size as int) <= MAX_POSITION_ABS as int
    })
}

/// The ledger engine's verdict on a matcher's answer: the matcher's own
/// failure is passed through, an execution outside protocol bounds is
/// refused, and an execution within them settles.
pub open spec fn settlement_result(matched: Result<TradeExecution, RiskError>) -> Result<
    (),
    RiskError,
> {
    match matched {
        Ok(exec) => if execution_within_protocol_bounds(exec) {
            Ok(())
        } else {
            Err(RiskError::InvalidMatchingEngine)
        },
        Err(e) => Err(e),
    }
}

impl RiskEngine {
    /// A new ledger engine with zero aggregates.
    pub fn new(params: RiskParams) -> (r: RiskEngine)
        ensures
            r == fresh_risk_engine(params),
    {
        RiskEngine {
            current_slot: 0,
            vault: 0,
            insurance_balance: 0,
            total_capital: 0,
            total_positive_pnl: 0,
            total_open_interest: 0,
            params,
            last_crank_slot: 0,
            last_execution: None,
        }
    }

    /// Reset the engine in place to the freshly initialized state.
    pub fn init_in_place(&mut self, params: RiskParams)
        ensures
            *final(self) == fresh_risk_engine(params),
    {
        self.current_slot = 0;
        self.vault = 0;
        self.insurance_balance = 0;
        self.total_capital = 0;
        self.total_positive_pnl = 0;
        self.total_open_interest = 0;
        self.params = params;
        self.last_crank_slot = 0;
        self.last_execution = None;
    }

    /// Settle a trade through the given matching capability.
    ///
    /// The execution the matcher returns is re-checked against protocol
    /// bounds before the engine accepts it. Account-level settlement
    /// bookkeeping belongs to the external collaborator and is outside this
    /// model: the aggregate totals are left unchanged, and the accepted
    /// execution is recorded instead.
    pub fn execute_trade<M: MatchingEngine>(
        &mut self,
        matcher: &M,
        lp_idx: u16,
        user_idx: u16,
        now_slot: u64,
        oracle_price: u64,
        size: i128,
    ) -> (r: Result<(), RiskError>)
        ensures
            r == settlement_result(matcher.spec_match(lp_idx as u64, oracle_price, size)),
            r is Err ==> *final(self) == *old(self),
            r is Ok ==> *final(self) == (RiskEngine {
                last_execution: Some(matcher.spec_match(lp_idx as u64, oracle_price, size)->Ok_0),
                ..*old(self)
            }),
    {
        let _ = user_idx;
        let _ = now_slot;
        let exec = match matcher.execute_match(lp_idx as u64, oracle_price, size) {
            Ok(e) => e,
            Err(e) => {
                return Err(e);
            },
        };
        if exec.price == 0 || exec.price > MAX_ORACLE_PRICE {
            return Err(RiskError::InvalidMatchingEngine);
        }
        if exec.size != 0 {
            if exec.size == i128::MIN {
                return Err(RiskError::InvalidMatchingEngine);
            }
            let magnitude = saturating_abs_i128(exec.size);
            if magnitude as u128 > MAX_POSITION_ABS {
                return Err(RiskError::InvalidMatchingEngine);
            }
        }
        self.last_execution = Some(exec);
        Ok(())
    }
}

} // verus!
