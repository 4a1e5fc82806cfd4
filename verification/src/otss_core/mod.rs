//! The OTSS core: order lifecycle, financial types, portfolio and risk checks.
pub mod order;
pub mod portfolio;
pub mod risk;
pub mod types;

use crate::otss_core::order::{Order, OrderId};
use crate::otss_core::risk::RiskConfig;
use vstd::prelude::*;

verus! {

/// Settings of the trading engine.
#[derive(Debug, Clone, Copy)]
pub struct EngineConfig {
    /// Largest number of orders per second.
    pub max_order_rate: u32,
    /// Risk limits.
    pub risk_config: RiskConfig,
}

impl Default for EngineConfig {
    /// 100 orders per second and the default risk limits.
    fn default() -> (r: EngineConfig)
        ensures
            r.max_order_rate == 100,
            r.risk_config.max_single_order_size.dec() == crate::decimal::Decimal::mk(5000, 0),
            r.risk_config.max_position_size.dec() == crate::decimal::Decimal::mk(10000, 0),
    {
        EngineConfig { max_order_rate: 100, risk_config: RiskConfig::default() }
    }
}

/// The trading engine: takes orders under its configuration.
#[derive(Debug, Clone)]
pub struct TradingEngine {
    config: EngineConfig,
}

/// What the engine refuses.
#[derive(Debug, Clone)]
pub enum EngineError {
    OrderRejected(String),
    RiskCheckFailed(String),
    InvalidStateTransition,
}

impl EngineError {
    /// The message of the error.
    pub fn message(&self) -> (r: String)
        ensures
            r@ == match self {
                EngineError::OrderRejected(s) => "Order rejected: "@ + s@,
                EngineError::RiskCheckFailed(s) => "Risk check failed: "@ + s@,
                EngineError::InvalidStateTransition => "Invalid state transition"@,
            },
    {
        proof {
            reveal_strlit("Order rejected: ");
            reveal_strlit("Risk check failed: ");
            reveal_strlit("Invalid state transition");
        }
        match self {
            EngineError::OrderRejected(s) => {
                let mut t = String::from_str("Order rejected: ");
                t.append(s.as_str());
                t
            },
            EngineError::RiskCheckFailed(s) => {
                let mut t = String::from_str("Risk check failed: ");
                t.append(s.as_str());
                t
            },
            EngineError::InvalidStateTransition => String::from_str("Invalid state transition"),
        }
    }
}

impl TradingEngine {
    pub closed spec fn config_spec(self) -> EngineConfig {
        self.config
    }

    /// An engine with the given configuration.
    pub fn new(config: EngineConfig) -> (r: TradingEngine)
        ensures
            r.config_spec() == config,
    {
        TradingEngine { config }
    }

    /// Takes an order and answers with its identifier.
    pub fn submit_order(&self, order: Order) -> (r: Result<OrderId, EngineError>)
        ensures
            r is Ok,
            r->Ok_0.0@ == order.id_spec().0@,
    {
        Ok(OrderId(order.id().0.clone()))
    }

    /// The configuration.
    pub fn config(&self) -> (r: &EngineConfig)
        ensures
            *r == self.config_spec(),
    {
        &self.config
    }
}

} // verus!
