use otss::decimal::Decimal;
use otss::otss_core::order::{Order, OrderId, OrderSide, OrderState, OrderType};
use otss::otss_core::portfolio::{Portfolio, Position};
use otss::otss_core::risk::{RiskCheck, RiskConfig, RiskResult};
use otss::otss_core::types::{Money, Price, Quantity, Symbol};
use otss::otss_core::{EngineConfig, EngineError, TradingEngine};

fn money(text: &str) -> Money {
    Money::from_str(text).unwrap()
}

#[test]
fn test_engine_creation() {
    let engine = TradingEngine::new(EngineConfig::default());
    assert_eq!(engine.config().max_order_rate, 100);
}

#[test]
fn test_order_creation() {
    let symbol = Symbol::from_str("AAPL").unwrap();
    let qty = Quantity::from(100);
    let order = Order::market(symbol, OrderSide::Buy, qty);

    assert_eq!(order.symbol().as_str(), "AAPL");
    assert_eq!(order.side(), OrderSide::Buy);
    assert_eq!(order.quantity(), qty);
    assert_eq!(order.state(), OrderState::Created);
}

#[test]
fn test_limit_order() {
    let symbol = Symbol::from_str("TSLA").unwrap();
    let qty = Quantity::from(50);
    let price = Price::from_str("150.00").unwrap();
    let order = Order::limit(symbol, OrderSide::Sell, qty, price);

    assert!(matches!(order.order_type(), OrderType::Limit(_)));
    assert_eq!(order.side(), OrderSide::Sell);
}

#[test]
fn test_position_creation() {
    let sym = Symbol::new("AAPL");
    let qty = Quantity::from(100);
    let price = Price::from_str("150.00").unwrap();
    let pos = Position::new(sym, qty, price);

    assert_eq!(pos.quantity().to_string(), "100");
    assert!(pos.is_long());
}

#[test]
fn test_portfolio_creation() {
    let cash = Money::from_str("100000.00").unwrap();
    let portfolio = Portfolio::with_cash(cash);

    assert_eq!(portfolio.cash().to_string(), "$100000.00");
    assert_eq!(portfolio.position_count(), 0);
}

#[test]
fn test_risk_config_default() {
    let config = RiskConfig::default();
    assert_eq!(config.max_single_order_size.to_string(), "5000");
}

#[test]
fn test_check_order_size() {
    let config = RiskConfig::default();
    let risk = RiskCheck::new(config);

    let result = risk.check_order_size(Quantity::from(1000));
    assert!(result.is_accepted());

    let result = risk.check_order_size(Quantity::from(10000));
    assert!(!result.is_accepted());
}

#[test]
fn test_risk_result_types() {
    assert!(RiskResult::Accepted.is_accepted());
    assert!(!RiskResult::Accepted.is_rejected());

    let rejected = RiskResult::Rejected { reason: "Test".to_string() };
    assert!(!rejected.is_accepted());
    assert!(rejected.is_rejected());
}

#[test]
fn test_price_arithmetic() {
    let p1 = Price::from_str("100.50").unwrap();
    let p2 = Price::from_str("50.25").unwrap();

    assert_eq!((p1 + p2).to_string(), "150.75");
    assert_eq!((p1 - p2).to_string(), "50.25");
}

#[test]
fn test_symbol_creation() {
    let sym = Symbol::new("aapl");
    assert_eq!(sym.as_str(), "AAPL");
}

#[test]
fn test_money_calculation() {
    let price = Price::from_str("150.00").unwrap();
    let qty = Quantity::from(100);
    let money = Money::from_trade(price, qty);

    assert_eq!(money.to_string(), "$15000.00");
}

#[test]
fn order_rejection_reason_and_warning() {
    let rejected = RiskResult::Rejected { reason: "Too big".to_string() };
    assert_eq!(rejected.rejection_reason(), Some("Too big"));
    let warning = RiskResult::Warning { message: "High".to_string() };
    assert!(warning.is_accepted());
    assert!(!warning.is_rejected());
    assert_eq!(warning.rejection_reason(), None);
}

#[test]
fn order_size_rejection_text() {
    let risk = RiskCheck::new(RiskConfig::default());
    let result = risk.check_order_size(Quantity::from(-6000));
    assert_eq!(
        result.rejection_reason(),
        Some("Order size -6000 exceeds maximum allowed 5000")
    );
}

#[test]
fn position_limits_check_size_then_value() {
    let risk = RiskCheck::new(RiskConfig::default());
    let mut portfolio = Portfolio::with_cash(money("1000.00"));
    let sym = Symbol::new("msft");
    let result = risk.check_position_limits(&sym, Quantity::from(20000), &portfolio);
    assert_eq!(result.rejection_reason(), Some("Position size 20000 for MSFT exceeds maximum 10000"));

    let mut pos = Position::new(sym.clone(), Quantity::from(5000), Price::from_str("100").unwrap());
    pos.update_market_price(Price::from_str("300").unwrap());
    portfolio.update_position(pos);
    let result = risk.check_position_limits(&Symbol::new("MSFT"), Quantity::from(5000), &portfolio);
    assert_eq!(
        result.rejection_reason(),
        Some("Position value $1500000.00 exceeds maximum $1000000.00")
    );
    assert!(risk.check_position_limits(&Symbol::new("IBM"), Quantity::from(5000), &portfolio).is_accepted());
}

#[test]
fn exposure_rejects_warns_and_accepts() {
    let risk = RiskCheck::new(RiskConfig::default());

    let empty = Portfolio::with_cash(Money::from_decimal(Decimal::zero()));
    assert!(matches!(risk.check_portfolio_exposure(&empty), RiskResult::Accepted));

    let mut heavy = Portfolio::with_cash(money("10.00"));
    let mut pos = Position::new(Symbol::new("A"), Quantity::from(10), Price::from_str("10").unwrap());
    pos.update_market_price(Price::from_str("99").unwrap());
    heavy.update_position(pos);
    let result = risk.check_portfolio_exposure(&heavy);
    assert_eq!(result.rejection_reason(), Some("Portfolio exposure 99.00% exceeds maximum 95.00%"));

    let mut warm = Portfolio::with_cash(money("100.00"));
    let mut pos = Position::new(Symbol::new("B"), Quantity::from(9), Price::from_str("10").unwrap());
    pos.update_market_price(Price::from_str("100").unwrap());
    warm.update_position(pos);
    match risk.check_portfolio_exposure(&warm) {
        RiskResult::Warning { message } => assert_eq!(message, "Portfolio exposure high at 90.00%"),
        other => panic!("unexpected {:?}", other),
    }

    let mut light = Portfolio::with_cash(money("1000.00"));
    let mut pos = Position::new(Symbol::new("C"), Quantity::from(1), Price::from_str("10").unwrap());
    pos.update_market_price(Price::from_str("10").unwrap());
    light.update_position(pos);
    assert!(matches!(risk.check_portfolio_exposure(&light), RiskResult::Accepted));
}

#[test]
fn daily_loss_and_check_all() {
    let mut risk = RiskCheck::new(RiskConfig::default());
    let portfolio = Portfolio::with_cash(money("1000.00"));
    let sym = Symbol::new("AAPL");
    assert!(matches!(risk.check_all(&sym, Quantity::from(10), &portfolio), RiskResult::Accepted));

    risk.update_daily_pnl(money("-60000.00"));
    risk.update_daily_pnl(money("-50000.00"));
    assert_eq!(risk.daily_pnl().to_string(), "$-110000.00");
    let loss = risk.check_daily_loss();
    assert_eq!(
        loss.rejection_reason(),
        Some("Daily loss limit of $100000.00 exceeded. Current P&L: $-110000.00")
    );
    let all = risk.check_all(&sym, Quantity::from(6000), &portfolio);
    assert_eq!(all.rejection_reason(), loss.rejection_reason());
}

#[test]
fn portfolio_positions_cash_and_values() {
    let mut portfolio = Portfolio::with_cash(money("1000.00"));
    let mut a = Position::new(Symbol::new("A"), Quantity::from(10), Price::from_str("5").unwrap());
    a.update_market_price(Price::from_str("7").unwrap());
    let b = Position::new(Symbol::new("B"), Quantity::from(-4), Price::from_str("2").unwrap());
    portfolio.update_position(a);
    portfolio.update_position(b);
    assert_eq!(portfolio.position_count(), 2);
    assert_eq!(portfolio.positions().len(), 2);
    assert_eq!(portfolio.positions_value().to_string(), "$70.00");
    assert_eq!(portfolio.total_equity().to_string(), "$1070.00");
    assert_eq!(portfolio.total_unrealized_pnl().to_string(), "$20.00");

    let b = portfolio.position(&Symbol::new("B")).unwrap();
    assert!(b.is_short());
    assert_eq!(b.cost_basis().to_string(), "$8.00");
    assert!(b.market_value().is_none());
    assert!(b.unrealized_pnl().is_none());

    let replacement = Position::new(Symbol::new("A"), Quantity::from(1), Price::from_str("1").unwrap());
    portfolio.update_position(replacement);
    assert_eq!(portfolio.position_count(), 2);
    assert_eq!(portfolio.position(&Symbol::new("A")).unwrap().quantity(), Quantity::from(1));

    portfolio.position_mut(&Symbol::new("A")).unwrap().update_market_price(Price::from_str("3").unwrap());
    assert_eq!(portfolio.positions_value().to_string(), "$3.00");
    assert!(portfolio.position_mut(&Symbol::new("Z")).is_none());

    portfolio.add_cash(money("25.50"));
    assert_eq!(portfolio.cash().to_string(), "$1025.50");
    portfolio.remove_cash(money("25.50"));
    assert_eq!(portfolio.cash().to_string(), "$1000.00");
    assert_eq!(Portfolio::default().position_count(), 0);
}

#[test]
fn identifiers_and_texts() {
    let id = OrderId::new();
    let text = id.to_string();
    assert_eq!(text.len(), 36);
    assert_eq!(&text[8..9], "-");
    assert_ne!(OrderId::new().to_string(), text);
    assert_eq!(OrderId::from_str("abc").unwrap().to_string(), "abc");
    assert_eq!(OrderSide::Buy.to_string(), "BUY");
    assert_eq!(OrderState::Rejected { reason: "x".to_string() }.to_string(), "REJECTED: x");
    assert_eq!(Symbol::from_str(""), Err("Symbol cannot be empty".to_string()));
    assert_eq!(EngineError::RiskCheckFailed("limit".to_string()).message(), "Risk check failed: limit");
    assert_eq!(EngineError::InvalidStateTransition.message(), "Invalid state transition");
}

#[test]
fn submit_order_answers_with_the_order_id() {
    let engine = TradingEngine::new(EngineConfig::default());
    let order = Order::market(Symbol::new("AAPL"), OrderSide::Buy, Quantity::from(5));
    let expected = order.id().to_string();
    let id = engine.submit_order(order).unwrap();
    assert_eq!(id.to_string(), expected);
    assert_eq!(engine.config().risk_config.max_single_order_size, Quantity::from(5000));
}

#[test]
fn order_remaining_and_activity() {
    let order = Order::limit(
        Symbol::new("X"),
        OrderSide::Buy,
        Quantity::from(7),
        Price::from_str("1.5").unwrap(),
    );
    assert_eq!(order.remaining_qty(), Quantity::from(7));
    assert!(!order.is_active());
    assert!(!order.is_complete());
    let typed = Order::new(Symbol::new("Y"), OrderSide::Sell, Quantity::from(2), OrderType::Market);
    assert!(matches!(typed.order_type(), OrderType::Market));
}

#[test]
fn symbol_as_ref_gives_its_text() {
    let sym = Symbol::new("spy");
    let text: &str = sym.as_ref();
    assert_eq!(text, "SPY");
}
