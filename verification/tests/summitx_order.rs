use otss::decimal::Decimal;
use otss::summitx::order::{
    Fill, Order, OrderId, OrderSide, OrderStatus, OrderStatusTransitionError, TimeInForce, UtcTimestamp,
};

fn d(n: i64) -> Decimal {
    Decimal::from_i64(n)
}

#[test]
fn test_order_id() {
    let id1 = OrderId::new("order-123");
    let id2 = OrderId::from("order-123");
    let id3 = OrderId::from("order-456".to_string());

    assert_eq!(id1.as_str(), "order-123");
    assert_eq!(id1, id2);
    assert_ne!(id1, id3);
}

#[test]
fn test_order_side() {
    assert!(OrderSide::Buy.is_buy());
    assert!(!OrderSide::Buy.is_sell());
    assert_eq!(OrderSide::Buy.sign(), Decimal::one());

    assert!(OrderSide::Sell.is_sell());
    assert!(!OrderSide::Sell.is_buy());
    assert_eq!(OrderSide::Sell.sign(), Decimal::negative_one());
}

#[test]
fn test_time_in_force() {
    assert!(TimeInForce::IOC.requires_immediate());
    assert!(TimeInForce::FOK.requires_immediate());
    assert!(!TimeInForce::Day.requires_immediate());

    assert!(TimeInForce::IOC.allows_partial());
    assert!(!TimeInForce::FOK.allows_partial());
    assert!(TimeInForce::GTC.allows_partial());

    assert!(TimeInForce::GTC.persists());
    assert!(!TimeInForce::Day.persists());
    assert!(!TimeInForce::IOC.persists());
}

#[test]
fn test_order_status_transitions() {
    assert!(OrderStatus::Pending.transition(OrderStatus::Submitted).is_ok());
    assert!(OrderStatus::Pending.transition(OrderStatus::Cancelled).is_ok());
    assert!(OrderStatus::Submitted.transition(OrderStatus::PartialFill).is_ok());
    assert!(OrderStatus::PartialFill.transition(OrderStatus::Filled).is_ok());

    assert!(OrderStatus::Filled.transition(OrderStatus::Pending).is_err());
    assert!(OrderStatus::Filled.transition(OrderStatus::Submitted).is_err());
    assert!(OrderStatus::Pending.transition(OrderStatus::Filled).is_err());
}

#[test]
fn test_order_lifecycle() {
    let mut order =
        Order::new("abc-123", "BTC-USD", OrderSide::Buy, Decimal::parse("100.5").unwrap()).with_price(d(50000));

    assert_eq!(order.status, OrderStatus::Pending);
    assert!(order.is_limit());
    assert!(!order.is_market());

    order.transition_status(OrderStatus::Submitted).unwrap();
    assert_eq!(order.status, OrderStatus::Submitted);
}

#[test]
fn test_fill_creation() {
    let fill = Fill::new("order-1", "fill-123", "BTC-USD", d(10), d(50000));

    assert_eq!(fill.order_id.as_str(), "order-1");
    assert_eq!(fill.fill_id, "fill-123");
    assert_eq!(fill.notional(), d(500000));
}

#[test]
fn test_fill_with_timestamp() {
    let ts = UtcTimestamp::now();
    let fill = Fill::with_timestamp("order-1", "fill-123", "BTC-USD", d(10), d(50000), ts);

    assert_eq!(fill.timestamp, ts);
}

#[test]
fn test_order_builder_pattern() {
    let order = Order::new("xyz-789", "ETH-USD", OrderSide::Sell, d(50))
        .with_price(d(3000))
        .with_tif(TimeInForce::GTC)
        .with_status(OrderStatus::Submitted);

    assert_eq!(order.id.as_str(), "xyz-789");
    assert_eq!(order.symbol, "ETH-USD");
    assert_eq!(order.side, OrderSide::Sell);
    assert_eq!(order.tif, TimeInForce::GTC);
    assert_eq!(order.status, OrderStatus::Submitted);
}

#[test]
fn refused_status_transition_leaves_order_unchanged() {
    let mut order = Order::new("o", "BTC", OrderSide::Buy, d(1)).with_status(OrderStatus::Filled);
    let err = order.transition_status(OrderStatus::Cancelled).unwrap_err();
    assert_eq!(err, OrderStatusTransitionError::TerminalState(OrderStatus::Filled));
    assert_eq!(order.status, OrderStatus::Filled);
    assert!(order.is_market());
    assert_eq!(
        OrderStatus::Pending.transition(OrderStatus::PartialFill),
        Err(OrderStatusTransitionError::InvalidTransition { from: OrderStatus::Pending, to: OrderStatus::PartialFill })
    );
    assert!(OrderStatus::PartialFill.is_open());
    assert!(!OrderStatus::Rejected.can_cancel());
    assert_eq!(OrderId::new("abc").into_string(), "abc");
}

#[test]
fn clock_instant_is_after_epoch_with_subsecond_nanos() {
    let ts = UtcTimestamp::now();
    assert!(ts.seconds > 1_600_000_000);
    assert!(ts.nanos < 1_000_000_000);
}
