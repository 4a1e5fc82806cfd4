use otss::decimal::Decimal;
use otss::summitx::types::{
    order_state_name, Fill, Order, OrderState, Position, RiskViolation, Side, StateTransitionError,
};

fn d(n: i64) -> Decimal {
    Decimal::from_i64(n)
}

fn p(text: &str) -> Decimal {
    Decimal::parse(text).unwrap()
}

#[test]
fn test_side_sign() {
    assert_eq!(Side::Buy.sign(), Decimal::one());
    assert_eq!(Side::Sell.sign(), Decimal::negative_one());
}

#[test]
fn test_order_state_transitions() {
    assert_eq!(OrderState::Pending.transition(OrderState::Submitted).unwrap(), OrderState::Submitted);
    assert_eq!(OrderState::Submitted.transition(OrderState::PartialFill).unwrap(), OrderState::PartialFill);
    assert_eq!(OrderState::PartialFill.transition(OrderState::Filled).unwrap(), OrderState::Filled);
    assert_eq!(OrderState::Pending.transition(OrderState::Cancelled).unwrap(), OrderState::Cancelled);

    assert!(OrderState::Filled.transition(OrderState::Pending).is_err());
    assert!(OrderState::Cancelled.transition(OrderState::Filled).is_err());
    assert!(OrderState::Pending.transition(OrderState::Filled).is_err());
}

#[test]
fn test_position_apply_fill() {
    let mut pos = Position::new("BTC");

    pos.apply_fill(&d(10), &d(100), Side::Buy, 1000);
    assert_eq!(pos.quantity, d(10));
    assert_eq!(pos.avg_price, d(100));

    pos.apply_fill(&d(5), &d(110), Side::Buy, 2000);
    assert_eq!(pos.quantity, d(15));
    assert_eq!(pos.avg_price, p("103.33333333333333333333333333"));

    pos.apply_fill(&d(10), &d(120), Side::Sell, 3000);
    assert_eq!(pos.quantity, d(5));
    assert!(pos.realized_pnl.gt(&Decimal::zero()));

    pos.apply_fill(&d(5), &d(110), Side::Sell, 4000);
    assert!(pos.is_flat());
}

#[test]
fn test_position_short() {
    let mut pos = Position::new("BTC");

    pos.apply_fill(&d(10), &d(100), Side::Sell, 1000);
    assert_eq!(pos.quantity, d(-10));
    assert_eq!(pos.avg_price, d(100));
    assert!(pos.is_short());

    pos.apply_fill(&d(10), &d(90), Side::Buy, 2000);
    assert!(pos.is_flat());
    assert_eq!(pos.realized_pnl, d(100));
}

#[test]
fn test_order_apply_fill() {
    let mut order = Order::new(1, "BTC", Side::Buy, d(100)).with_timestamp(1000);

    order.transition_state(OrderState::Submitted).unwrap();

    order.apply_fill(&d(30), &d(50000), 2000).unwrap();
    assert_eq!(order.state, OrderState::PartialFill);
    assert_eq!(order.filled_quantity, d(30));
    assert_eq!(order.remaining_quantity(), d(70));

    order.apply_fill(&d(70), &d(50100), 3000).unwrap();
    assert_eq!(order.state, OrderState::Filled);
    assert!(order.is_filled());
}

#[test]
fn test_risk_violation_display() {
    let violation = RiskViolation::PositionLimitExceeded {
        symbol: "BTC".to_string(),
        current: d(900),
        proposed: d(1100),
        max: d(1000),
    };
    let msg = violation.message();
    assert!(msg.contains("Position limit exceeded"));
    assert!(msg.contains("BTC"));
}

#[test]
fn position_readme_example_keeps_average_on_partial_close() {
    let mut pos = Position::new("BTC");
    pos.apply_fill(&d(100), &d(100), Side::Buy, 1000);
    assert_eq!(pos.quantity, d(100));
    assert_eq!(pos.avg_price, d(100));
    pos.apply_fill(&d(50), &d(110), Side::Sell, 2000);
    assert_eq!(pos.quantity, d(50));
    assert_eq!(pos.realized_pnl, d(500));
    assert_eq!(pos.avg_price, d(100));
    assert_eq!(pos.last_update_ns, 2000);
}

#[test]
fn position_flip_realizes_only_closed_part() {
    let mut pos = Position::new("ETH");
    pos.apply_fill(&d(10), &d(100), Side::Buy, 1);
    pos.apply_fill(&d(15), &d(120), Side::Sell, 2);
    assert_eq!(pos.quantity, d(-5));
    assert_eq!(pos.realized_pnl, d(200));
    assert_eq!(pos.avg_price, d(120));
    assert!(pos.is_short());
    assert_eq!(pos.abs_quantity(), d(5));
}

#[test]
fn position_unrealized_and_notional() {
    let mut pos = Position::new("BTC");
    pos.apply_fill(&d(10), &d(100), Side::Sell, 1);
    pos.update_unrealized_pnl(&d(90));
    assert_eq!(pos.unrealized_pnl, d(100));
    assert_eq!(pos.notional_value(&d(90)), d(900));
    let flat = Position::new("X");
    assert!(flat.is_flat());
    assert!(!flat.is_long());
    assert!(!flat.is_short());
}

#[test]
fn terminal_states_refuse_every_transition() {
    let all = [
        OrderState::Pending,
        OrderState::Submitted,
        OrderState::PartialFill,
        OrderState::Filled,
        OrderState::Cancelled,
        OrderState::Rejected,
    ];
    for s in [OrderState::Filled, OrderState::Cancelled, OrderState::Rejected] {
        assert!(s.is_terminal());
        assert!(!s.can_cancel());
        for t in all {
            assert_eq!(s.transition(t), Err(StateTransitionError::TerminalState(s)));
        }
    }
    assert_eq!(
        OrderState::Pending.transition(OrderState::Filled),
        Err(StateTransitionError::InvalidTransition { from: OrderState::Pending, to: OrderState::Filled })
    );
    assert!(OrderState::PartialFill.can_fill());
    assert!(OrderState::Submitted.is_active());
    assert!(!OrderState::Pending.can_fill());
    assert!(OrderState::Pending.can_cancel());
}

#[test]
fn transition_error_messages() {
    assert_eq!(
        StateTransitionError::TerminalState(OrderState::Filled).message(),
        "Cannot transition from terminal state: Filled"
    );
    assert_eq!(
        StateTransitionError::InvalidTransition { from: OrderState::Pending, to: OrderState::Filled }.message(),
        "Invalid transition from Pending to Filled"
    );
    assert_eq!(order_state_name(OrderState::PartialFill), "PartialFill");
}

#[test]
fn violation_messages() {
    let size = RiskViolation::OrderSizeExceeded { size: d(600), max: d(500) };
    assert_eq!(size.message(), "Order size exceeded: size=600, max=500");
    let loss = RiskViolation::DailyLossExceeded { realized: d(-6000), limit: d(-5000), excess: d(1000) };
    assert_eq!(loss.message(), "Daily loss limit exceeded: realized=-6000, limit=-5000, excess=1000");
    let notional = RiskViolation::NotionalExceeded { notional: d(100000), max: d(50000) };
    assert_eq!(notional.message(), "Notional value exceeded: notional=100000, max=50000");
    let conc = RiskViolation::ConcurrentPositionLimitExceeded { current: 5, max: 5 };
    assert_eq!(conc.message(), "Concurrent position limit exceeded: current=5, max=5");
    let both = RiskViolation::Multiple(vec![
        Box::new(RiskViolation::PositionLimitExceeded {
            symbol: "BTC".to_string(),
            current: d(900),
            proposed: d(1100),
            max: d(1000),
        }),
        Box::new(RiskViolation::ConcurrentPositionLimitExceeded { current: 5, max: 5 }),
    ]);
    assert_eq!(
        both.message(),
        "Multiple violations: [PositionLimitExceeded { symbol: \"BTC\", current: 900, proposed: 1100, max: 1000 }, ConcurrentPositionLimitExceeded { current: 5, max: 5 }]"
    );
    assert_eq!(
        RiskViolation::Multiple(vec![Box::new(size)]).debug_string(),
        "Multiple([OrderSizeExceeded { size: 600, max: 500 }])"
    );
}

#[test]
fn fill_notional_is_quantity_times_price() {
    let fill = Fill::new(7, "BTC", Side::Buy, d(10), p("50000.5"), 99);
    assert_eq!(fill.notional(), p("500005.0"));
    assert_eq!(fill.symbol, "BTC");
    assert_eq!(fill.order_id, 7);
}

#[test]
fn flip_to_larger_opposite_position_opens_at_fill_price() {
    let mut pos = Position::new("SOL");
    pos.apply_fill(&d(5), &d(100), Side::Sell, 1);
    pos.apply_fill(&d(20), &d(80), Side::Buy, 2);
    assert_eq!(pos.quantity, d(15));
    assert_eq!(pos.avg_price, d(80));
    assert_eq!(pos.realized_pnl, d(100));
    assert!(pos.is_long());
}

#[test]
fn opening_fill_averages_at_the_fill_price() {
    let mut pos = Position::new("ADA");
    pos.apply_fill(&d(3), &p("0.37"), Side::Buy, 1);
    assert_eq!(pos.avg_price, p("0.37"));
    assert_eq!(pos.quantity, d(3));
}
