use otss::decimal::Decimal;
use otss::summitx::risk::{RiskCheckResult, RiskManager};
use otss::summitx::types::{Fill, Position, PositionBook, PriceTable, RiskLimit, RiskViolation, Side, ValidationContext};

fn d(n: i64) -> Decimal {
    Decimal::from_i64(n)
}

fn create_test_manager() -> RiskManager {
    let limits = RiskLimit::new(d(1000), d(-5000))
        .with_max_order_size(d(500))
        .with_max_notional(d(50000))
        .with_max_concurrent_positions(5);
    RiskManager::new(limits)
}

#[test]
fn test_risk_manager_new() {
    let manager = create_test_manager();
    assert!(manager.positions().is_empty());
    assert_eq!(manager.daily_realized_pnl(), Decimal::zero());
}

#[test]
fn test_validate_order_pass() {
    let manager = create_test_manager();
    let result = manager.validate_order("BTC", &d(100), &d(10), Side::Buy);
    assert!(result.is_pass());
}

#[test]
fn test_validate_order_size_exceeded() {
    let limits = RiskLimit::new(d(1000), d(-5000)).with_max_order_size(d(500));
    let manager = RiskManager::new(limits);

    let result = manager.validate_order("BTC", &d(600), &d(100), Side::Buy);
    assert!(result.is_fail());

    let violation = result.violation().unwrap();
    assert!(matches!(
        violation,
        RiskViolation::OrderSizeExceeded { size, .. } if *size == d(600)
    ));
}

#[test]
fn test_validate_notional_exceeded() {
    let limits = RiskLimit::new(d(10000), d(-5000)).with_max_notional(d(50000));
    let manager = RiskManager::new(limits);

    let result = manager.validate_order("BTC", &d(1000), &d(100), Side::Buy);
    assert!(result.is_fail());

    let violation = result.violation().unwrap();
    assert!(matches!(
        violation,
        RiskViolation::NotionalExceeded { notional, .. } if *notional == d(100000)
    ));
}

#[test]
fn test_validate_position_limit() {
    let mut manager = create_test_manager();

    let fill = Fill::new(1, "BTC", Side::Buy, d(800), d(100), 1000);
    manager.apply_fill(&fill);
    assert_eq!(manager.position("BTC").unwrap().quantity, d(800));

    let result = manager.validate_order("BTC", &d(500), &d(100), Side::Buy);
    assert!(result.is_fail());

    if let RiskViolation::PositionLimitExceeded { current, proposed, max, .. } = result.violation().unwrap() {
        assert_eq!(*current, d(800));
        assert_eq!(*proposed, d(1300));
        assert_eq!(*max, d(1000));
    } else {
        panic!("Expected PositionLimitExceeded");
    }

    let result = manager.validate_order("BTC", &d(100), &d(100), Side::Buy);
    assert!(result.is_pass());
}

#[test]
fn test_validate_daily_loss_exceeded() {
    let mut manager = create_test_manager();
    manager.daily_realized_pnl = d(-6000);

    let result = manager.validate_order("BTC", &d(100), &d(100), Side::Buy);
    assert!(result.is_fail());
    assert!(matches!(
        result.violation().unwrap(),
        RiskViolation::DailyLossExceeded { realized, limit, .. }
        if *realized == d(-6000) && *limit == d(-5000)
    ));
}

#[test]
fn test_validate_concurrent_positions() {
    let mut manager = create_test_manager();

    for i in 0..5 {
        let symbol = format!("SYM{}", i);
        let fill = Fill::new(i as u64, &symbol, Side::Buy, d(100), d(100), 1000);
        manager.apply_fill(&fill);
    }

    assert_eq!(manager.position_count(), 5);

    let result = manager.validate_order("NEW", &d(100), &d(100), Side::Buy);
    assert!(result.is_fail());
    assert!(matches!(
        result.violation().unwrap(),
        RiskViolation::ConcurrentPositionLimitExceeded { current, max }
        if *current == 5 && *max == 5
    ));
}

#[test]
fn test_apply_fill_updates_position() {
    let mut manager = create_test_manager();

    let fill = Fill::new(1, "BTC", Side::Buy, d(100), d(50000), 1000);
    manager.apply_fill(&fill);

    let pos = manager.position("BTC").unwrap();
    assert_eq!(pos.quantity, d(100));
    assert_eq!(pos.abs_quantity(), d(100));
}

#[test]
fn test_apply_fill_realizes_pnl() {
    let mut manager = create_test_manager();

    let fill1 = Fill::new(1, "BTC", Side::Buy, d(100), d(100), 1000);
    manager.apply_fill(&fill1);
    assert_eq!(manager.daily_realized_pnl(), Decimal::zero());

    let fill2 = Fill::new(2, "BTC", Side::Sell, d(100), d(110), 2000);
    manager.apply_fill(&fill2);
    assert_eq!(manager.daily_realized_pnl(), d(1000));

    assert!(manager.position("BTC").unwrap().is_flat());
}

#[test]
fn test_apply_fill_realizes_loss() {
    let mut manager = create_test_manager();

    let fill1 = Fill::new(1, "BTC", Side::Buy, d(100), d(100), 1000);
    manager.apply_fill(&fill1);

    let fill2 = Fill::new(2, "BTC", Side::Sell, d(50), d(90), 2000);
    manager.apply_fill(&fill2);
    assert_eq!(manager.daily_realized_pnl(), d(-500));

    let fill3 = Fill::new(3, "BTC", Side::Sell, d(50), d(95), 3000);
    manager.apply_fill(&fill3);
    assert_eq!(manager.daily_realized_pnl(), d(-750));
}

#[test]
fn test_update_unrealized_pnl() {
    let mut manager = create_test_manager();

    let fill = Fill::new(1, "BTC", Side::Buy, d(100), d(100), 1000);
    manager.apply_fill(&fill);

    let mut prices = PriceTable::new();
    prices.insert("BTC", d(90));
    manager.update_unrealized_pnl(&prices);

    let pos = manager.position("BTC").unwrap();
    assert_eq!(pos.unrealized_pnl, d(-1000));
}

#[test]
fn test_total_exposure() {
    let mut manager = create_test_manager();

    manager.apply_fill(&Fill::new(1, "BTC", Side::Buy, d(100), d(100), 1000));
    manager.apply_fill(&Fill::new(2, "ETH", Side::Sell, d(50), d(10), 2000));

    assert_eq!(manager.total_exposure(), d(150));
}

#[test]
fn test_gross_notional() {
    let mut manager = create_test_manager();

    manager.apply_fill(&Fill::new(1, "BTC", Side::Buy, d(10), d(50000), 1000));
    manager.apply_fill(&Fill::new(2, "ETH", Side::Buy, d(100), d(3000), 2000));

    let mut prices = PriceTable::new();
    prices.insert("BTC", d(51000));
    prices.insert("ETH", d(3100));

    assert_eq!(manager.gross_notional(&prices), d(820000));
}

#[test]
fn test_net_notional() {
    let mut manager = create_test_manager();

    manager.apply_fill(&Fill::new(1, "BTC", Side::Buy, d(10), d(50000), 1000));
    manager.apply_fill(&Fill::new(2, "ETH", Side::Sell, d(5), d(3000), 2000));

    let mut prices = PriceTable::new();
    prices.insert("BTC", d(51000));
    prices.insert("ETH", d(3100));

    assert_eq!(manager.net_notional(&prices), d(494500));
}

#[test]
fn test_reset_daily_pnl() {
    let mut manager = create_test_manager();
    manager.daily_realized_pnl = d(-1000);

    manager.reset_daily_pnl();

    assert_eq!(manager.daily_realized_pnl(), Decimal::zero());
}

#[test]
fn test_reset_all() {
    let mut manager = create_test_manager();
    manager.apply_fill(&Fill::new(1, "BTC", Side::Buy, d(100), d(100), 1000));
    manager.daily_realized_pnl = d(1000);

    manager.reset_all();

    assert!(manager.positions().is_empty());
    assert_eq!(manager.daily_realized_pnl(), Decimal::zero());
}

#[test]
fn test_remaining_capacity() {
    let mut manager = create_test_manager();

    assert_eq!(manager.remaining_capacity("BTC"), d(1000));

    manager.apply_fill(&Fill::new(1, "BTC", Side::Buy, d(300), d(100), 1000));
    assert_eq!(manager.remaining_capacity("BTC"), d(700));

    manager.apply_fill(&Fill::new(2, "BTC", Side::Buy, d(600), d(100), 2000));
    assert_eq!(manager.remaining_capacity("BTC"), d(100));

    manager.apply_fill(&Fill::new(3, "BTC", Side::Buy, d(200), d(100), 3000));
    assert_eq!(manager.remaining_capacity("BTC"), Decimal::zero());
}

#[test]
fn test_daily_loss_utilization() {
    let mut manager = create_test_manager();

    manager.daily_realized_pnl = d(-2500);
    assert_eq!(manager.daily_loss_utilization().unwrap(), Decimal::parse("0.5").unwrap());

    manager.daily_realized_pnl = d(-5000);
    assert_eq!(manager.daily_loss_utilization().unwrap(), Decimal::parse("1.0").unwrap());

    manager.daily_realized_pnl = d(-6000);
    assert_eq!(manager.daily_loss_utilization().unwrap(), Decimal::parse("1.0").unwrap());
}

#[test]
fn test_validate_with_context() {
    let manager = create_test_manager();

    let mut positions = PositionBook::new();
    let mut pos = Position::new("BTC");
    pos.quantity = d(800);
    positions.insert(pos);

    let context = ValidationContext::new(&positions, Decimal::zero(), 1000);

    let result = manager.validate_with_context("BTC", &d(300), &d(100), Side::Buy, &context);
    assert!(result.is_fail());

    let result = manager.validate_with_context("BTC", &d(100), &d(100), Side::Buy, &context);
    assert!(result.is_pass());
}

#[test]
fn test_multiple_violations() {
    let mut manager = create_test_manager();

    manager.daily_realized_pnl = d(-6000);

    let fill = Fill::new(1, "BTC", Side::Buy, d(900), d(100), 1000);
    manager.apply_fill(&fill);

    let result = manager.validate_order("BTC", &d(200), &d(100), Side::Buy);

    assert!(result.is_fail());
    if let RiskViolation::Multiple(violations) = result.violation().unwrap() {
        assert_eq!(violations.len(), 2);
    } else {
        panic!("Expected Multiple violations");
    }
}

#[test]
fn multiple_violations_come_in_check_order() {
    let mut manager = create_test_manager();
    manager.daily_realized_pnl = d(-6000);
    let result = manager.validate_order("BTC", &d(600), &d(100), Side::Sell);
    match result {
        RiskCheckResult::Fail(RiskViolation::Multiple(vs)) => {
            assert_eq!(vs.len(), 3);
            assert!(matches!(*vs[0], RiskViolation::OrderSizeExceeded { .. }));
            assert!(matches!(*vs[1], RiskViolation::NotionalExceeded { .. }));
            assert!(matches!(*vs[2], RiskViolation::DailyLossExceeded { ref excess, .. } if *excess == d(1000)));
        }
        _ => panic!("expected several violations"),
    }
}

#[test]
fn would_breach_matches_position_check() {
    let mut manager = create_test_manager();
    manager.apply_fill(&Fill::new(1, "BTC", Side::Sell, d(400), d(10), 1));
    assert!(!manager.would_breach_limits("BTC", &d(500), Side::Sell));
    assert!(manager.would_breach_limits("BTC", &d(601), Side::Sell));
    assert!(!manager.would_breach_limits("BTC", &d(500), Side::Buy));
    assert_eq!(manager.position("BTC").unwrap().quantity, d(-400));
    assert!(manager.position("ETH").is_none());
}

#[test]
fn utilization_is_none_without_limit_and_limits_can_be_replaced() {
    let mut manager = RiskManager::new(RiskLimit::new(d(10), Decimal::zero()));
    assert!(manager.daily_loss_utilization().is_none());
    manager.set_limits(RiskLimit::default());
    assert_eq!(manager.limits().max_position, d(1000));
    assert_eq!(manager.limits().daily_loss_limit, d(-5000));
    manager.apply_fill(&Fill::new(1, "A", Side::Buy, d(3), d(2), 1));
    manager.apply_fill(&Fill::new(2, "B", Side::Buy, d(3), d(2), 1));
    manager.apply_fill(&Fill::new(3, "B", Side::Sell, d(3), d(2), 1));
    assert_eq!(manager.position_count(), 1);
    assert_eq!(manager.positions().len(), 2);
}

#[test]
fn readme_basic_usage() {
    let limits = RiskLimit::new(d(1000), d(-5000))
        .with_max_order_size(d(100))
        .with_max_notional(d(500000))
        .with_max_concurrent_positions(10);
    let mut manager = RiskManager::new(limits);
    let fill = Fill::new(1, "BTC", Side::Buy, d(10), d(50000), 1000);
    manager.apply_fill(&fill);
    let pos = manager.position("BTC").unwrap();
    assert_eq!(pos.quantity, d(10));
}

#[test]
fn readme_validation_examples() {
    let limits = RiskLimit::new(d(1000), d(-5000))
        .with_max_order_size(d(500))
        .with_max_notional(d(50000))
        .with_max_concurrent_positions(5);
    let manager = RiskManager::new(limits);
    let result = manager.validate_order("BTC", &d(100), &d(50000), Side::Buy);
    assert!(matches!(
        result.violation(),
        Some(RiskViolation::NotionalExceeded { notional, max }) if *notional == d(5000000) && *max == d(50000)
    ));

    let manager = RiskManager::new(RiskLimit::new(d(100), d(-1000)));
    let positions = PositionBook::new();
    let ctx = ValidationContext::new(&positions, Decimal::zero(), 1000);
    let result = manager.validate_with_context("BTC", &d(50), &d(100), Side::Buy, &ctx);
    assert!(result.is_pass());
}

#[test]
fn a_profitable_day_uses_none_of_the_loss_limit() {
    let mut manager = create_test_manager();
    manager.daily_realized_pnl = d(2500);
    assert_eq!(manager.daily_loss_utilization().unwrap(), Decimal::zero());
    manager.daily_realized_pnl = d(-1000);
    assert_eq!(manager.daily_loss_utilization().unwrap(), Decimal::parse("0.2").unwrap());
}
