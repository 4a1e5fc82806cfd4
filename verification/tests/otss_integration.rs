use otss::decimal::Decimal;
use otss::otss_integration::adapters::{BrokerError, ConnectionConfig, ExecutionResult};
use otss::otss_integration::das::{DasTraderAdapter, DasTraderConfig};
use otss::otss_integration::generic::{GenericBrokerAdapter, GenericBrokerConfig};
use otss::otss_integration::types::{
    AccountType, BrokerOrder, BrokerOrderSide, BrokerOrderStatus, BrokerOrderType, TimeInForce,
};
use otss::otss_integration::{available_adapters, default_connection_config};

#[test]
fn test_connection_config_default() {
    let config = ConnectionConfig::default();
    assert_eq!(config.host, "localhost");
    assert_eq!(config.port, 8080);
    assert!(config.use_tls);
}

#[test]
fn test_execution_result() {
    let result = ExecutionResult { success: true, message: "Order executed".to_string() };
    assert!(result.success);
}

#[test]
fn test_das_config_default() {
    let config = DasTraderConfig::default();
    assert_eq!(config.host, "127.0.0.1");
    assert_eq!(config.port, 8080);
    assert!(config.paper_trading);
}

#[test]
fn test_das_adapter_display() {
    let config = DasTraderConfig::default();
    let adapter = DasTraderAdapter::new(config);
    let display = adapter.to_string();
    assert!(display.contains("DasTraderAdapter"));
}

#[test]
fn test_generic_config_default() {
    let config = GenericBrokerConfig::default();
    assert!(config.api_key.is_empty());
}

#[test]
fn test_generic_adapter_creation() {
    let config = GenericBrokerConfig::default();
    let adapter = GenericBrokerAdapter::new(config);
    assert!(!adapter.is_connected());
}

#[test]
fn test_broker_order_creation() {
    let order = BrokerOrder {
        symbol: "AAPL".to_string(),
        order_type: BrokerOrderType::Market,
        side: BrokerOrderSide::Buy,
        quantity: 100,
        tif: TimeInForce::Day,
    };
    assert_eq!(order.quantity, 100);
}

#[test]
fn test_order_status_display() {
    assert_eq!(BrokerOrderStatus::Filled.to_string(), "FILLED");
    let rejected = BrokerOrderStatus::Rejected { reason: "test".to_string() };
    assert_eq!(rejected.to_string(), "REJECTED: test");
}

#[test]
fn test_limit_order_price() {
    let price = Decimal::parse("150.00").unwrap();
    let order_type = BrokerOrderType::Limit { price };

    match order_type {
        BrokerOrderType::Limit { price: p } => assert_eq!(p, price),
        _ => panic!("Expected Limit order type"),
    }
}

#[test]
fn das_adapter_text_and_calls() {
    let mut adapter = DasTraderAdapter::new(DasTraderConfig::default());
    assert_eq!(adapter.to_string(), "DasTraderAdapter(127.0.0.1:8080 - paper=true)");
    adapter.connect().unwrap();
    assert!(adapter.is_connected());
    let order = BrokerOrder {
        symbol: "AAPL".to_string(),
        order_type: BrokerOrderType::Limit { price: Decimal::from_i64(10) },
        side: BrokerOrderSide::SellShort,
        quantity: 5,
        tif: TimeInForce::IOC,
    };
    let id = adapter.submit_order(&order).unwrap();
    assert!(id.starts_with("DAS-ORDER-"));
    assert_eq!(id.len(), 46);
    adapter.cancel_order(&id).unwrap();
    let info = adapter.get_account_info().unwrap();
    assert_eq!(info.account_type, AccountType::Margin);
    assert_eq!(info.buying_power, Decimal::from_i64(100000));
    assert_eq!(info.cash_balance, Decimal::from_i64(50000));
    assert!(adapter.get_positions().unwrap().is_empty());
    assert_eq!(adapter.get_order_status(&id).unwrap(), BrokerOrderStatus::Submitted);
    adapter.disconnect().unwrap();
    assert!(!adapter.is_connected());
    let mut config = DasTraderConfig::default();
    config.port = 9;
    config.paper_trading = false;
    assert_eq!(DasTraderAdapter::new(config).to_string(), "DasTraderAdapter(127.0.0.1:9 - paper=false)");
}

#[test]
fn generic_adapter_and_module_functions() {
    let mut adapter = GenericBrokerAdapter::new(GenericBrokerConfig::default());
    adapter.connect().unwrap();
    assert!(adapter.is_connected());
    let order = BrokerOrder {
        symbol: "MSFT".to_string(),
        order_type: BrokerOrderType::Market,
        side: BrokerOrderSide::Sell,
        quantity: 1,
        tif: TimeInForce::GTC,
    };
    let id = adapter.submit_order(&order).unwrap();
    assert!(id.starts_with("ORDER-"));
    assert_eq!(id.len(), 42);
    adapter.cancel_order(&id).unwrap();
    adapter.disconnect().unwrap();
    assert!(!adapter.is_connected());
    assert_eq!(adapter.config().api_url, "https://api.example.com");

    assert_eq!(available_adapters(), vec!["das-trader", "generic"]);
    let config = default_connection_config();
    assert_eq!(config.host, "localhost");
    assert_eq!(config.port, 8080);
    assert!(config.api_key.is_none());
    assert_eq!(BrokerError::InsufficientFunds.message(), "Insufficient funds");
    assert_eq!(BrokerError::OrderRejected("no".to_string()).message(), "Order rejected: no");
    assert_eq!(BrokerOrderStatus::PartiallyFilled.to_string(), "PARTIALLY_FILLED");
}
