use otss::decimal::Decimal;
use otss::otss_data::adapters::{AdapterError, DataSource, FeedConfig, FeedStatus};
use otss::otss_data::databento::{DatabentoAdapter, DatabentoClient, DatabentoConfig};
use otss::otss_data::polygon::{PolygonAdapter, PolygonClient, PolygonConfig};
use otss::otss_data::types::{BookLevel, MarketBook, Trade, TradeSide};
use otss::otss_data::{available_sources, init};

#[test]
fn test_data_source_display() {
    assert_eq!(DataSource::Databento.to_string(), "databento");
    assert_eq!(DataSource::Polygon.to_string(), "polygon");
}

#[test]
fn test_feed_config_default() {
    let config = FeedConfig::default();
    assert!(config.auto_reconnect);
    assert_eq!(config.buffer_size, 10000);
}

#[test]
fn test_databento_config_default() {
    let config = DatabentoConfig::default();
    assert_eq!(config.dataset, "XNAS.ITCH");
    assert_eq!(config.schema, "mbp-10");
}

#[test]
fn test_databento_client_created() {
    let config = DatabentoConfig::default();
    let client = DatabentoClient::new(config);
    assert!(!client.is_connected());
}

#[test]
fn test_polygon_config_default() {
    let config = PolygonConfig::default();
    assert_eq!(config.ws_endpoint, "wss://socket.polygon.io");
}

#[test]
fn test_polygon_client_created() {
    let config = PolygonConfig::default();
    let client = PolygonClient::new(config);
    assert!(!client.is_connected());
}

#[test]
fn test_trade_creation() {
    let trade = Trade {
        trade_id: "12345".to_string(),
        symbol: "AAPL".to_string(),
        price: Decimal::parse("150.25").unwrap(),
        size: 100,
        side: TradeSide::Buy,
        exchange: "NASDAQ".to_string(),
        timestamp: 1700000000000,
    };
    assert_eq!(trade.symbol, "AAPL");
}

#[test]
fn test_market_book_creation() {
    let book = MarketBook {
        symbol: "TSLA".to_string(),
        bids: vec![BookLevel { price: Decimal::parse("200.00").unwrap(), size: 500, count: 10 }],
        asks: vec![BookLevel { price: Decimal::parse("200.05").unwrap(), size: 300, count: 5 }],
        timestamp: 1700000000000,
    };
    assert_eq!(book.symbol, "TSLA");
}

#[test]
fn sources_and_status_texts() {
    init();
    assert_eq!(available_sources(), vec![DataSource::Databento, DataSource::Polygon]);
    assert_eq!(DataSource::File.to_string(), "file");
    assert_eq!(FeedStatus::Connecting.to_string(), "connecting");
    assert_eq!(FeedStatus::Error.to_string(), "error");
    assert_eq!(AdapterError::InvalidSymbol("ZZZ".to_string()).message(), "Invalid symbol: ZZZ");
    assert_eq!(AdapterError::AuthFailed.message(), "Authentication failed");
    assert_eq!(AdapterError::ConnectionFailed("down".to_string()).message(), "Connection failed: down");
    assert_eq!(AdapterError::ParseError("bad".to_string()).message(), "Parse error: bad");
    assert_eq!(AdapterError::RateLimited.message(), "Rate limited");
}

#[test]
fn clients_connect_and_disconnect() {
    let mut adapter = DatabentoAdapter::new(DatabentoClient::new(DatabentoConfig::default()));
    adapter.client_mut().connect().unwrap();
    assert!(adapter.client().is_connected());
    adapter.client_mut().subscribe(&["AAPL", "MSFT"]).unwrap();
    assert!(adapter.client().is_connected());
    assert!(adapter.client().request_historical(&["AAPL"], 1, 2).unwrap().is_empty());
    adapter.client_mut().disconnect().unwrap();
    assert!(!adapter.client().is_connected());
    assert_eq!(adapter.client().config().dataset, "XNAS.ITCH");

    let mut polygon = PolygonAdapter::new(PolygonClient::new(PolygonConfig::default()));
    polygon.client_mut().connect().unwrap();
    polygon.client_mut().authenticate().unwrap();
    polygon.client_mut().subscribe_trades(&["AAPL"]).unwrap();
    polygon.client_mut().subscribe_quotes(&["AAPL"]).unwrap();
    assert!(polygon.client().is_connected());
    assert!(polygon.client().get_aggregates("AAPL", 1, "minute", "a", "b").unwrap().is_empty());
    let trade = polygon.client().get_last_trade("NVDA").unwrap();
    assert_eq!(trade.symbol, "NVDA");
    assert_eq!(trade.trade_id, "0");
    assert_eq!(trade.exchange, "POLY");
    assert_eq!(trade.side, TradeSide::Unknown);
    assert_eq!(trade.price, Decimal::zero());
    polygon.client_mut().disconnect().unwrap();
    assert!(!polygon.client().is_connected());
    assert_eq!(polygon.client().config().rest_endpoint, "https://api.polygon.io");
}
