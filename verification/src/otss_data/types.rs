//! Market data records.
use crate::decimal::Decimal;
use vstd::prelude::*;

verus! {

/// A trade print.
#[derive(Debug, Clone, PartialEq)]
pub struct Trade {
    pub trade_id: String,
    pub symbol: String,
    pub price: Decimal,
    pub size: u64,
    /// The aggressor's side.
    pub side: TradeSide,
    pub exchange: String,
    pub timestamp: u64,
}

/// The aggressor's side of a trade.
#[derive(Debug, Clone, Copy, PartialEq, Eq, Structural)]
pub enum TradeSide {
    Buy,
    Sell,
    Unknown,
}

/// One price level of a book.
#[derive(Debug, Clone, Copy, PartialEq)]
pub struct BookLevel {
    pub price: Decimal,
    pub size: u64,
    /// The number of orders at the level.
    pub count: u32,
}

/// An order book: bids from high to low, asks from low to high.
#[derive(Debug, Clone, PartialEq)]
pub struct MarketBook {
    pub symbol: String,
    pub bids: Vec<BookLevel>,
    pub asks: Vec<BookLevel>,
    pub timestamp: u64,
}

/// An OHLCV bar.
#[derive(Debug, Clone, Copy, PartialEq)]
pub struct OHLCV {
    pub open: Decimal,
    pub high: Decimal,
    pub low: Decimal,
    pub close: Decimal,
    pub volume: u64,
    pub timestamp: u64,
}

/// A market data event.
#[derive(Debug, Clone, PartialEq)]
pub enum MarketData {
    Trade(Trade),
    Book(MarketBook),
    OHLCV(OHLCV),
    Heartbeat,
}

/// A subscription: symbols and the kinds of data wanted.
#[derive(Debug, Clone, PartialEq)]
pub struct DataSubscription {
    pub symbols: Vec<String>,
    pub data_types: Vec<DataType>,
}

/// Kinds of market data.
#[derive(Debug, Clone, Copy, PartialEq, Eq, Structural)]
pub enum DataType {
    Trades,
    Quotes,
    Bars,
    All,
}

} // verus!
