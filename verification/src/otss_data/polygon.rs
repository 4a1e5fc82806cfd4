//! The Polygon.io feed client (WebSocket and REST).
use crate::decimal::Decimal;
use crate::otss_data::types::{Trade, TradeSide, OHLCV};
use vstd::prelude::*;

verus! {

/// Polygon client settings.
#[derive(Debug, Clone)]
pub struct PolygonConfig {
    pub api_key: String,
    pub ws_endpoint: String,
    pub rest_endpoint: String,
}

impl Default for PolygonConfig {
    /// No key, the public WebSocket and REST endpoints.
    fn default() -> (r: PolygonConfig)
        ensures
            r.api_key@ == Seq::<char>::empty(),
            r.ws_endpoint@ == "wss://socket.polygon.io"@,
            r.rest_endpoint@ == "https://api.polygon.io"@,
    {
        proof {
            reveal_strlit("wss://socket.polygon.io");
            reveal_strlit("https://api.polygon.io");
        }
        PolygonConfig {
            api_key: String::new(),
            ws_endpoint: String::from_str("wss://socket.polygon.io"),
            rest_endpoint: String::from_str("https://api.polygon.io"),
        }
    }
}

/// The Polygon client: settings, connection, last sequence number.
#[derive(Debug, Clone)]
pub struct PolygonClient {
    config: PolygonConfig,
    connected: bool,
    last_seq_num: u64,
}

/// The last trade that the client reports for `symbol`: id `0`, price and
/// size zero, unknown side, exchange `POLY`, timestamp zero.
pub open spec fn placeholder_trade(t: Trade, symbol: Seq<char>) -> bool {
    &&& t.trade_id@ == "0"@
    &&& t.symbol@ == symbol
    &&& t.price == Decimal::mk(0, 0)
    &&& t.size == 0
    &&& t.side == TradeSide::Unknown
    &&& t.exchange@ == "POLY"@
    &&& t.timestamp == 0
}

impl PolygonClient {
    pub closed spec fn config_spec(self) -> PolygonConfig {
        self.config
    }

    pub closed spec fn connected_spec(self) -> bool {
        self.connected
    }

    pub closed spec fn last_seq_num_spec(self) -> u64 {
        self.last_seq_num
    }

    /// A disconnected client with the given settings and sequence number zero.
    pub fn new(config: PolygonConfig) -> (r: PolygonClient)
        ensures
            r.config_spec() == config,
            !r.connected_spec(),
            r.last_seq_num_spec() == 0,
    {
        PolygonClient { config, connected: false, last_seq_num: 0 }
    }

    /// The settings.
    pub fn config(&self) -> (r: &PolygonConfig)
        ensures
            *r == self.config_spec(),
    {
        &self.config
    }

    /// Connects; the client is then connected.
    pub fn connect(&mut self) -> (r: Result<(), anyhow::Error>)
        ensures
            r is Ok,
            final(self).connected_spec(),
            final(self).config_spec() == old(self).config_spec(),
            final(self).last_seq_num_spec() == old(self).last_seq_num_spec(),
    {
        self.connected = true;
        Ok(())
    }

    /// Disconnects; the client is then disconnected.
    pub fn disconnect(&mut self) -> (r: Result<(), anyhow::Error>)
        ensures
            r is Ok,
            !final(self).connected_spec(),
            final(self).config_spec() == old(self).config_spec(),
            final(self).last_seq_num_spec() == old(self).last_seq_num_spec(),
    {
        self.connected = false;
        Ok(())
    }

    /// Whether the client is connected.
    pub fn is_connected(&self) -> (r: bool)
        ensures
            r == self.connected_spec(),
    {
        self.connected
    }

    /// Authenticates; the key goes with the connection, so nothing changes.
    pub fn authenticate(&mut self) -> (r: Result<(), anyhow::Error>)
        ensures
            r is Ok,
            *final(self) == *old(self),
    {
        Ok(())
    }

    /// Subscribes to trades for the symbols; the client state is unchanged.
    pub fn subscribe_trades(&mut self, symbols: &[&str]) -> (r: Result<(), anyhow::Error>)
        ensures
            r is Ok,
            *final(self) == *old(self),
    {
        Ok(())
    }

    /// Subscribes to quotes for the symbols; the client state is unchanged.
    pub fn subscribe_quotes(&mut self, symbols: &[&str]) -> (r: Result<(), anyhow::Error>)
        ensures
            r is Ok,
            *final(self) == *old(self),
    {
        Ok(())
    }

    /// Bars for a symbol over a span; none are served yet, so the answer is empty.
    pub fn get_aggregates(&self, symbol: &str, multiplier: u32, timespan: &str, from: &str, to: &str) -> (r:
        Result<Vec<OHLCV>, anyhow::Error>)
        ensures
            r is Ok,
            r->Ok_0@.len() == 0,
    {
        Ok(Vec::new())
    }

    /// The last trade of a symbol: a placeholder record for that symbol.
    pub fn get_last_trade(&self, symbol: &str) -> (r: Result<Trade, anyhow::Error>)
        ensures
            r is Ok,
            placeholder_trade(r->Ok_0, symbol@),
    {
        proof {
            reveal_strlit("0");
            reveal_strlit("POLY");
        }
        Ok(Trade {
            trade_id: String::from_str("0"),
            symbol: String::from_str(symbol),
            price: Decimal::new(0, 0),
            size: 0,
            side: TradeSide::Unknown,
            exchange: String::from_str("POLY"),
            timestamp: 0,
        })
    }
}

/// The Polygon adapter around a client.
#[derive(Debug, Clone)]
pub struct PolygonAdapter {
    client: PolygonClient,
}

impl PolygonAdapter {
    pub closed spec fn client_spec(self) -> PolygonClient {
        self.client
    }

    /// An adapter around `client`.
    pub fn new(client: PolygonClient) -> (r: PolygonAdapter)
        ensures
            r.client_spec() == client,
    {
        PolygonAdapter { client }
    }

    /// The client.
    pub fn client(&self) -> (r: &PolygonClient)
        ensures
            *r == self.client_spec(),
    {
        &self.client
    }

    /// The client, for update.
    pub fn client_mut(&mut self) -> (r: &mut PolygonClient)
        ensures
            *r == old(self).client_spec(),
            final(self).client_spec() == *final(r),
    {
        &mut self.client
    }
}

/// A Polygon trade message.
#[derive(Debug, Clone)]
pub struct PolygonTradeMsg {
    pub ev: String,
    pub sym: String,
    pub x: u32,
    pub i: String,
    pub z: u8,
    pub p: Decimal,
    pub s: u64,
    pub t: u64,
    pub q: u64,
    pub trf: u32,
}

/// A Polygon quote message.
#[derive(Debug, Clone)]
pub struct PolygonQuoteMsg {
    pub ev: String,
    pub sym: String,
    pub bx: u32,
    pub bp: Decimal,
    pub bs: u64,
    pub ax: u32,
    pub ap: Decimal,
    pub as_: u64,
    pub t: u64,
}

} // verus!
