//! The Databento feed client (MBP-10 order book data).
use crate::decimal::Decimal;
use crate::otss_data::types::{BookLevel, MarketData};
use vstd::prelude::*;

verus! {

/// Databento client settings.
#[derive(Debug, Clone)]
pub struct DatabentoConfig {
    pub api_key: String,
    /// The dataset, such as `XNAS.ITCH`.
    pub dataset: String,
    /// The schema, such as `mbp-10`.
    pub schema: String,
}

impl Default for DatabentoConfig {
    /// No key, dataset `XNAS.ITCH`, schema `mbp-10`.
    fn default() -> (r: DatabentoConfig)
        ensures
            r.api_key@ == Seq::<char>::empty(),
            r.dataset@ == "XNAS.ITCH"@,
            r.schema@ == "mbp-10"@,
    {
        proof {
            reveal_strlit("XNAS.ITCH");
            reveal_strlit("mbp-10");
        }
        DatabentoConfig {
            api_key: String::new(),
            dataset: String::from_str("XNAS.ITCH"),
            schema: String::from_str("mbp-10"),
        }
    }
}

/// The Databento client: its settings and whether it is connected.
#[derive(Debug, Clone)]
pub struct DatabentoClient {
    config: DatabentoConfig,
    connected: bool,
}

impl DatabentoClient {
    pub closed spec fn config_spec(self) -> DatabentoConfig {
        self.config
    }

    pub closed spec fn connected_spec(self) -> bool {
        self.connected
    }

    /// A disconnected client with the given settings.
    pub fn new(config: DatabentoConfig) -> (r: DatabentoClient)
        ensures
            r.config_spec() == config,
            !r.connected_spec(),
    {
        DatabentoClient { config, connected: false }
    }

    /// The settings.
    pub fn config(&self) -> (r: &DatabentoConfig)
        ensures
            *r == self.config_spec(),
    {
        &self.config
    }

    /// Connects; the client is then connected.
    pub fn connect(&mut self) -> (r: Result<(), anyhow::Error>)
        ensures
            r is Ok,
            final(self).connected_spec(),
            final(self).config_spec() == old(self).config_spec(),
    {
        self.connected = true;
        Ok(())
    }

    /// Disconnects; the client is then disconnected.
    pub fn disconnect(&mut self) -> (r: Result<(), anyhow::Error>)
        ensures
            r is Ok,
            !final(self).connected_spec(),
            final(self).config_spec() == old(self).config_spec(),
    {
        self.connected = false;
        Ok(())
    }

    /// Whether the client is connected.
    pub fn is_connected(&self) -> (r: bool)
        ensures
            r == self.connected_spec(),
    {
        self.connected
    }

    /// Subscribes to live data for the symbols; the client state is unchanged.
    pub fn subscribe(&mut self, symbols: &[&str]) -> (r: Result<(), anyhow::Error>)
        ensures
            r is Ok,
            *final(self) == *old(self),
    {
        Ok(())
    }

    /// Historical data for the symbols between two timestamps; no records
    /// are served yet, so the answer is empty.
    pub fn request_historical(&self, symbols: &[&str], start_ts: u64, end_ts: u64) -> (r: Result<
        Vec<MarketData>,
        anyhow::Error,
    >)
        ensures
            r is Ok,
            r->Ok_0@.len() == 0,
    {
        Ok(Vec::new())
    }
}

/// The Databento adapter around a client.
#[derive(Debug, Clone)]
pub struct DatabentoAdapter {
    client: DatabentoClient,
}

impl DatabentoAdapter {
    pub closed spec fn client_spec(self) -> DatabentoClient {
        self.client
    }

    /// An adapter around `client`.
    pub fn new(client: DatabentoClient) -> (r: DatabentoAdapter)
        ensures
            r.client_spec() == client,
    {
        DatabentoAdapter { client }
    }

    /// The client.
    pub fn client(&self) -> (r: &DatabentoClient)
        ensures
            *r == self.client_spec(),
    {
        &self.client
    }

    /// The client, for update.
    pub fn client_mut(&mut self) -> (r: &mut DatabentoClient)
        ensures
            *r == old(self).client_spec(),
            final(self).client_spec() == *final(r),
    {
        &mut self.client
    }
}

/// A Databento market-by-price record.
#[derive(Debug, Clone, PartialEq)]
pub struct MBPRecord {
    pub symbol: String,
    pub ts_event: u64,
    /// The trade price, when the event is a trade.
    pub trade_price: Option<Decimal>,
    pub trade_size: u64,
    pub bids: Vec<BookLevel>,
    pub asks: Vec<BookLevel>,
}

} // verus!
