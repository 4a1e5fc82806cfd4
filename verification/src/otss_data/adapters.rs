//! Data sources, feed settings and the adapter interface.
use vstd::prelude::*;

verus! {

/// Where market data comes from.
#[derive(Debug, Clone, Copy, PartialEq, Eq, Structural)]
pub enum DataSource {
    Databento,
    Polygon,
    File,
}

impl DataSource {
    /// The lower-case name of the source.
    pub open spec fn name(self) -> Seq<char> {
        match self {
            DataSource::Databento => "databento"@,
            DataSource::Polygon => "polygon"@,
            DataSource::File => "file"@,
        }
    }

    /// The display text: the lower-case name.
    pub fn to_string(&self) -> (r: String)
        ensures
            r@ == self.name(),
    {
        proof {
            reveal_strlit("databento");
            reveal_strlit("polygon");
            reveal_strlit("file");
        }
        match self {
            DataSource::Databento => String::from_str("databento"),
            DataSource::Polygon => String::from_str("polygon"),
            DataSource::File => String::from_str("file"),
        }
    }
}

/// Feed settings.
#[derive(Debug, Clone)]
pub struct FeedConfig {
    pub source: DataSource,
    pub api_key: Option<String>,
    pub url: Option<String>,
    /// Capacity of the incoming buffer.
    pub buffer_size: usize,
    pub auto_reconnect: bool,
}

impl Default for FeedConfig {
    /// Polygon, no key or URL, a buffer of 10000, reconnecting.
    fn default() -> (r: FeedConfig)
        ensures
            r.source == DataSource::Polygon,
            r.api_key is None,
            r.url is None,
            r.buffer_size == 10000,
            r.auto_reconnect,
    {
        FeedConfig { source: DataSource::Polygon, api_key: None, url: None, buffer_size: 10000, auto_reconnect: true }
    }
}

/// A market data adapter, implemented by each feed.
pub trait DataAdapter {
    /// Connects to the source.
    fn connect(&mut self) -> Result<(), anyhow::Error>;

    /// Disconnects from the source.
    fn disconnect(&mut self) -> Result<(), anyhow::Error>;

    /// Whether the adapter is connected.
    fn is_connected(&self) -> bool;

    /// Subscribes to symbols.
    fn subscribe(&mut self, symbols: &[&str]) -> Result<(), anyhow::Error>;

    /// Unsubscribes from symbols.
    fn unsubscribe(&mut self, symbols: &[&str]) -> Result<(), anyhow::Error>;
}

/// The state of a feed.
#[derive(Debug, Clone, Copy, PartialEq, Eq, Structural)]
pub enum FeedStatus {
    Disconnected,
    Connecting,
    Connected,
    Error,
}

impl FeedStatus {
    /// The lower-case name of the state.
    pub open spec fn name(self) -> Seq<char> {
        match self {
            FeedStatus::Disconnected => "disconnected"@,
            FeedStatus::Connecting => "connecting"@,
            FeedStatus::Connected => "connected"@,
            FeedStatus::Error => "error"@,
        }
    }

    /// The display text: the lower-case name.
    pub fn to_string(&self) -> (r: String)
        ensures
            r@ == self.name(),
    {
        proof {
            reveal_strlit("disconnected");
            reveal_strlit("connecting");
            reveal_strlit("connected");
            reveal_strlit("error");
        }
        match self {
            FeedStatus::Disconnected => String::from_str("disconnected"),
            FeedStatus::Connecting => String::from_str("connecting"),
            FeedStatus::Connected => String::from_str("connected"),
            FeedStatus::Error => String::from_str("error"),
        }
    }
}

/// What an adapter can fail with.
#[derive(Debug, Clone)]
pub enum AdapterError {
    ConnectionFailed(String),
    AuthFailed,
    RateLimited,
    InvalidSymbol(String),
    ParseError(String),
}

impl AdapterError {
    /// The message of the error.
    pub open spec fn text(self) -> Seq<char> {
        match self {
            AdapterError::ConnectionFailed(s) => "Connection failed: "@ + s@,
            AdapterError::AuthFailed => "Authentication failed"@,
            AdapterError::RateLimited => "Rate limited"@,
            AdapterError::InvalidSymbol(s) => "Invalid symbol: "@ + s@,
            AdapterError::ParseError(s) => "Parse error: "@ + s@,
        }
    }

    /// The message of the error.
    pub fn message(&self) -> (r: String)
        ensures
            r@ == self.text(),
    {
        proof {
            reveal_strlit("Connection failed: ");
            reveal_strlit("Authentication failed");
            reveal_strlit("Rate limited");
            reveal_strlit("Invalid symbol: ");
            reveal_strlit("Parse error: ");
        }
        match self {
            AdapterError::ConnectionFailed(s) => {
                let mut t = String::from_str("Connection failed: ");
                t.append(s.as_str());
                t
            },
            AdapterError::AuthFailed => String::from_str("Authentication failed"),
            AdapterError::RateLimited => String::from_str("Rate limited"),
            AdapterError::InvalidSymbol(s) => {
                let mut t = String::from_str("Invalid symbol: ");
                t.append(s.as_str());
                t
            },
            AdapterError::ParseError(s) => {
                let mut t = String::from_str("Parse error: ");
                t.append(s.as_str());
                t
            },
        }
    }
}

} // verus!
