//! The broker adapter interface, connection settings and errors.
use vstd::prelude::*;

verus! {

/// A broker adapter, implemented by each broker.
pub trait BrokerAdapter {
    /// Connects to the broker.
    fn connect(&mut self) -> Result<(), anyhow::Error>;

    /// Disconnects from the broker.
    fn disconnect(&mut self) -> Result<(), anyhow::Error>;

    /// Whether the adapter is connected.
    fn is_connected(&self) -> bool;
}

/// Connection settings of a broker adapter.
#[derive(Debug, Clone)]
pub struct ConnectionConfig {
    pub host: String,
    pub port: u16,
    pub use_tls: bool,
    pub api_key: Option<String>,
}

impl Default for ConnectionConfig {
    /// `localhost:8080` over TLS, no key.
    fn default() -> (r: ConnectionConfig)
        ensures
            r.host@ == "localhost"@,
            r.port == 8080,
            r.use_tls,
            r.api_key is None,
    {
        proof {
            reveal_strlit("localhost");
        }
        ConnectionConfig { host: String::from_str("localhost"), port: 8080, use_tls: true, api_key: None }
    }
}

/// The outcome of an order execution.
#[derive(Debug, Clone)]
pub struct ExecutionResult {
    pub success: bool,
    pub message: String,
}

/// What a broker can fail with.
#[derive(Debug, Clone)]
pub enum BrokerError {
    ConnectionFailed(String),
    OrderRejected(String),
    AuthFailed,
    RateLimited,
    InvalidSymbol(String),
    InsufficientFunds,
}

impl BrokerError {
    /// The message of the error.
    pub open spec fn text(self) -> Seq<char> {
        match self {
            BrokerError::ConnectionFailed(s) => "Connection failed: "@ + s@,
            BrokerError::OrderRejected(s) => "Order rejected: "@ + s@,
            BrokerError::AuthFailed => "Authentication failed"@,
            BrokerError::RateLimited => "Rate limited"@,
            BrokerError::InvalidSymbol(s) => "Invalid symbol: "@ + s@,
            BrokerError::InsufficientFunds => "Insufficient funds"@,
        }
    }

    /// The message of the error.
    pub fn message(&self) -> (r: String)
        ensures
            r@ == self.text(),
    {
        proof {
            reveal_strlit("Connection failed: ");
            reveal_strlit("Order rejected: ");
            reveal_strlit("Authentication failed");
            reveal_strlit("Rate limited");
            reveal_strlit("Invalid symbol: ");
            reveal_strlit("Insufficient funds");
        }
        match self {
            BrokerError::ConnectionFailed(s) => {
                let mut t = String::from_str("Connection failed: ");
                t.append(s.as_str());
                t
            },
            BrokerError::OrderRejected(s) => {
                let mut t = String::from_str("Order rejected: ");
                t.append(s.as_str());
                t
            },
            BrokerError::AuthFailed => String::from_str("Authentication failed"),
            BrokerError::RateLimited => String::from_str("Rate limited"),
            BrokerError::InvalidSymbol(s) => {
                let mut t = String::from_str("Invalid symbol: ");
                t.append(s.as_str());
                t
            },
            BrokerError::InsufficientFunds => String::from_str("Insufficient funds"),
        }
    }
}

} // verus!
