//! Broker integration: order, fill and account records, and the DAS Trader
//! and generic broker adapters' connection state.
pub mod adapters;
pub mod das;
pub mod generic;
pub mod types;

use crate::otss_integration::adapters::ConnectionConfig;
use vstd::prelude::*;

verus! {

/// The version of the broker integration module.
pub const VERSION: &'static str = "0.1.0";

/// Sets up the broker integration module; there is no state to prepare.
pub fn init() {
}

/// The names of the broker adapters: `das-trader`, then `generic`.
pub fn available_adapters() -> (r: Vec<&'static str>)
    ensures
        r@.len() == 2,
        r@[0]@ == "das-trader"@,
        r@[1]@ == "generic"@,
{
    proof {
        reveal_strlit("das-trader");
        reveal_strlit("generic");
    }
    let mut v: Vec<&'static str> = Vec::new();
    v.push("das-trader");
    v.push("generic");
    v
}

/// The default connection: `localhost:8080` over TLS, no key.
pub fn default_connection_config() -> (r: ConnectionConfig)
    ensures
        r.host@ == "localhost"@,
        r.port == 8080,
        r.use_tls,
        r.api_key is None,
{
    proof {
        reveal_strlit("localhost");
    }
    ConnectionConfig { host: String::from_str("localhost"), port: 8080, use_tls: true, api_key: None }
}

} // verus!
