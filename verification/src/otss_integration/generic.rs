//! A generic REST/WebSocket broker adapter.
use crate::otss_core::order::{is_hyphenated_uuid, new_uuid_text};
use crate::otss_integration::types::BrokerOrder;
use vstd::prelude::*;

verus! {

/// Generic broker settings.
#[derive(Debug, Clone)]
pub struct GenericBrokerConfig {
    pub api_url: String,
    pub ws_url: String,
    pub api_key: String,
    pub api_secret: String,
}

impl Default for GenericBrokerConfig {
    /// Example endpoints, no key or secret.
    fn default() -> (r: GenericBrokerConfig)
        ensures
            r.api_url@ == "https://api.example.com"@,
            r.ws_url@ == "wss://ws.example.com"@,
            r.api_key@ == Seq::<char>::empty(),
            r.api_secret@ == Seq::<char>::empty(),
    {
        proof {
            reveal_strlit("https://api.example.com");
            reveal_strlit("wss://ws.example.com");
        }
        GenericBrokerConfig {
            api_url: String::from_str("https://api.example.com"),
            ws_url: String::from_str("wss://ws.example.com"),
            api_key: String::new(),
            api_secret: String::new(),
        }
    }
}

/// An order identifier as the generic broker hands it out: `ORDER-` and a UUID.
pub open spec fn is_generic_order_id(t: Seq<char>) -> bool {
    &&& t.len() == 42
    &&& t.take(6) == "ORDER-"@
    &&& is_hyphenated_uuid(t.skip(6))
}

/// The generic broker adapter: settings and whether it is connected.
#[derive(Debug, Clone)]
pub struct GenericBrokerAdapter {
    config: GenericBrokerConfig,
    connected: bool,
}

impl GenericBrokerAdapter {
    pub closed spec fn config_spec(self) -> GenericBrokerConfig {
        self.config
    }

    pub closed spec fn connected_spec(self) -> bool {
        self.connected
    }

    /// A disconnected adapter with the given settings.
    pub fn new(config: GenericBrokerConfig) -> (r: GenericBrokerAdapter)
        ensures
            r.config_spec() == config,
            !r.connected_spec(),
    {
        GenericBrokerAdapter { config, connected: false }
    }

    /// The settings.
    pub fn config(&self) -> (r: &GenericBrokerConfig)
        ensures
            *r == self.config_spec(),
    {
        &self.config
    }

    /// Connects; the adapter is then connected.
    pub fn connect(&mut self) -> (r: Result<(), anyhow::Error>)
        ensures
            r is Ok,
            final(self).connected_spec(),
            final(self).config_spec() == old(self).config_spec(),
    {
        self.connected = true;
        Ok(())
    }

    /// Disconnects; the adapter is then disconnected.
    pub fn disconnect(&mut self) -> (r: Result<(), anyhow::Error>)
        ensures
            r is Ok,
            !final(self).connected_spec(),
            final(self).config_spec() == old(self).config_spec(),
    {
        self.connected = false;
        Ok(())
    }

    /// Whether the adapter is connected.
    pub fn is_connected(&self) -> (r: bool)
        ensures
            r == self.connected_spec(),
    {
        self.connected
    }

    /// Submits an order and answers with a fresh order identifier.
    pub fn submit_order(&mut self, order: &BrokerOrder) -> (r: Result<String, anyhow::Error>)
        ensures
            r is Ok,
            is_generic_order_id(r->Ok_0@),
            *final(self) == *old(self),
    {
        let mut id = String::from_str("ORDER-");
        let u = new_uuid_text();
        id.append(u.as_str());
        proof {
            reveal_strlit("ORDER-");
            assert(id@.take(6) =~= "ORDER-"@);
            assert(id@.skip(6) =~= u@);
        }
        Ok(id)
    }

    /// Cancels an order; the adapter state is unchanged.
    pub fn cancel_order(&mut self, order_id: &str) -> (r: Result<(), anyhow::Error>)
        ensures
            r is Ok,
            *final(self) == *old(self),
    {
        Ok(())
    }
}

} // verus!
