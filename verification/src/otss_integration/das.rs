//! The DAS Trader Pro adapter.
use crate::decimal::Decimal;
use crate::otss_core::order::{is_hyphenated_uuid, new_uuid_text};
use crate::otss_integration::types::{AccountInfo, AccountType, BrokerOrder, BrokerOrderStatus, BrokerPosition};
use crate::text::{bool_text, bool_words, digits, u64_text};
use vstd::prelude::*;

verus! {

/// DAS Trader settings.
#[derive(Debug, Clone)]
pub struct DasTraderConfig {
    pub host: String,
    pub port: u16,
    pub username: String,
    pub account: String,
    pub paper_trading: bool,
}

impl Default for DasTraderConfig {
    /// `127.0.0.1:8080`, no user or account, paper trading.
    fn default() -> (r: DasTraderConfig)
        ensures
            r.host@ == "127.0.0.1"@,
            r.port == 8080,
            r.username@ == Seq::<char>::empty(),
            r.account@ == Seq::<char>::empty(),
            r.paper_trading,
    {
        proof {
            reveal_strlit("127.0.0.1");
        }
        DasTraderConfig {
            host: String::from_str("127.0.0.1"),
            port: 8080,
            username: String::new(),
            account: String::new(),
            paper_trading: true,
        }
    }
}

/// An order identifier as DAS hands it out: `DAS-ORDER-` and a UUID.
pub open spec fn is_das_order_id(t: Seq<char>) -> bool {
    &&& t.len() == 46
    &&& t.take(10) == "DAS-ORDER-"@
    &&& is_hyphenated_uuid(t.skip(10))
}

/// The DAS Trader adapter: settings and whether it is connected.
#[derive(Debug, Clone)]
pub struct DasTraderAdapter {
    config: DasTraderConfig,
    connected: bool,
}

impl DasTraderAdapter {
    pub closed spec fn config_spec(self) -> DasTraderConfig {
        self.config
    }

    pub closed spec fn connected_spec(self) -> bool {
        self.connected
    }

    /// A disconnected adapter with the given settings.
    pub fn new(config: DasTraderConfig) -> (r: DasTraderAdapter)
        ensures
            r.config_spec() == config,
            !r.connected_spec(),
    {
        DasTraderAdapter { config, connected: false }
    }

    /// The settings.
    pub fn config(&self) -> (r: &DasTraderConfig)
        ensures
            *r == self.config_spec(),
    {
        &self.config
    }

    /// Connects; the adapter is then connected.
    pub fn connect(&mut self) -> (r: Result<(), anyhow::Error>)
        ensures
            r is Ok,
            final(self).connected_spec(),
            final(self).config_spec() == old(self).config_spec(),
    {
        self.connected = true;
        Ok(())
    }

    /// Disconnects; the adapter is then disconnected.
    pub fn disconnect(&mut self) -> (r: Result<(), anyhow::Error>)
        ensures
            r is Ok,
            !final(self).connected_spec(),
            final(self).config_spec() == old(self).config_spec(),
    {
        self.connected = false;
        Ok(())
    }

    /// Whether the adapter is connected.
    pub fn is_connected(&self) -> (r: bool)
        ensures
            r == self.connected_spec(),
    {
        self.connected
    }

    /// Submits an order and answers with a fresh order identifier.
    pub fn submit_order(&mut self, order: &BrokerOrder) -> (r: Result<String, anyhow::Error>)
        ensures
            r is Ok,
            is_das_order_id(r->Ok_0@),
            *final(self) == *old(self),
    {
        let mut id = String::from_str("DAS-ORDER-");
        let u = new_uuid_text();
        id.append(u.as_str());
        proof {
            reveal_strlit("DAS-ORDER-");
            assert(id@.take(10) =~= "DAS-ORDER-"@);
            assert(id@.skip(10) =~= u@);
        }
        Ok(id)
    }

    /// Cancels an order; the adapter state is unchanged.
    pub fn cancel_order(&mut self, order_id: &str) -> (r: Result<(), anyhow::Error>)
        ensures
            r is Ok,
            *final(self) == *old(self),
    {
        Ok(())
    }

    /// The account: the configured account id, a margin account with buying
    /// power 100000.0000 and cash 50000.0000.
    pub fn get_account_info(&self) -> (r: Result<AccountInfo, anyhow::Error>)
        ensures
            r is Ok,
            r->Ok_0.account_id@ == self.config_spec().account@,
            r->Ok_0.account_type == AccountType::Margin,
            r->Ok_0.buying_power == Decimal::mk(1000000000, 4),
            r->Ok_0.cash_balance == Decimal::mk(500000000, 4),
    {
        Ok(AccountInfo {
            account_id: self.config.account.clone(),
            account_type: AccountType::Margin,
            buying_power: Decimal::new(1000000000, 4),
            cash_balance: Decimal::new(500000000, 4),
        })
    }

    /// The positions held; none are reported yet, so the answer is empty.
    pub fn get_positions(&self) -> (r: Result<Vec<BrokerPosition>, anyhow::Error>)
        ensures
            r is Ok,
            r->Ok_0@.len() == 0,
    {
        Ok(Vec::new())
    }

    /// The status of an order: submitted.
    pub fn get_order_status(&self, order_id: &str) -> (r: Result<BrokerOrderStatus, anyhow::Error>)
        ensures
            r is Ok,
            r->Ok_0 == BrokerOrderStatus::Submitted,
    {
        Ok(BrokerOrderStatus::Submitted)
    }

    /// The display text: `DasTraderAdapter(host:port - paper=flag)`.
    pub fn to_string(&self) -> (r: String)
        ensures
            r@ == "DasTraderAdapter("@ + self.config_spec().host@ + ":"@ + digits(self.config_spec().port as nat)
                + " - paper="@ + bool_words(self.config_spec().paper_trading) + ")"@,
    {
        proof {
            reveal_strlit("DasTraderAdapter(");
            reveal_strlit(":");
            reveal_strlit(" - paper=");
            reveal_strlit(")");
        }
        let mut t = String::from_str("DasTraderAdapter(");
        t.append(self.config.host.as_str());
        t.append(":");
        t.append(u64_text(self.config.port as u64).as_str());
        t.append(" - paper=");
        t.append(bool_text(self.config.paper_trading).as_str());
        t.append(")");
        t
    }
}

} // verus!
