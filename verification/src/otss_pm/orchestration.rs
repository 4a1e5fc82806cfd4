//! System orchestration: settings, state and the orchestrator.
use vstd::prelude::*;

verus! {

/// A service's settings.
#[derive(Debug, Clone, Copy, PartialEq, Eq, Structural)]
pub struct ServiceConfig {
    pub enabled: bool,
    /// Start-up priority, lower first.
    pub priority: u32,
}

/// System settings: name, environment and each service's settings by name.
#[derive(Debug, Clone)]
pub struct SystemConfig {
    pub name: String,
    pub environment: String,
    pub services: Vec<(String, ServiceConfig)>,
}

impl SystemConfig {
    /// No two services share a name.
    pub open spec fn names_distinct(self) -> bool {
        forall|i: int, j: int|
            0 <= i < self.services@.len() && 0 <= j < self.services@.len() && i != j ==> #[trigger] self.services@[i].0@
                != #[trigger] self.services@[j].0@
    }

    /// The default settings: `OTSS` in `development`, with the trading engine
    /// (priority 1), market data and broker integration (priority 2) enabled.
    pub open spec fn is_default(self) -> bool {
        &&& self.name@ == "OTSS"@
        &&& self.environment@ == "development"@
        &&& self.services@.len() == 3
        &&& self.services@[0].0@ == "trading-engine"@
        &&& self.services@[0].1 == (ServiceConfig { enabled: true, priority: 1 })
        &&& self.services@[1].0@ == "market-data"@
        &&& self.services@[1].1 == (ServiceConfig { enabled: true, priority: 2 })
        &&& self.services@[2].0@ == "broker-integration"@
        &&& self.services@[2].1 == (ServiceConfig { enabled: true, priority: 2 })
    }

    /// Whether no two services share a name.
    pub fn has_distinct_names(&self) -> (r: bool)
        ensures
            r == self.names_distinct(),
    {
        let n = self.services.len();
        let mut i: usize = 0;
        while i < n
            invariant
                i <= n == self.services@.len(),
                forall|a: int, b: int|
                    0 <= a < i && 0 <= b < n && a != b ==> #[trigger] self.services@[a].0@
                        != #[trigger] self.services@[b].0@,
            decreases n - i,
        {
            let mut j: usize = 0;
            while j < n
                invariant
                    i < n == self.services@.len(),
                    j <= n,
                    forall|a: int, b: int|
                        0 <= a < i && 0 <= b < n && a != b ==> #[trigger] self.services@[a].0@
                            != #[trigger] self.services@[b].0@,
                    forall|b: int| 0 <= b < j && b != i ==> self.services@[i as int].0@ != #[trigger] self.services@[b].0@,
                decreases n - j,
            {
                if j != i && self.services[i].0 == self.services[j].0 {
                    return false;
                }
                j = j + 1;
            }
            i = i + 1;
        }
        true
    }
}

impl Default for SystemConfig {
    /// `OTSS` in `development`, with the trading engine (priority 1), market
    /// data and broker integration (priority 2) enabled.
    fn default() -> (r: SystemConfig)
        ensures
            r.is_default(),
            r.names_distinct(),
    {
        proof {
            reveal_strlit("OTSS");
            reveal_strlit("development");
            reveal_strlit("trading-engine");
            reveal_strlit("market-data");
            reveal_strlit("broker-integration");
            assert("trading-engine"@[0] != "market-data"@[0]);
            assert("trading-engine"@[0] != "broker-integration"@[0]);
            assert("market-data"@[0] != "broker-integration"@[0]);
        }
        let mut services: Vec<(String, ServiceConfig)> = Vec::new();
        services.push((String::from_str("trading-engine"), ServiceConfig { enabled: true, priority: 1 }));
        services.push((String::from_str("market-data"), ServiceConfig { enabled: true, priority: 2 }));
        services.push((String::from_str("broker-integration"), ServiceConfig { enabled: true, priority: 2 }));
        SystemConfig { name: String::from_str("OTSS"), environment: String::from_str("development"), services }
    }
}

/// The state of the system.
#[derive(Debug, Clone, Copy, PartialEq, Eq, Structural)]
pub enum SystemState {
    Initializing,
    Running,
    Degraded,
    Stopping,
    Stopped,
}

/// The enabled services' entries, in order.
pub open spec fn enabled_entries(s: Seq<(String, ServiceConfig)>) -> Seq<(String, ServiceConfig)>
    decreases s.len(),
{
    if s.len() == 0 {
        Seq::empty()
    } else if s.last().1.enabled {
        enabled_entries(s.drop_last()).push(s.last())
    } else {
        enabled_entries(s.drop_last())
    }
}

/// Under the default settings every service is enabled, so the enabled
/// services are all three, in order.
pub proof fn lemma_default_all_enabled(config: SystemConfig)
    requires
        config.is_default(),
    ensures
        enabled_entries(config.services@) == config.services@,
{
    let s = config.services@;
    let t1 = s.take(1);
    let t2 = s.take(2);
    assert(t1.drop_last() =~= Seq::<(String, ServiceConfig)>::empty());
    assert(enabled_entries(t1.drop_last()) =~= Seq::<(String, ServiceConfig)>::empty());
    assert(t1.last() == s[0]);
    assert(enabled_entries(t1) =~= t1);
    assert(t2.drop_last() =~= t1);
    assert(t2.last() == s[1]);
    assert(enabled_entries(t2) =~= t2);
    assert(s.drop_last() =~= t2);
}

/// Runs the system under its settings.
#[derive(Debug, Clone)]
pub struct Orchestrator {
    config: SystemConfig,
    state: SystemState,
}

impl Orchestrator {
    pub closed spec fn config_spec(self) -> SystemConfig {
        self.config
    }

    pub closed spec fn state_spec(self) -> SystemState {
        self.state
    }

    /// An orchestrator that is initializing; service names are distinct, as
    /// keys of the settings.
    pub fn new(config: SystemConfig) -> (r: Orchestrator)
        requires
            config.names_distinct(),
        ensures
            r.config_spec() == config,
            r.state_spec() == SystemState::Initializing,
    {
        Orchestrator { config, state: SystemState::Initializing }
    }

    /// The state.
    pub fn state(&self) -> (r: SystemState)
        ensures
            r == self.state_spec(),
    {
        self.state
    }

    /// Starts the system; it is then running.
    pub fn start(&mut self) -> (r: Result<(), anyhow::Error>)
        ensures
            r is Ok,
            final(self).state_spec() == SystemState::Running,
            final(self).config_spec() == old(self).config_spec(),
    {
        self.state = SystemState::Running;
        Ok(())
    }

    /// Stops the system, through stopping; it is then stopped.
    pub fn stop(&mut self) -> (r: Result<(), anyhow::Error>)
        ensures
            r is Ok,
            final(self).state_spec() == SystemState::Stopped,
            final(self).config_spec() == old(self).config_spec(),
    {
        self.state = SystemState::Stopping;
        self.state = SystemState::Stopped;
        Ok(())
    }

    /// The settings.
    pub fn config(&self) -> (r: &SystemConfig)
        ensures
            *r == self.config_spec(),
    {
        &self.config
    }

    /// The enabled services with their settings, in order.
    pub fn enabled_services(&self) -> (r: Vec<(&String, &ServiceConfig)>)
        ensures
            r@.len() == enabled_entries(self.config_spec().services@).len(),
            forall|i: int|
                0 <= i < r@.len() ==> *(#[trigger] r@[i]).0 == enabled_entries(self.config_spec().services@)[i].0
                    && *r@[i].1 == enabled_entries(self.config_spec().services@)[i].1,
    {
        let services = &self.config.services;
        let mut out: Vec<(&String, &ServiceConfig)> = Vec::new();
        let mut i: usize = 0;
        while i < services.len()
            invariant
                i <= services@.len(),
                out@.len() == enabled_entries(services@.take(i as int)).len(),
                forall|k: int|
                    0 <= k < out@.len() ==> *(#[trigger] out@[k]).0 == enabled_entries(services@.take(i as int))[k].0
                        && *out@[k].1 == enabled_entries(services@.take(i as int))[k].1,
            decreases services@.len() - i,
        {
            proof {
                assert(services@.take(i as int + 1).drop_last() =~= services@.take(i as int));
                assert(services@.take(i as int + 1).last() == services@[i as int]);
            }
            let entry = &services[i];
            if entry.1.enabled {
                out.push((&entry.0, &entry.1));
            }
            i = i + 1;
        }
        proof {
            assert(services@.take(i as int) =~= services@);
        }
        out
    }
}

impl Default for Orchestrator {
    /// An initializing orchestrator with the default settings.
    fn default() -> (r: Orchestrator)
        ensures
            r.state_spec() == SystemState::Initializing,
            r.config_spec().is_default(),
            r.config_spec().names_distinct(),
    {
        Orchestrator::new(SystemConfig::default())
    }
}

} // verus!
