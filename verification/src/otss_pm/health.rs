//! Service health monitoring and alerting.
use vstd::prelude::*;

verus! {

/// Monitors services at an interval.
#[derive(Debug, Clone, Copy)]
pub struct SystemMonitor {
    interval_secs: u64,
}

/// The health of a service.
#[derive(Debug, Clone, Copy, PartialEq, Eq, Structural)]
pub enum ServiceHealth {
    Healthy,
    Warning,
    Critical,
    Unknown,
}

/// A service's name, health and uptime.
#[derive(Debug, Clone)]
pub struct ServiceStatus {
    pub name: String,
    pub health: ServiceHealth,
    pub uptime_secs: u64,
}

/// The overall health and each service's status.
#[derive(Debug, Clone)]
pub struct HealthReport {
    pub overall: ServiceHealth,
    pub services: Vec<ServiceStatus>,
}

/// Some service has the health `h`.
pub open spec fn any_health(services: Seq<ServiceStatus>, h: ServiceHealth) -> bool {
    exists|i: int| 0 <= i < services.len() && #[trigger] services[i].health == h
}

/// The worst health among services: critical if any is, else warning if any
/// is, else healthy if all are, else unknown.
pub open spec fn worst_of(services: Seq<ServiceStatus>) -> ServiceHealth {
    if any_health(services, ServiceHealth::Critical) {
        ServiceHealth::Critical
    } else if any_health(services, ServiceHealth::Warning) {
        ServiceHealth::Warning
    } else if forall|i: int| 0 <= i < services.len() ==> #[trigger] services[i].health == ServiceHealth::Healthy {
        ServiceHealth::Healthy
    } else {
        ServiceHealth::Unknown
    }
}

/// The worst health is healthy exactly when every service is healthy, and
/// critical exactly when some service is critical.
pub proof fn lemma_worst_of(services: Seq<ServiceStatus>)
    ensures
        worst_of(services) == ServiceHealth::Healthy <==> forall|i: int|
            0 <= i < services.len() ==> #[trigger] services[i].health == ServiceHealth::Healthy,
        worst_of(services) == ServiceHealth::Critical <==> any_health(services, ServiceHealth::Critical),
{
    if forall|i: int| 0 <= i < services.len() ==> #[trigger] services[i].health == ServiceHealth::Healthy {
        assert(!any_health(services, ServiceHealth::Critical));
        assert(!any_health(services, ServiceHealth::Warning));
    }
}

fn has_health(services: &[ServiceStatus], h: ServiceHealth) -> (r: bool)
    ensures
        r == any_health(services@, h),
{
    let mut i: usize = 0;
    while i < services.len()
        invariant
            i <= services@.len(),
            forall|j: int| 0 <= j < i ==> #[trigger] services@[j].health != h,
        decreases services@.len() - i,
    {
        if services[i].health == h {
            return true;
        }
        i = i + 1;
    }
    false
}

fn all_healthy(services: &[ServiceStatus]) -> (r: bool)
    ensures
        r == forall|i: int| 0 <= i < services@.len() ==> #[trigger] services@[i].health == ServiceHealth::Healthy,
{
    let mut i: usize = 0;
    while i < services.len()
        invariant
            i <= services@.len(),
            forall|j: int| 0 <= j < i ==> #[trigger] services@[j].health == ServiceHealth::Healthy,
        decreases services@.len() - i,
    {
        if services[i].health != ServiceHealth::Healthy {
            return false;
        }
        i = i + 1;
    }
    true
}

impl SystemMonitor {
    pub closed spec fn interval_spec(self) -> u64 {
        self.interval_secs
    }

    /// A monitor checking every `interval_secs` seconds.
    pub fn new(interval_secs: u64) -> (r: SystemMonitor)
        ensures
            r.interval_spec() == interval_secs,
    {
        SystemMonitor { interval_secs }
    }

    /// The interval in seconds.
    pub fn interval(&self) -> (r: u64)
        ensures
            r == self.interval_spec(),
    {
        self.interval_secs
    }

    /// The status of the service `name`: healthy, with no uptime recorded.
    pub fn check_service(&self, name: &str) -> (r: ServiceStatus)
        ensures
            r.name@ == name@,
            r.health == ServiceHealth::Healthy,
            r.uptime_secs == 0,
    {
        ServiceStatus { name: String::from_str(name), health: ServiceHealth::Healthy, uptime_secs: 0 }
    }

    /// The health report: healthy, with no services checked.
    pub fn generate_report(&self) -> (r: Result<HealthReport, anyhow::Error>)
        ensures
            r is Ok,
            r->Ok_0.overall == ServiceHealth::Healthy,
            r->Ok_0.services@.len() == 0,
    {
        Ok(HealthReport { overall: ServiceHealth::Healthy, services: Vec::new() })
    }

    fn worst_health(&self, services: &[ServiceStatus]) -> (r: ServiceHealth)
        ensures
            r == worst_of(services@),
    {
        if has_health(services, ServiceHealth::Critical) {
            return ServiceHealth::Critical;
        }
        if has_health(services, ServiceHealth::Warning) {
            return ServiceHealth::Warning;
        }
        if all_healthy(services) {
            return ServiceHealth::Healthy;
        }
        ServiceHealth::Unknown
    }
}

impl Default for SystemMonitor {
    /// A monitor checking every 30 seconds.
    fn default() -> (r: SystemMonitor)
        ensures
            r.interval_spec() == 30,
    {
        SystemMonitor::new(30)
    }
}

/// The severity of an alert.
#[derive(Debug, Clone, Copy, PartialEq, Eq, Structural)]
pub enum AlertLevel {
    Info,
    Warning,
    Critical,
}

/// An alert: its level, message and the service that raised it.
#[derive(Debug, Clone)]
pub struct Alert {
    pub level: AlertLevel,
    pub message: String,
    pub service: String,
}

/// Holds the pending alerts, oldest first.
#[derive(Debug, Clone)]
pub struct AlertManager {
    alerts: Vec<Alert>,
}

impl AlertManager {
    /// The pending alerts, oldest first.
    pub closed spec fn alerts_spec(self) -> Seq<Alert> {
        self.alerts@
    }

    /// No pending alerts.
    pub fn new() -> (r: AlertManager)
        ensures
            r.alerts_spec().len() == 0,
    {
        AlertManager { alerts: Vec::new() }
    }

    /// Raises an alert: it joins the pending alerts last.
    pub fn alert(&mut self, level: AlertLevel, message: String, service: String)
        ensures
            final(self).alerts_spec() == old(self).alerts_spec().push(
                Alert { level, message, service },
            ),
    {
        self.alerts.push(Alert { level, message, service });
    }

    /// The pending alerts, oldest first.
    pub fn pending(&self) -> (r: &[Alert])
        ensures
            r@ == self.alerts_spec(),
    {
        self.alerts.as_slice()
    }

    /// Drops every pending alert.
    pub fn clear(&mut self)
        ensures
            final(self).alerts_spec().len() == 0,
    {
        self.alerts.clear();
    }
}

impl Default for AlertManager {
    fn default() -> (r: AlertManager)
        ensures
            r.alerts_spec().len() == 0,
    {
        AlertManager::new()
    }
}

} // verus!
