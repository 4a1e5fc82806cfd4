//! Infrastructure health.
use vstd::prelude::*;

verus! {

/// The health of a component or of the system.
#[derive(Debug, Clone, Copy, PartialEq, Eq, Structural)]
pub enum HealthStatus {
    Healthy,
    Degraded,
    Unhealthy,
    Unknown,
}

impl HealthStatus {
    /// The lower-case name of the status.
    pub open spec fn name(self) -> Seq<char> {
        match self {
            HealthStatus::Healthy => "healthy"@,
            HealthStatus::Degraded => "degraded"@,
            HealthStatus::Unhealthy => "unhealthy"@,
            HealthStatus::Unknown => "unknown"@,
        }
    }

    /// The display text: the lower-case name.
    pub fn to_string(&self) -> (r: String)
        ensures
            r@ == self.name(),
    {
        proof {
            reveal_strlit("healthy");
            reveal_strlit("degraded");
            reveal_strlit("unhealthy");
            reveal_strlit("unknown");
        }
        match self {
            HealthStatus::Healthy => String::from_str("healthy"),
            HealthStatus::Degraded => String::from_str("degraded"),
            HealthStatus::Unhealthy => String::from_str("unhealthy"),
            HealthStatus::Unknown => String::from_str("unknown"),
        }
    }

    /// Whether the status is healthy.
    pub fn is_healthy(&self) -> (r: bool)
        ensures
            r == (*self == HealthStatus::Healthy),
    {
        match self {
            HealthStatus::Healthy => true,
            _ => false,
        }
    }

    /// Whether the status is degraded or unhealthy.
    pub fn needs_attention(&self) -> (r: bool)
        ensures
            r == (*self == HealthStatus::Degraded || *self == HealthStatus::Unhealthy),
    {
        match self {
            HealthStatus::Degraded | HealthStatus::Unhealthy => true,
            _ => false,
        }
    }
}

/// The health of one component.
#[derive(Debug, Clone)]
pub struct HealthCheck {
    pub name: String,
    pub status: HealthStatus,
    pub details: String,
    pub response_time_ms: u64,
}

/// Some component has the status `s`.
pub open spec fn any_status(checks: Seq<HealthCheck>, s: HealthStatus) -> bool {
    exists|i: int| 0 <= i < checks.len() && #[trigger] checks[i].status == s
}

/// The overall health of components: unhealthy if any is, else degraded if
/// any is, else unknown if any is, else healthy.
pub open spec fn overall_status(checks: Seq<HealthCheck>) -> HealthStatus {
    if any_status(checks, HealthStatus::Unhealthy) {
        HealthStatus::Unhealthy
    } else if any_status(checks, HealthStatus::Degraded) {
        HealthStatus::Degraded
    } else if any_status(checks, HealthStatus::Unknown) {
        HealthStatus::Unknown
    } else {
        HealthStatus::Healthy
    }
}

/// The system is healthy exactly when every component is healthy; it is
/// unhealthy exactly when some component is.
pub proof fn lemma_overall_status(checks: Seq<HealthCheck>)
    ensures
        overall_status(checks) == HealthStatus::Healthy <==> forall|i: int|
            0 <= i < checks.len() ==> #[trigger] checks[i].status == HealthStatus::Healthy,
        overall_status(checks) == HealthStatus::Unhealthy <==> any_status(checks, HealthStatus::Unhealthy),
{
    if forall|i: int| 0 <= i < checks.len() ==> #[trigger] checks[i].status == HealthStatus::Healthy {
        assert(!any_status(checks, HealthStatus::Unhealthy));
        assert(!any_status(checks, HealthStatus::Degraded));
        assert(!any_status(checks, HealthStatus::Unknown));
    }
    if overall_status(checks) == HealthStatus::Healthy {
        assert forall|i: int| 0 <= i < checks.len() implies #[trigger] checks[i].status == HealthStatus::Healthy by {
            if checks[i].status != HealthStatus::Healthy {
                assert(any_status(checks, checks[i].status));
            }
        }
    }
}

/// The health of the system: the overall status and each component's.
#[derive(Debug, Clone)]
pub struct SystemHealth {
    pub overall: HealthStatus,
    pub components: Vec<HealthCheck>,
}

fn has_status(checks: &Vec<HealthCheck>, s: HealthStatus) -> (r: bool)
    ensures
        r == any_status(checks@, s),
{
    let mut i: usize = 0;
    while i < checks.len()
        invariant
            i <= checks@.len(),
            forall|j: int| 0 <= j < i ==> #[trigger] checks@[j].status != s,
        decreases checks@.len() - i,
    {
        if checks[i].status == s {
            return true;
        }
        i = i + 1;
    }
    false
}

impl SystemHealth {
    /// No components, overall unknown.
    pub fn new() -> (r: SystemHealth)
        ensures
            r.overall == HealthStatus::Unknown,
            r.components@.len() == 0,
    {
        SystemHealth { overall: HealthStatus::Unknown, components: Vec::new() }
    }

    /// Adds a component's health and recomputes the overall status.
    pub fn add_check(&mut self, check: HealthCheck)
        ensures
            final(self).components@ == old(self).components@.push(check),
            final(self).overall == overall_status(final(self).components@),
    {
        self.components.push(check);
        self.update_overall();
    }

    fn update_overall(&mut self)
        ensures
            final(self).components == old(self).components,
            final(self).overall == overall_status(old(self).components@),
    {
        if has_status(&self.components, HealthStatus::Unhealthy) {
            self.overall = HealthStatus::Unhealthy;
        } else if has_status(&self.components, HealthStatus::Degraded) {
            self.overall = HealthStatus::Degraded;
        } else if has_status(&self.components, HealthStatus::Unknown) {
            self.overall = HealthStatus::Unknown;
        } else {
            self.overall = HealthStatus::Healthy;
        }
    }
}

impl Default for SystemHealth {
    fn default() -> (r: SystemHealth)
        ensures
            r.overall == HealthStatus::Unknown,
            r.components@.len() == 0,
    {
        SystemHealth::new()
    }
}

} // verus!
