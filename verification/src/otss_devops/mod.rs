//! DevOps models: build targets, CI pipeline generation, deployment and
//! infrastructure health.
pub mod builds;
pub mod ci;
pub mod deploy;
pub mod health;

use crate::otss_devops::health::HealthStatus;
use vstd::prelude::*;

verus! {

/// The version of the devops module.
pub const VERSION: &'static str = "0.1.0";

/// Whether the devops tools are ready: always.
pub fn check_ready() -> (r: bool)
    ensures
        r,
{
    true
}

/// The health of the CI/CD and deployment infrastructure: healthy.
pub fn health_check() -> (r: HealthStatus)
    ensures
        r == HealthStatus::Healthy,
{
    HealthStatus::Healthy
}

/// The status line of the build pipeline.
pub fn get_pipeline_status() -> (r: String)
    ensures
        r@ == "Pipeline: Ready"@,
{
    proof {
        reveal_strlit("Pipeline: Ready");
    }
    String::from_str("Pipeline: Ready")
}

/// Sets up the devops module; there is no state to prepare.
pub fn init() {
}

} // verus!
