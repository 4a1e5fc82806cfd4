//! Deployment targets, settings and the deployment manager.
use crate::text::{debug_text, str_debug};
use vstd::prelude::*;

verus! {

/// Where a deployment goes.
#[derive(Debug, Clone, PartialEq, Eq)]
pub enum DeployTarget {
    Localhost,
    Staging,
    Production,
    Docker,
    Kubernetes { namespace: String },
}

impl DeployTarget {
    /// The display text: the lower-case name, `k8s/` and the namespace for Kubernetes.
    pub open spec fn name(self) -> Seq<char> {
        match self {
            DeployTarget::Localhost => "localhost"@,
            DeployTarget::Staging => "staging"@,
            DeployTarget::Production => "production"@,
            DeployTarget::Docker => "docker"@,
            DeployTarget::Kubernetes { namespace } => "k8s/"@ + namespace@,
        }
    }

    /// The debug text: the variant's name, with the namespace's debug text for Kubernetes.
    pub open spec fn debug_name(self) -> Seq<char> {
        match self {
            DeployTarget::Localhost => "Localhost"@,
            DeployTarget::Staging => "Staging"@,
            DeployTarget::Production => "Production"@,
            DeployTarget::Docker => "Docker"@,
            DeployTarget::Kubernetes { namespace } => "Kubernetes { namespace: "@ + debug_text(namespace@) + " }"@,
        }
    }

    /// The display text: the lower-case name, `k8s/` and the namespace for Kubernetes.
    pub fn to_string(&self) -> (r: String)
        ensures
            r@ == self.name(),
    {
        proof {
            reveal_strlit("localhost");
            reveal_strlit("staging");
            reveal_strlit("production");
            reveal_strlit("docker");
            reveal_strlit("k8s/");
        }
        match self {
            DeployTarget::Localhost => String::from_str("localhost"),
            DeployTarget::Staging => String::from_str("staging"),
            DeployTarget::Production => String::from_str("production"),
            DeployTarget::Docker => String::from_str("docker"),
            DeployTarget::Kubernetes { namespace } => {
                let mut t = String::from_str("k8s/");
                t.append(namespace.as_str());
                t
            },
        }
    }

    fn debug_string(&self) -> (r: String)
        ensures
            r@ == self.debug_name(),
    {
        proof {
            reveal_strlit("Localhost");
            reveal_strlit("Staging");
            reveal_strlit("Production");
            reveal_strlit("Docker");
            reveal_strlit("Kubernetes { namespace: ");
            reveal_strlit(" }");
        }
        match self {
            DeployTarget::Localhost => String::from_str("Localhost"),
            DeployTarget::Staging => String::from_str("Staging"),
            DeployTarget::Production => String::from_str("Production"),
            DeployTarget::Docker => String::from_str("Docker"),
            DeployTarget::Kubernetes { namespace } => {
                let mut t = String::from_str("Kubernetes { namespace: ");
                t.append(str_debug(namespace.as_str()).as_str());
                t.append(" }");
                t
            },
        }
    }

    fn duplicate(&self) -> (r: DeployTarget)
        ensures
            r == *self,
    {
        match self {
            DeployTarget::Localhost => DeployTarget::Localhost,
            DeployTarget::Staging => DeployTarget::Staging,
            DeployTarget::Production => DeployTarget::Production,
            DeployTarget::Docker => DeployTarget::Docker,
            DeployTarget::Kubernetes { namespace } => DeployTarget::Kubernetes { namespace: namespace.clone() },
        }
    }
}

/// Deployment settings.
#[derive(Debug, Clone)]
pub struct DeployConfig {
    pub target: DeployTarget,
    pub version: String,
    pub wait_for_ready: bool,
}

impl Default for DeployConfig {
    /// The latest version to localhost, waiting for readiness.
    fn default() -> (r: DeployConfig)
        ensures
            r.target == DeployTarget::Localhost,
            r.version@ == "latest"@,
            r.wait_for_ready,
    {
        proof {
            reveal_strlit("latest");
        }
        DeployConfig { target: DeployTarget::Localhost, version: String::from_str("latest"), wait_for_ready: true }
    }
}

/// The outcome of a deployment.
#[derive(Debug, Clone)]
pub struct DeployResult {
    pub success: bool,
    pub target: DeployTarget,
    pub message: String,
}

/// Deploys under its settings.
#[derive(Debug, Clone)]
pub struct DeploymentManager {
    config: DeployConfig,
}

impl DeploymentManager {
    pub closed spec fn config_spec(self) -> DeployConfig {
        self.config
    }

    /// A manager with the given settings.
    pub fn new(config: DeployConfig) -> (r: DeploymentManager)
        ensures
            r.config_spec() == config,
    {
        DeploymentManager { config }
    }

    /// The settings.
    pub fn config(&self) -> (r: &DeployConfig)
        ensures
            *r == self.config_spec(),
    {
        &self.config
    }

    /// Deploys to the configured target: a success naming the target.
    pub fn deploy(&self) -> (r: Result<DeployResult, anyhow::Error>)
        ensures
            r is Ok,
            r->Ok_0.success,
            r->Ok_0.target == self.config_spec().target,
            r->Ok_0.message@ == "Deployed to "@ + self.config_spec().target.debug_name(),
    {
        proof {
            reveal_strlit("Deployed to ");
        }
        let mut message = String::from_str("Deployed to ");
        message.append(self.config.target.debug_string().as_str());
        Ok(DeployResult { success: true, target: self.config.target.duplicate(), message })
    }
}

} // verus!
