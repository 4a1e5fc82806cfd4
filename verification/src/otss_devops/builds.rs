//! Build targets and settings.
use vstd::prelude::*;

verus! {

/// What a build produces.
#[derive(Debug, Clone, Copy, PartialEq, Eq, Structural)]
pub enum BuildTarget {
    Debug,
    Release,
    Docker,
    Package,
}

impl BuildTarget {
    /// The lower-case name of the target.
    pub open spec fn name(self) -> Seq<char> {
        match self {
            BuildTarget::Debug => "debug"@,
            BuildTarget::Release => "release"@,
            BuildTarget::Docker => "docker"@,
            BuildTarget::Package => "package"@,
        }
    }

    /// The display text: the lower-case name.
    pub fn to_string(&self) -> (r: String)
        ensures
            r@ == self.name(),
    {
        proof {
            reveal_strlit("debug");
            reveal_strlit("release");
            reveal_strlit("docker");
            reveal_strlit("package");
        }
        match self {
            BuildTarget::Debug => String::from_str("debug"),
            BuildTarget::Release => String::from_str("release"),
            BuildTarget::Docker => String::from_str("docker"),
            BuildTarget::Package => String::from_str("package"),
        }
    }
}

/// Build settings.
#[derive(Debug, Clone)]
pub struct BuildConfig {
    pub target: BuildTarget,
    pub optimize: bool,
    pub run_tests: bool,
    pub features: Vec<String>,
    /// Parallel jobs.
    pub jobs: u32,
}

impl Default for BuildConfig {
    /// A debug build, optimised, with tests, no features, 4 jobs.
    fn default() -> (r: BuildConfig)
        ensures
            r.target == BuildTarget::Debug,
            r.optimize,
            r.run_tests,
            r.features@.len() == 0,
            r.jobs == 4,
    {
        BuildConfig { target: BuildTarget::Debug, optimize: true, run_tests: true, features: Vec::new(), jobs: 4 }
    }
}

/// A build pipeline under its settings.
#[derive(Debug, Clone)]
pub struct BuildPipeline {
    config: BuildConfig,
}

impl BuildPipeline {
    pub closed spec fn config_spec(self) -> BuildConfig {
        self.config
    }

    /// A pipeline with the given settings.
    pub fn new(config: BuildConfig) -> (r: BuildPipeline)
        ensures
            r.config_spec() == config,
    {
        BuildPipeline { config }
    }

    /// The settings.
    pub fn config(&self) -> (r: &BuildConfig)
        ensures
            *r == self.config_spec(),
    {
        &self.config
    }
}

} // verus!
