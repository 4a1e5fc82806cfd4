//! The test harness.
use vstd::prelude::*;

verus! {

/// Harness settings.
#[derive(Debug, Clone, Copy)]
pub struct TestConfig {
    pub timeout_ms: u64,
    pub mock_mode: bool,
    pub verbose: bool,
}

impl Default for TestConfig {
    /// A 30000 ms timeout, mock mode, quiet.
    fn default() -> (r: TestConfig)
        ensures
            r.timeout_ms == 30000,
            r.mock_mode,
            !r.verbose,
    {
        TestConfig { timeout_ms: 30000, mock_mode: true, verbose: false }
    }
}

/// The test harness: settings and whether it is set up.
#[derive(Debug, Clone)]
pub struct TestHarness {
    config: TestConfig,
    setup_complete: bool,
}

/// What running one test decided: its name, whether it passed, and the error.
#[derive(Debug, Clone)]
pub struct TestOutcome {
    pub name: String,
    pub passed: bool,
    pub error: Option<String>,
}

impl TestHarness {
    pub closed spec fn config_spec(self) -> TestConfig {
        self.config
    }

    pub closed spec fn setup_complete_spec(self) -> bool {
        self.setup_complete
    }

    /// A harness that is not yet set up.
    pub fn new(config: TestConfig) -> (r: TestHarness)
        ensures
            r.config_spec() == config,
            !r.setup_complete_spec(),
    {
        TestHarness { config, setup_complete: false }
    }

    /// Sets up the test environment; the harness is then set up.
    pub fn setup(&mut self) -> (r: Result<(), anyhow::Error>)
        ensures
            r is Ok,
            final(self).setup_complete_spec(),
            final(self).config_spec() == old(self).config_spec(),
    {
        self.setup_complete = true;
        Ok(())
    }

    /// Runs the test `name`: before setup it fails with `Test harness not set
    /// up`; after setup it passes.
    pub fn run_test(&self, name: &str) -> (r: TestOutcome)
        ensures
            r.name@ == name@,
            r.passed == self.setup_complete_spec(),
            self.setup_complete_spec() ==> r.error is None,
            !self.setup_complete_spec() ==> r.error is Some && r.error->Some_0@ == "Test harness not set up"@,
    {
        if !self.setup_complete {
            proof {
                reveal_strlit("Test harness not set up");
            }
            return TestOutcome {
                name: String::from_str(name),
                passed: false,
                error: Some(String::from_str("Test harness not set up")),
            };
        }
        TestOutcome { name: String::from_str(name), passed: true, error: None }
    }
}

} // verus!
