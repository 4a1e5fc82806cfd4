use otss::otss_qa::framework_status;
use otss::otss_qa::harness::{TestConfig, TestHarness};
use otss::otss_qa::scenarios::{Scenario, ScenarioBuilder, ScenarioRunner, Side, Step};

#[test]
fn framework_banner() {
    assert_eq!(framework_status(), "OTSS QA Framework v0.1.0");
}

#[test]
fn harness_runs_only_after_setup() {
    let config = TestConfig::default();
    assert_eq!(config.timeout_ms, 30000);
    assert!(config.mock_mode);
    let mut harness = TestHarness::new(config);
    let before = harness.run_test("t1");
    assert!(!before.passed);
    assert_eq!(before.error.as_deref(), Some("Test harness not set up"));
    harness.setup().unwrap();
    let after = harness.run_test("t1");
    assert!(after.passed);
    assert_eq!(after.name, "t1");
    assert!(after.error.is_none());
}

#[test]
fn predefined_scenarios() {
    let s = Scenario::buy_and_hold();
    assert_eq!(s.name, "buy_and_hold");
    assert_eq!(s.step_count(), 4);
    assert!(matches!(&s.steps[0], Step::CreateOrder { symbol, side: Side::Buy, quantity: 100 } if symbol == "AAPL"));
    assert!(matches!(&s.steps[2], Step::Wait(100)));

    let r = Scenario::round_trip();
    assert_eq!(r.step_count(), 6);
    assert!(matches!(&r.steps[5], Step::VerifyPosition { symbol, expected_quantity: 0 } if symbol == "MSFT"));

    let c = Scenario::cancel_order();
    assert_eq!(c.step_count(), 4);
    assert!(matches!(&c.steps[3], Step::CancelOrder));

    assert_eq!(ScenarioBuilder::build("round_trip").unwrap().description, "Buy then sell same position");
    assert!(ScenarioBuilder::build("unknown").is_none());
    let _builder = ScenarioBuilder::new();
}

#[test]
fn runner_counts_steps() {
    let mut scenario = Scenario::new("custom".to_string(), "d".to_string());
    scenario.add_step(Step::SubmitOrder);
    scenario.add_step(Step::Assert("ok".to_string()));
    let result = ScenarioRunner::new().run(&scenario).unwrap();
    assert_eq!(result.name, "custom");
    assert_eq!(result.passed, 2);
    assert_eq!(result.failed, 0);
    assert!(result.success());
}
