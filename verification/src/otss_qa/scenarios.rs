//! Predefined trading scenarios, a builder that finds them by name, and a runner.
use vstd::prelude::*;

verus! {

/// A scenario: a name, a description and the steps to take in order.
#[derive(Debug, Clone)]
pub struct Scenario {
    pub name: String,
    pub description: String,
    pub steps: Vec<Step>,
}

/// One step of a scenario.
#[derive(Debug, Clone)]
pub enum Step {
    /// Create an order.
    CreateOrder { symbol: String, side: Side, quantity: u64 },
    /// Submit the order.
    SubmitOrder,
    /// Wait for the order to fill.
    WaitForFill,
    /// Cancel the order.
    CancelOrder,
    /// Check the position held in a symbol.
    VerifyPosition { symbol: String, expected_quantity: i64 },
    /// Wait this many milliseconds.
    Wait(u64),
    /// Check a condition.
    Assert(String),
}

/// A step, with its texts as sequences of characters.
pub enum StepModel {
    CreateOrder(Seq<char>, Side, u64),
    SubmitOrder,
    WaitForFill,
    CancelOrder,
    VerifyPosition(Seq<char>, i64),
    Wait(u64),
    Assert(Seq<char>),
}

impl Step {
    /// The step as a value.
    pub open spec fn model(self) -> StepModel {
        match self {
            Step::CreateOrder { symbol, side, quantity } => StepModel::CreateOrder(symbol@, side, quantity),
            Step::SubmitOrder => StepModel::SubmitOrder,
            Step::WaitForFill => StepModel::WaitForFill,
            Step::CancelOrder => StepModel::CancelOrder,
            Step::VerifyPosition { symbol, expected_quantity } => StepModel::VerifyPosition(
                symbol@,
                expected_quantity,
            ),
            Step::Wait(ms) => StepModel::Wait(ms),
            Step::Assert(text) => StepModel::Assert(text@),
        }
    }
}

/// The side of an order in a step.
#[derive(Debug, Clone, Copy, PartialEq, Eq, Structural)]
pub enum Side {
    Buy,
    Sell,
}

/// The steps of a scenario, as values.
pub open spec fn step_models(steps: Seq<Step>) -> Seq<StepModel> {
    steps.map_values(|s: Step| s.model())
}

/// The buy-and-hold scenario's steps.
pub open spec fn buy_and_hold_steps() -> Seq<StepModel> {
    seq![
        StepModel::CreateOrder("AAPL"@, Side::Buy, 100),
        StepModel::SubmitOrder,
        StepModel::Wait(100),
        StepModel::VerifyPosition("AAPL"@, 100),
    ]
}

/// The round-trip scenario's steps.
pub open spec fn round_trip_steps() -> Seq<StepModel> {
    seq![
        StepModel::CreateOrder("MSFT"@, Side::Buy, 50),
        StepModel::SubmitOrder,
        StepModel::WaitForFill,
        StepModel::CreateOrder("MSFT"@, Side::Sell, 50),
        StepModel::SubmitOrder,
        StepModel::VerifyPosition("MSFT"@, 0),
    ]
}

/// The cancel-order scenario's steps.
pub open spec fn cancel_order_steps() -> Seq<StepModel> {
    seq![
        StepModel::CreateOrder("TSLA"@, Side::Buy, 1000),
        StepModel::SubmitOrder,
        StepModel::Wait(10),
        StepModel::CancelOrder,
    ]
}

/// The scenario has the given name, description and steps.
pub open spec fn is_scenario(s: Scenario, name: Seq<char>, description: Seq<char>, steps: Seq<StepModel>) -> bool {
    &&& s.name@ == name
    &&& s.description@ == description
    &&& step_models(s.steps@) == steps
}

impl Scenario {
    /// An empty scenario.
    pub fn new(name: String, description: String) -> (r: Scenario)
        ensures
            r.name == name,
            r.description == description,
            r.steps@.len() == 0,
    {
        Scenario { name, description, steps: Vec::new() }
    }

    /// Appends a step.
    pub fn add_step(&mut self, step: Step)
        ensures
            final(self).steps@ == old(self).steps@.push(step),
            final(self).name == old(self).name,
            final(self).description == old(self).description,
    {
        self.steps.push(step);
    }

    /// The number of steps.
    pub fn step_count(&self) -> (r: usize)
        ensures
            r == self.steps@.len(),
    {
        self.steps.len()
    }

    /// Buy 100 AAPL, submit, wait 100 ms, expect a position of 100.
    pub fn buy_and_hold() -> (r: Scenario)
        ensures
            is_scenario(r, "buy_and_hold"@, "Simple buy order and hold position"@, buy_and_hold_steps()),
    {
        proof {
            reveal_strlit("buy_and_hold");
            reveal_strlit("Simple buy order and hold position");
            reveal_strlit("AAPL");
        }
        let mut scenario = Scenario::new(
            String::from_str("buy_and_hold"),
            String::from_str("Simple buy order and hold position"),
        );
        scenario.add_step(Step::CreateOrder { symbol: String::from_str("AAPL"), side: Side::Buy, quantity: 100 });
        scenario.add_step(Step::SubmitOrder);
        scenario.add_step(Step::Wait(100));
        scenario.add_step(Step::VerifyPosition { symbol: String::from_str("AAPL"), expected_quantity: 100 });
        assert(step_models(scenario.steps@) =~= buy_and_hold_steps());
        scenario
    }

    /// Buy 50 MSFT, fill, sell 50 MSFT, expect a flat position.
    pub fn round_trip() -> (r: Scenario)
        ensures
            is_scenario(r, "round_trip"@, "Buy then sell same position"@, round_trip_steps()),
    {
        proof {
            reveal_strlit("round_trip");
            reveal_strlit("Buy then sell same position");
            reveal_strlit("MSFT");
        }
        let mut scenario = Scenario::new(
            String::from_str("round_trip"),
            String::from_str("Buy then sell same position"),
        );
        scenario.add_step(Step::CreateOrder { symbol: String::from_str("MSFT"), side: Side::Buy, quantity: 50 });
        scenario.add_step(Step::SubmitOrder);
        scenario.add_step(Step::WaitForFill);
        scenario.add_step(Step::CreateOrder { symbol: String::from_str("MSFT"), side: Side::Sell, quantity: 50 });
        scenario.add_step(Step::SubmitOrder);
        scenario.add_step(Step::VerifyPosition { symbol: String::from_str("MSFT"), expected_quantity: 0 });
        assert(step_models(scenario.steps@) =~= round_trip_steps());
        scenario
    }

    /// Buy 1000 TSLA, submit, wait 10 ms, cancel.
    pub fn cancel_order() -> (r: Scenario)
        ensures
            is_scenario(r, "cancel_order"@, "Submit then cancel order"@, cancel_order_steps()),
    {
        proof {
            reveal_strlit("cancel_order");
            reveal_strlit("Submit then cancel order");
            reveal_strlit("TSLA");
        }
        let mut scenario = Scenario::new(
            String::from_str("cancel_order"),
            String::from_str("Submit then cancel order"),
        );
        scenario.add_step(Step::CreateOrder { symbol: String::from_str("TSLA"), side: Side::Buy, quantity: 1000 });
        scenario.add_step(Step::SubmitOrder);
        scenario.add_step(Step::Wait(10));
        scenario.add_step(Step::CancelOrder);
        assert(step_models(scenario.steps@) =~= cancel_order_steps());
        scenario
    }
}

/// Finds predefined scenarios by name.
#[derive(Debug, Clone, Copy, Default)]
pub struct ScenarioBuilder;

impl ScenarioBuilder {
    /// A builder.
    pub fn new() -> (r: ScenarioBuilder) {
        ScenarioBuilder
    }

    /// The predefined scenario named `name`, if there is one.
    pub fn build(name: &str) -> (r: Option<Scenario>)
        ensures
            name@ == "buy_and_hold"@ ==> r is Some && is_scenario(
                r->Some_0,
                "buy_and_hold"@,
                "Simple buy order and hold position"@,
                buy_and_hold_steps(),
            ),
            name@ == "round_trip"@ ==> r is Some && is_scenario(
                r->Some_0,
                "round_trip"@,
                "Buy then sell same position"@,
                round_trip_steps(),
            ),
            name@ == "cancel_order"@ ==> r is Some && is_scenario(
                r->Some_0,
                "cancel_order"@,
                "Submit then cancel order"@,
                cancel_order_steps(),
            ),
            name@ != "buy_and_hold"@ && name@ != "round_trip"@ && name@ != "cancel_order"@ ==> r is None,
    {
        proof {
            reveal_strlit("buy_and_hold");
            reveal_strlit("round_trip");
            reveal_strlit("cancel_order");
            assert("round_trip"@[0] != "buy_and_hold"@[0]);
            assert("cancel_order"@[0] != "buy_and_hold"@[0]);
            assert("cancel_order"@[0] != "round_trip"@[0]);
        }
        let key = String::from_str(name);
        if key == String::from_str("buy_and_hold") {
            Some(Scenario::buy_and_hold())
        } else if key == String::from_str("round_trip") {
            Some(Scenario::round_trip())
        } else if key == String::from_str("cancel_order") {
            Some(Scenario::cancel_order())
        } else {
            None
        }
    }
}

/// Runs scenarios.
#[derive(Debug, Clone, Copy, Default)]
pub struct ScenarioRunner;

/// What running a scenario gave: its name and the steps that passed and failed.
#[derive(Debug, Clone)]
pub struct ScenarioResult {
    pub name: String,
    pub passed: u32,
    pub failed: u32,
}

impl ScenarioRunner {
    /// A runner.
    pub fn new() -> (r: ScenarioRunner) {
        ScenarioRunner
    }

    /// Runs a scenario: each step counts as passed.
    pub fn run(&self, scenario: &Scenario) -> (r: Result<ScenarioResult, anyhow::Error>)
        requires
            scenario.steps@.len() <= u32::MAX,
        ensures
            r is Ok,
            r->Ok_0.name@ == scenario.name@,
            r->Ok_0.passed == scenario.steps@.len(),
            r->Ok_0.failed == 0,
    {
        let mut result = ScenarioResult { name: scenario.name.clone(), passed: 0, failed: 0 };
        let mut i: usize = 0;
        while i < scenario.steps.len()
            invariant
                i <= scenario.steps@.len() <= u32::MAX,
                result.passed == i,
                result.failed == 0,
                result.name@ == scenario.name@,
            decreases scenario.steps@.len() - i,
        {
            result.passed = result.passed + 1;
            i = i + 1;
        }
        Ok(result)
    }
}

impl ScenarioResult {
    /// Whether no step failed.
    pub fn success(&self) -> (r: bool)
        ensures
            r == (self.failed == 0),
    {
        self.failed == 0
    }
}

} // verus!
