//! QA support: a test harness and predefined trading scenarios.
pub mod harness;
pub mod scenarios;

use vstd::prelude::*;

verus! {

/// The version of the QA module.
pub const VERSION: &'static str = "0.1.0";

/// Sets up the QA module; there is no state to prepare.
pub fn init() {
}

/// The framework's banner: `OTSS QA Framework v` and the version.
pub fn framework_status() -> (r: String)
    ensures
        r@ == "OTSS QA Framework v0.1.0"@,
{
    proof {
        reveal_strlit("OTSS QA Framework v");
        reveal_strlit("0.1.0");
        reveal_strlit("OTSS QA Framework v0.1.0");
    }
    let mut t = String::from_str("OTSS QA Framework v");
    t.append(VERSION);
    t
}

} // verus!
