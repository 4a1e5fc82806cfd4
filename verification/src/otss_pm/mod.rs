//! System orchestration: service lifecycle, configuration loading, health
//! monitoring and alerting.
pub mod config;
pub mod health;
pub mod lifecycle;
pub mod orchestration;

use vstd::prelude::*;

verus! {

/// The version of the orchestration module.
pub const VERSION: &'static str = "0.1.0";

/// Sets up the orchestration module; there is no state to prepare.
pub fn init() {
}

/// The module's status line: `OTSS PM v` and the version.
pub fn status() -> (r: String)
    ensures
        r@ == "OTSS PM v0.1.0"@,
{
    proof {
        reveal_strlit("OTSS PM v");
        reveal_strlit("0.1.0");
        reveal_strlit("OTSS PM v0.1.0");
    }
    let mut t = String::from_str("OTSS PM v");
    t.append(VERSION);
    t
}

} // verus!
