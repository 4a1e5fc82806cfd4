//! Trading-system domain logic: fixed-point decimals, order state machines,
//! positions, pre-trade risk validation, portfolio accounting, market-data and
//! broker adapter state, and the supporting devops, QA and orchestration models.
pub mod decimal;
pub mod text;
pub mod summitx;
pub mod otss_core;
pub mod otss_data;
pub mod otss_integration;
pub mod otss_qa;
pub mod otss_devops;
pub mod otss_pm;

use vstd::prelude::*;

verus! {

/// `anyhow::Error`, the error of the adapters' and services' fallible calls;
/// carried through opaquely.
#[verifier::external_type_specification]
#[verifier::external_body]
pub struct ExAnyhowError(anyhow::Error);

/// `std::path::PathBuf`, the path a configuration belongs to; carried through
/// opaquely.
#[verifier::external_type_specification]
#[verifier::external_body]
pub struct ExPathBuf(std::path::PathBuf);

} // verus!
