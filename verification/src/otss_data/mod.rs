//! Market data: trade, book and bar records, and the Databento and Polygon
//! feed clients' connection state.
pub mod adapters;
pub mod databento;
pub mod polygon;
pub mod types;

use crate::otss_data::adapters::DataSource;
use vstd::prelude::*;

verus! {

/// The version of the market-data module.
pub const VERSION: &'static str = "0.1.0";

/// Sets up the market-data module; there is no state to prepare.
pub fn init() {
}

/// The data sources with a client: Databento, then Polygon.
pub fn available_sources() -> (r: Vec<DataSource>)
    ensures
        r@ == seq![DataSource::Databento, DataSource::Polygon],
{
    let mut v: Vec<DataSource> = Vec::new();
    v.push(DataSource::Databento);
    v.push(DataSource::Polygon);
    v
}

} // verus!
