//! Temperature domain type.

use vstd::prelude::*;

verus! {

/// Reading of one temperature sensor, in millidegrees Celsius so
/// that sub-degree readings survive without fractions.
#[derive(Clone, PartialEq, Eq, Debug)]
pub struct TempData {
    pub component_name: String,
    pub temperature_millidegrees: i64,
}

} // verus!
