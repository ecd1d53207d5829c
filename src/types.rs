use vstd::prelude::*;

use crate::perbill::{Perbill, BILLION};

verus! {

/// Block heights.
pub type BlockNumber = u32;

/// Amounts of currency, in base units.
pub type Balance = u128;

/// The pair of rates in effect for one fiscal year.
#[derive(Clone, Copy, Debug, PartialEq, Eq, Structural)]
pub struct InflationParameters {
    pub effective_inflation_rate: Perbill,
    pub effective_disinflation_rate: Perbill,
}

/// The schedule fixed at genesis.
#[derive(Clone, Copy, Debug, PartialEq, Eq, Structural)]
pub struct InflationConfiguration {
    /// Rates of the first fiscal year; their disinflation rate is also the
    /// factor that compounds every year.
    pub base_inflation_parameters: InflationParameters,
    /// The fiscal year from which inflation stays frozen.
    pub inflation_stagnation_year: u128,
    /// The inflation rate from that year on.
    pub inflation_stagnation_rate: Perbill,
}

impl InflationParameters {
    /// Both rates lie in `[0, 1]`.
    pub open spec fn wf(self) -> bool {
        &&& self.effective_inflation_rate@ <= BILLION
        &&& self.effective_disinflation_rate@ <= BILLION
    }
}

impl InflationConfiguration {
    /// Every rate of the schedule lies in `[0, 1]`.
    pub open spec fn wf(self) -> bool {
        &&& self.base_inflation_parameters.wf()
        &&& self.inflation_stagnation_rate@ <= BILLION
    }
}

} // verus!
