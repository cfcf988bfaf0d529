//! Data records exchanged with the estimator.
//!
//! Every fractional field is a fixed-point integer in micro-units
//! (one millionth of the named unit), so `latitude = 40_000_000` stands
//! for 40 degrees and `system_size_kw = 3_300_000` for 3.3 kW.

use vstd::prelude::*;

verus! {

use crate::fixed::spec_abs;

/// Largest latitude magnitude accepted, in micro-degrees (90 degrees).
pub const MAX_ABS_LATITUDE: i64 = 90_000_000;

/// Largest daily sun-hours magnitude the fixed-point pipeline accepts,
/// in micro-hours (100 hours).
pub const MAX_ABS_SUN_HOURS: i64 = 100_000_000;

/// Largest roof area the fixed-point pipeline accepts, in micro-square
/// metres (100 000 square metres).
pub const MAX_ROOF_SIZE: i64 = 100_000_000_000;

/// Largest panel wattage magnitude the fixed-point pipeline accepts,
/// in watts.
pub const MAX_ABS_PANEL_WATTAGE: i32 = 100_000;

/// Largest price-per-watt magnitude the fixed-point pipeline accepts,
/// in micro-currency (100 per watt).
pub const MAX_ABS_PRICE_PER_WATT: i64 = 100_000_000;

/// Caller-supplied description of the site and the hardware. Immutable
/// for the duration of a call.
pub struct SimulationRequest {
    /// Site latitude in micro-degrees; the sign selects the hemisphere.
    pub latitude: i64,
    /// Site longitude in micro-degrees; carried but not used by the model.
    pub longitude: i64,
    /// Average daily sun hours in micro-hours.
    pub avg_sun_hours_per_day: i64,
    /// Usable roof area in micro-square-metres; must be positive.
    pub roof_size_m2: i64,
    /// Panel efficiency in micro-percent; must lie in (0, 100%].
    pub panel_efficiency: i64,
    /// Nameplate wattage of one panel, in watts.
    pub panel_wattage: i32,
    /// Hardware price in micro-currency per watt.
    pub price_per_watt: i64,
}

impl SimulationRequest {
    /// The magnitude bounds under which every intermediate product of the
    /// fixed-point pipeline fits its machine integer. These are machine
    /// limits of the representation, not validation rules.
    pub open spec fn in_fixed_range(self) -> bool {
        &&& spec_abs(self.latitude as int) <= MAX_ABS_LATITUDE
        &&& spec_abs(self.avg_sun_hours_per_day as int) <= MAX_ABS_SUN_HOURS
        &&& self.roof_size_m2 <= MAX_ROOF_SIZE
        &&& spec_abs(self.panel_wattage as int) <= MAX_ABS_PANEL_WATTAGE
        &&& spec_abs(self.price_per_watt as int) <= MAX_ABS_PRICE_PER_WATT
    }
}

/// Derating factors derived from latitude alone, in micro-units.
#[derive(Debug)]
pub struct EfficiencyFactors {
    /// Thermal derating by latitude band, in micro-units.
    pub temperature_loss: i64,
    /// Fixed inverter yield, in micro-units (0.96).
    pub inverter_efficiency: i64,
    /// Fixed soiling and shading loss, in micro-units (0.05).
    pub dirt_shading_loss: i64,
    /// Combined multiplicative yield after all losses, in micro-units.
    pub system_efficiency: i64,
}

/// Projection for one calendar month. The two quantities carry exactly
/// two decimal places, stored in micro-units (multiples of 10 000).
#[derive(Debug)]
pub struct MonthlyData {
    /// English month name, "January" through "December".
    pub month: String,
    /// Estimated energy for the month in micro-kWh, rounded to two
    /// decimal places of a kWh.
    pub output_kwh: i64,
    /// Seasonally adjusted daily sun hours in micro-hours, rounded to
    /// two decimal places of an hour.
    pub sun_hours: i64,
}

/// The assembled estimate.
#[derive(Debug)]
pub struct SimulationResponse {
    /// Annual energy in micro-kWh: the sum of the twelve rounded
    /// monthly outputs.
    pub estimated_output_kwh: i64,
    /// Total hardware cost in micro-currency.
    pub estimated_cost_usd: i64,
    /// Payback period in micro-years, or the 999-year sentinel when
    /// there are no savings.
    pub estimated_roi_years: i128,
    /// Combined nameplate power in micro-kW.
    pub system_size_kw: i64,
    /// Number of panels that fit the roof.
    pub num_panels: i32,
    /// January through December, in order.
    pub monthly_breakdown: Vec<MonthlyData>,
    /// The derating factors the projection used.
    pub efficiency_factors: EfficiencyFactors,
}

/// The three ways a request can be rejected.
#[derive(Clone, Copy, Debug, PartialEq, Eq, Structural)]
pub enum SolarError {
    /// The roof area was zero or negative.
    InvalidRoofSize,
    /// The panel efficiency was outside (0, 100%].
    InvalidPanelEfficiency,
    /// The roof area admits no whole panel.
    RoofTooSmall,
}

impl SolarError {
    /// The human-readable message for this rejection.
    pub open spec fn spec_message(self) -> Seq<char> {
        match self {
            SolarError::InvalidRoofSize => "Roof size must be positive"@,
            SolarError::InvalidPanelEfficiency => "Panel efficiency must be between 0 and 100"@,
            SolarError::RoofTooSmall => "Roof size too small for any panels"@,
        }
    }

    /// Renders the rejection as its message text.
    pub fn message(&self) -> (s: String)
        ensures
            s@ == self.spec_message(),
    {
        match self {
            SolarError::InvalidRoofSize => "Roof size must be positive".to_owned(),
            SolarError::InvalidPanelEfficiency => "Panel efficiency must be between 0 and 100".to_owned(),
            SolarError::RoofTooSmall => "Roof size too small for any panels".to_owned(),
        }
    }
}

} // verus!
