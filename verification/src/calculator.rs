//! The estimator: validation, the latitude efficiency model, the
//! twelve-month seasonal projection, and the financial aggregation.
//!
//! The whole pipeline works on micro-unit fixed-point integers (see
//! `models`). The seasonal curve `1 + 0.3 * cos(month_angle)` is evaluated
//! at the twelve fixed month angles (multiples of 30 degrees), so it is a
//! constant table in micro-units; the northern-hemisphere curve is the
//! same table shifted by half a year.

use vstd::prelude::*;

verus! {

use crate::fixed::MICRO;
use crate::fixed::div_trunc_i128;
use crate::fixed::round_half_div_i128;
use crate::fixed::spec_abs;
use crate::fixed::spec_div_trunc;
use crate::fixed::spec_round_half;
use crate::models::EfficiencyFactors;
use crate::models::MAX_ABS_PRICE_PER_WATT;
use crate::models::MAX_ABS_SUN_HOURS;
use crate::models::MonthlyData;
use crate::models::SimulationRequest;
use crate::models::SimulationResponse;
use crate::models::SolarError;

/// Largest system-size magnitude the projection accepts, in micro-kW.
/// Any request within the fixed-point range derives a smaller size.
pub const MAX_ABS_SYSTEM_SIZE: i64 = 10_000_000_000_000;

/// Largest magnitude a rounded monthly output can reach for inputs
/// within range, in micro-kWh.
pub const MAX_ABS_MONTHLY_OUTPUT: i64 = 50_000_000_000_000_000;

/// Largest annual-output magnitude the financial stage accepts, in
/// micro-kWh: twelve months at the monthly ceiling fit well below it.
pub const MAX_ABS_ANNUAL_OUTPUT: i64 = 1_000_000_000_000_000_000;

/// Roof area taken by one panel, in micro-square-metres (1.7 m^2).
pub const PANEL_AREA_M2: i64 = 1_700_000;

/// Electricity price per kWh used for savings, in micro-currency (0.15).
pub const ELECTRICITY_PRICE_PER_KWH: i64 = 150_000;

/// Inverter yield, in micro-units (0.96).
pub const INVERTER_EFFICIENCY: i64 = 960_000;

/// Soiling and shading loss, in micro-units (0.05).
pub const DIRT_SHADING_LOSS: i64 = 50_000;

/// Payback sentinel in micro-years (999 years): no meaningful payback.
pub const ROI_SENTINEL_YEARS: i128 = 999_000_000;

/// Divisor taking a monthly-output numerator (micro^4-scaled kWh) to
/// centi-kWh, with rounding.
pub const OUTPUT_ROUND_DIVISOR: u128 = 10_000_000_000_000_000_000_000;

/// Divisor taking a sun-hours numerator (micro^2-scaled hours) to
/// centi-hours, with rounding.
pub const SUN_ROUND_DIVISOR: u128 = 10_000_000_000;

/// Thermal derating for a latitude, in micro-units: a step function of
/// the latitude's magnitude with bands below 30, in [30, 45), and at or
/// above 45 degrees.
pub open spec fn spec_temperature_loss(latitude: int) -> int {
    let band = spec_abs(latitude);
    if band < 30_000_000 {
        150_000
    } else if band < 45_000_000 {
        100_000
    } else {
        50_000
    }
}

/// Combined system yield for a thermal derating, in micro-units:
/// `(1 - temperature_loss) * 0.96 * 0.95`. Both divisions are exact for
/// the three derating bands.
pub open spec fn spec_system_efficiency(temperature_loss: int) -> int {
    ((MICRO - temperature_loss) * INVERTER_EFFICIENCY / (MICRO as int)) * (MICRO
        - DIRT_SHADING_LOSS) / (MICRO as int)
}

/// The hemisphere test: strictly positive latitudes are northern; the
/// equator itself takes the southern curve.
pub open spec fn spec_is_northern(latitude: int) -> bool {
    latitude > 0
}

/// Day count of month `i` (January is 0) in the fixed non-leap year.
pub open spec fn spec_days_in_month(i: int) -> int {
    if i == 0 {
        31
    } else if i == 1 {
        28
    } else if i == 2 {
        31
    } else if i == 3 {
        30
    } else if i == 4 {
        31
    } else if i == 5 {
        30
    } else if i == 6 {
        31
    } else if i == 7 {
        31
    } else if i == 8 {
        30
    } else if i == 9 {
        31
    } else if i == 10 {
        30
    } else {
        31
    }
}

/// `0.3 * cos(i * 30 degrees)` in micro-units, rounded to the nearest
/// micro-unit: the seasonal swing of month `i` on the southern curve.
pub open spec fn spec_seasonal_swing(i: int) -> int {
    if i == 0 {
        300_000
    } else if i == 1 {
        259_808
    } else if i == 2 {
        150_000
    } else if i == 3 {
        0
    } else if i == 4 {
        -150_000
    } else if i == 5 {
        -259_808
    } else if i == 6 {
        -300_000
    } else if i == 7 {
        -259_808
    } else if i == 8 {
        -150_000
    } else if i == 9 {
        0
    } else if i == 10 {
        150_000
    } else {
        259_808
    }
}

/// Seasonal multiplier of month `i` in micro-units, between 0.7 and 1.3.
/// The northern curve is the southern one shifted by six months, i.e.
/// `1 - 0.3 * cos(month_angle)` instead of `1 + 0.3 * cos(month_angle)`.
pub open spec fn spec_seasonal_variation(northern: bool, i: int) -> int {
    if northern {
        (MICRO as int) - spec_seasonal_swing(i)
    } else {
        (MICRO as int) + spec_seasonal_swing(i)
    }
}

/// English name of month `i` (January is 0).
pub open spec fn spec_month_name(i: int) -> Seq<char> {
    if i == 0 {
        "January"@
    } else if i == 1 {
        "February"@
    } else if i == 2 {
        "March"@
    } else if i == 3 {
        "April"@
    } else if i == 4 {
        "May"@
    } else if i == 5 {
        "June"@
    } else if i == 6 {
        "July"@
    } else if i == 7 {
        "August"@
    } else if i == 8 {
        "September"@
    } else if i == 9 {
        "October"@
    } else if i == 10 {
        "November"@
    } else {
        "December"@
    }
}

/// Number of whole panels that fit a (positive) roof area.
pub open spec fn spec_num_panels(roof_size_m2: int) -> int {
    roof_size_m2 / (PANEL_AREA_M2 as int)
}

/// Combined nameplate power in micro-kW: `panels * wattage / 1000` kW.
pub open spec fn spec_system_size(num_panels: int, panel_wattage: int) -> int {
    num_panels * panel_wattage * 1000
}

/// Numerator of the output of month `i`: system size times sun hours
/// times yield (the request-dependent factor) times the month's
/// seasonal weight. The scale is micro^4 times kWh.
pub open spec fn spec_output_numer(size: int, sun: int, eff: int, northern: bool, i: int) -> int {
    (size * sun * eff) * (spec_seasonal_variation(northern, i) * spec_days_in_month(i))
}

/// Output of month `i` in micro-kWh, rounded to two decimal places of a
/// kWh (half away from zero).
pub open spec fn spec_monthly_output(size: int, sun: int, eff: int, northern: bool, i: int) -> int {
    spec_round_half(spec_output_numer(size, sun, eff, northern, i), OUTPUT_ROUND_DIVISOR as int)
        * 10_000
}

/// Seasonally adjusted daily sun hours of month `i` in micro-hours,
/// rounded to two decimal places of an hour (half away from zero).
pub open spec fn spec_monthly_sun(sun: int, northern: bool, i: int) -> int {
    spec_round_half(sun * spec_seasonal_variation(northern, i), SUN_ROUND_DIVISOR as int) * 10_000
}

/// Sum of the rounded outputs of the first `n` months, in micro-kWh.
pub open spec fn spec_output_sum(size: int, sun: int, eff: int, northern: bool, n: nat) -> int
    decreases n,
{
    if n == 0 {
        0
    } else {
        spec_output_sum(size, sun, eff, northern, (n - 1) as nat) + spec_monthly_output(
            size,
            sun,
            eff,
            northern,
            n - 1,
        )
    }
}

/// Annual output in micro-kWh: the sum of the twelve rounded monthly
/// outputs.
pub open spec fn spec_annual_output(size: int, sun: int, eff: int, northern: bool) -> int {
    spec_output_sum(size, sun, eff, northern, 12)
}

/// Total hardware cost in micro-currency: `size_kw * 1000 * price`.
pub open spec fn spec_total_cost(size: int, price_per_watt: int) -> int {
    spec_div_trunc(size * price_per_watt, 1000)
}

/// Annual savings in micro-currency: annual output times the fixed
/// electricity price of 0.15 per kWh.
pub open spec fn spec_annual_savings(annual_output: int) -> int {
    spec_div_trunc(annual_output * (ELECTRICITY_PRICE_PER_KWH as int), MICRO as int)
}

/// Payback period in micro-years: cost over savings, or the 999-year
/// sentinel when there are no savings.
pub open spec fn spec_roi_years(cost: int, savings: int) -> int {
    if savings > 0 {
        spec_div_trunc(cost * (MICRO as int), savings)
    } else {
        ROI_SENTINEL_YEARS as int
    }
}

/// Sum of a sequence of integers.
pub open spec fn seq_sum(s: Seq<int>) -> int
    decreases s.len(),
{
    if s.len() == 0 {
        0
    } else {
        seq_sum(s.drop_last()) + s.last()
    }
}

/// Largest panel efficiency the validator accepts, in micro-percent
/// (100 percent).
pub const MAX_PANEL_EFFICIENCY: i64 = 100_000_000;

/// A request the validator passes: an efficiency in (0, 100%] and a
/// roof that fits at least one panel.
pub open spec fn spec_valid_request(req: SimulationRequest) -> bool {
    &&& req.roof_size_m2 >= PANEL_AREA_M2
    &&& 0 < req.panel_efficiency <= MAX_PANEL_EFFICIENCY
}

/// What every field of a successful estimate holds, in terms of the
/// request alone.
pub open spec fn spec_response_matches(resp: SimulationResponse, req: SimulationRequest) -> bool {
    let northern = spec_is_northern(req.latitude as int);
    let tl = spec_temperature_loss(req.latitude as int);
    let eff = spec_system_efficiency(tl);
    let sun = req.avg_sun_hours_per_day as int;
    let size = spec_system_size(resp.num_panels as int, req.panel_wattage as int);
    &&& resp.num_panels == spec_num_panels(req.roof_size_m2 as int)
    &&& resp.system_size_kw == size
    &&& resp.efficiency_factors.temperature_loss == tl
    &&& resp.efficiency_factors.inverter_efficiency == INVERTER_EFFICIENCY
    &&& resp.efficiency_factors.dirt_shading_loss == DIRT_SHADING_LOSS
    &&& resp.efficiency_factors.system_efficiency == eff
    &&& resp.monthly_breakdown@.len() == 12
    &&& (forall|j: int|
        0 <= j < 12 ==> (#[trigger] resp.monthly_breakdown@[j]).output_kwh == spec_monthly_output(
            size,
            sun,
            eff,
            northern,
            j,
        ))
    &&& (forall|j: int|
        0 <= j < 12 ==> (#[trigger] resp.monthly_breakdown@[j]).sun_hours == spec_monthly_sun(
            sun,
            northern,
            j,
        ))
    &&& (forall|j: int|
        0 <= j < 12 ==> (#[trigger] resp.monthly_breakdown@[j]).month@ == spec_month_name(j))
    &&& resp.estimated_output_kwh == spec_annual_output(size, sun, eff, northern)
    &&& resp.estimated_output_kwh as int == seq_sum(
        resp.monthly_breakdown@.map_values(|m: MonthlyData| m.output_kwh as int),
    )
    &&& resp.estimated_cost_usd == spec_total_cost(size, req.price_per_watt as int)
    &&& resp.estimated_roi_years == spec_roi_years(
        resp.estimated_cost_usd as int,
        spec_annual_savings(resp.estimated_output_kwh as int),
    )
}

/// The sum of a sequence whose entries are the rounded monthly outputs
/// equals the recursive twelve-month sum.
proof fn lemma_seq_sum_is_output_sum(
    s: Seq<int>,
    size: int,
    sun: int,
    eff: int,
    northern: bool,
    n: nat,
)
    requires
        s.len() == n,
        forall|j: int| 0 <= j < n ==> s[j] == spec_monthly_output(size, sun, eff, northern, j),
    ensures
        seq_sum(s) == spec_output_sum(size, sun, eff, northern, n),
    decreases n,
{
    if n > 0 {
        lemma_seq_sum_is_output_sum(s.drop_last(), size, sun, eff, northern, (n - 1) as nat);
    }
}

/// Seasonal multiplier of month `i`, as a table lookup.
fn seasonal_variation(northern: bool, i: usize) -> (v: i64)
    requires
        i < 12,
    ensures
        v == spec_seasonal_variation(northern, i as int),
        700_000 <= v <= 1_300_000,
{
    let swing: i64 = match i {
        0 => 300_000,
        1 => 259_808,
        2 => 150_000,
        3 => 0,
        4 => -150_000,
        5 => -259_808,
        6 => -300_000,
        7 => -259_808,
        8 => -150_000,
        9 => 0,
        10 => 150_000,
        _ => 259_808,
    };
    if northern {
        1_000_000 - swing
    } else {
        1_000_000 + swing
    }
}

/// Day count of month `i` in the fixed non-leap year.
fn days_in_month(i: usize) -> (d: i64)
    requires
        i < 12,
    ensures
        d == spec_days_in_month(i as int),
        28 <= d <= 31,
{
    match i {
        0 => 31,
        1 => 28,
        2 => 31,
        3 => 30,
        4 => 31,
        5 => 30,
        6 => 31,
        7 => 31,
        8 => 30,
        9 => 31,
        10 => 30,
        _ => 31,
    }
}

/// English name of month `i`.
fn month_name(i: usize) -> (s: String)
    requires
        i < 12,
    ensures
        s@ == spec_month_name(i as int),
{
    match i {
        0 => "January".to_owned(),
        1 => "February".to_owned(),
        2 => "March".to_owned(),
        3 => "April".to_owned(),
        4 => "May".to_owned(),
        5 => "June".to_owned(),
        6 => "July".to_owned(),
        7 => "August".to_owned(),
        8 => "September".to_owned(),
        9 => "October".to_owned(),
        10 => "November".to_owned(),
        _ => "December".to_owned(),
    }
}

/// Derives the derating factors from the latitude: the thermal band of
/// the latitude's magnitude, the two fixed factors, and their combined
/// multiplicative yield.
pub fn calculate_efficiency_factors(latitude: i64) -> (ef: EfficiencyFactors)
    requires
        latitude > i64::MIN,
    ensures
        ef.temperature_loss == spec_temperature_loss(latitude as int),
        ef.inverter_efficiency == INVERTER_EFFICIENCY,
        ef.dirt_shading_loss == DIRT_SHADING_LOSS,
        ef.system_efficiency == spec_system_efficiency(ef.temperature_loss as int),
{
    let abs_lat: i64 = if latitude < 0 {
        -latitude
    } else {
        latitude
    };
    let temperature_loss: u64 = if abs_lat < 30_000_000 {
        150_000
    } else if abs_lat < 45_000_000 {
        100_000
    } else {
        50_000
    };
    let retained: u64 = 1_000_000 - temperature_loss;
    let after_inverter: u64 = retained * 960_000 / 1_000_000;
    proof {
        vstd::arithmetic::div_mod::lemma_div_is_ordered(
            (retained * 960_000) as int,
            950_000int * 960_000,
            1_000_000,
        );
        assert((950_000int * 960_000) / 1_000_000 == 912_000) by (nonlinear_arith);
    }
    let system_efficiency: u64 = after_inverter * 950_000 / 1_000_000;
    EfficiencyFactors {
        temperature_loss: temperature_loss as i64,
        inverter_efficiency: INVERTER_EFFICIENCY,
        dirt_shading_loss: DIRT_SHADING_LOSS,
        system_efficiency: system_efficiency as i64,
    }
}

/// Expands one average daily sun-hours figure into the twelve ordered
/// monthly projections: for each month, the seasonally adjusted sun
/// hours and the energy `size * adjusted_sun * days * efficiency`, both
/// rounded to two decimal places.
pub fn calculate_monthly_breakdown(
    avg_sun_hours: i64,
    system_size_kw: i64,
    latitude: i64,
    system_efficiency: i64,
) -> (r: Vec<MonthlyData>)
    requires
        spec_abs(avg_sun_hours as int) <= MAX_ABS_SUN_HOURS,
        spec_abs(system_size_kw as int) <= MAX_ABS_SYSTEM_SIZE,
        0 <= system_efficiency <= MICRO,
    ensures
        r@.len() == 12,
        forall|j: int|
            0 <= j < 12 ==> (#[trigger] r@[j]).output_kwh == spec_monthly_output(
                system_size_kw as int,
                avg_sun_hours as int,
                system_efficiency as int,
                spec_is_northern(latitude as int),
                j,
            ),
        forall|j: int|
            0 <= j < 12 ==> (#[trigger] r@[j]).sun_hours == spec_monthly_sun(
                avg_sun_hours as int,
                spec_is_northern(latitude as int),
                j,
            ),
        forall|j: int| 0 <= j < 12 ==> (#[trigger] r@[j]).month@ == spec_month_name(j),
        forall|j: int|
            0 <= j < 12 ==> spec_abs((#[trigger] r@[j]).output_kwh as int)
                <= MAX_ABS_MONTHLY_OUTPUT,
{
    let is_northern: bool = latitude > 0;
    let mut breakdown: Vec<MonthlyData> = Vec::new();
    let mut i: usize = 0;
    while i < 12
        invariant
            i <= 12,
            breakdown@.len() == i as int,
            spec_abs(avg_sun_hours as int) <= MAX_ABS_SUN_HOURS,
            spec_abs(system_size_kw as int) <= MAX_ABS_SYSTEM_SIZE,
            0 <= system_efficiency <= MICRO,
            is_northern == spec_is_northern(latitude as int),
            forall|j: int|
                0 <= j < i as int ==> (#[trigger] breakdown@[j]).output_kwh == spec_monthly_output(
                    system_size_kw as int,
                    avg_sun_hours as int,
                    system_efficiency as int,
                    is_northern,
                    j,
                ),
            forall|j: int|
                0 <= j < i as int ==> (#[trigger] breakdown@[j]).sun_hours == spec_monthly_sun(
                    avg_sun_hours as int,
                    is_northern,
                    j,
                ),
            forall|j: int|
                0 <= j < i as int ==> (#[trigger] breakdown@[j]).month@ == spec_month_name(j),
            forall|j: int|
                0 <= j < i as int ==> spec_abs((#[trigger] breakdown@[j]).output_kwh as int)
                    <= MAX_ABS_MONTHLY_OUTPUT,
        decreases 12 - i,
    {
        let variation: i64 = seasonal_variation(is_northern, i);
        let days: i64 = days_in_month(i);
        let name: String = month_name(i);
        proof {
            assert(-1_000_000_000_000_000_000_000int <= (system_size_kw as int) * (avg_sun_hours
                as int) <= 1_000_000_000_000_000_000_000int) by (nonlinear_arith)
                requires
                    spec_abs(system_size_kw as int) <= MAX_ABS_SYSTEM_SIZE,
                    spec_abs(avg_sun_hours as int) <= MAX_ABS_SUN_HOURS,
            ;
        }
        let size_times_sun: i128 = (system_size_kw as i128) * (avg_sun_hours as i128);
        proof {
            assert(-1_000_000_000_000_000_000_000_000_000int <= (size_times_sun as int)
                * (system_efficiency as int) <= 1_000_000_000_000_000_000_000_000_000int)
                by (nonlinear_arith)
                requires
                    -1_000_000_000_000_000_000_000int <= size_times_sun as int
                        <= 1_000_000_000_000_000_000_000int,
                    0 <= system_efficiency <= 1_000_000,
            ;
        }
        let request_factor: i128 = size_times_sun * (system_efficiency as i128);
        proof {
            assert(0 <= (variation as int) * (days as int) <= 40_300_000) by (nonlinear_arith)
                requires
                    700_000 <= variation <= 1_300_000,
                    28 <= days <= 31,
            ;
        }
        let month_weight: i128 = (variation as i128) * (days as i128);
        proof {
            assert(-50_000_000_000_000_000_000_000_000_000_000_000int <= (request_factor as int)
                * (month_weight as int) <= 50_000_000_000_000_000_000_000_000_000_000_000int)
                by (nonlinear_arith)
                requires
                    -1_000_000_000_000_000_000_000_000_000int <= request_factor as int
                        <= 1_000_000_000_000_000_000_000_000_000int,
                    0 <= month_weight as int <= 40_300_000,
            ;
        }
        let output_numer: i128 = request_factor * month_weight;
        let output_centi: i128 = round_half_div_i128(output_numer, OUTPUT_ROUND_DIVISOR);
        proof {
            vstd::arithmetic::div_mod::lemma_div_is_ordered(
                spec_abs(output_numer as int) + 5_000_000_000_000_000_000_000,
                50_000_000_000_000_000_000_000_000_000_000_000int + 5_000_000_000_000_000_000_000,
                10_000_000_000_000_000_000_000,
            );
            assert((50_000_000_000_000_000_000_000_000_000_000_000int
                + 5_000_000_000_000_000_000_000) / 10_000_000_000_000_000_000_000int
                == 5_000_000_000_000) by (nonlinear_arith);
        }
        let output_kwh: i64 = (output_centi * 10_000) as i64;
        proof {
            assert(-130_000_000_000_000int <= (avg_sun_hours as int) * (variation as int)
                <= 130_000_000_000_000int) by (nonlinear_arith)
                requires
                    spec_abs(avg_sun_hours as int) <= MAX_ABS_SUN_HOURS,
                    700_000 <= variation <= 1_300_000,
            ;
        }
        let sun_numer: i128 = (avg_sun_hours as i128) * (variation as i128);
        let sun_centi: i128 = round_half_div_i128(sun_numer, SUN_ROUND_DIVISOR);
        proof {
            vstd::arithmetic::div_mod::lemma_div_is_ordered(
                spec_abs(sun_numer as int) + 5_000_000_000,
                130_000_000_000_000int + 5_000_000_000,
                10_000_000_000,
            );
            assert((130_000_000_000_000int + 5_000_000_000) / 10_000_000_000int == 13_000)
                by (nonlinear_arith);
        }
        let sun_hours: i64 = (sun_centi * 10_000) as i64;
        breakdown.push(MonthlyData { month: name, output_kwh, sun_hours });
        i = i + 1;
    }
    breakdown
}

/// Derives the financial metrics from a system size, a hardware price
/// and an annual output: the total cost, and the payback period in
/// years (cost over annual savings, or the 999-year sentinel when there
/// are no savings).
pub fn compute_financials(system_size_kw: i64, price_per_watt: i64, annual_output_kwh: i64) -> (r:
    (i64, i128))
    requires
        spec_abs(system_size_kw as int) <= MAX_ABS_SYSTEM_SIZE,
        spec_abs(price_per_watt as int) <= MAX_ABS_PRICE_PER_WATT,
        spec_abs(annual_output_kwh as int) <= MAX_ABS_ANNUAL_OUTPUT,
    ensures
        r.0 == spec_total_cost(system_size_kw as int, price_per_watt as int),
        r.1 == spec_roi_years(r.0 as int, spec_annual_savings(annual_output_kwh as int)),
{
    proof {
        assert((system_size_kw as int) * (price_per_watt as int)
            <= MAX_ABS_SYSTEM_SIZE as int * MAX_ABS_PRICE_PER_WATT as int && (system_size_kw as int)
            * (price_per_watt as int) >= -(MAX_ABS_SYSTEM_SIZE as int * MAX_ABS_PRICE_PER_WATT
            as int)) by (nonlinear_arith)
            requires
                spec_abs(system_size_kw as int) <= MAX_ABS_SYSTEM_SIZE,
                spec_abs(price_per_watt as int) <= MAX_ABS_PRICE_PER_WATT,
        ;
    }
    let cost_wide: i128 = div_trunc_i128((system_size_kw as i128) * (price_per_watt as i128), 1000);
    let cost: i64 = cost_wide as i64;
    let savings: i128 = div_trunc_i128((annual_output_kwh as i128) * (ELECTRICITY_PRICE_PER_KWH
        as i128), MICRO as u128);
    let roi: i128 = if savings > 0 {
        div_trunc_i128((cost as i128) * (MICRO as i128), savings as u128)
    } else {
        ROI_SENTINEL_YEARS
    };
    (cost, roi)
}

/// The estimator: validates the request, derives the panel count, the
/// system size and the derating factors, projects the twelve months,
/// and aggregates the annual output and the financial metrics.
///
/// The panel efficiency is validated but does not enter the output
/// arithmetic, and only the roof size and the panel efficiency are
/// validated at all; both gaps are deliberate.
pub fn calculate_solar_output(req: &SimulationRequest) -> (r: Result<
    SimulationResponse,
    SolarError,
>)
    requires
        req.in_fixed_range(),
    ensures
        r == Err::<SimulationResponse, SolarError>(SolarError::InvalidRoofSize) <==> req.roof_size_m2
            <= 0,
        r == Err::<SimulationResponse, SolarError>(SolarError::InvalidPanelEfficiency) <==> (
        req.roof_size_m2 > 0 && !(0 < req.panel_efficiency <= MAX_PANEL_EFFICIENCY)),
        r == Err::<SimulationResponse, SolarError>(SolarError::RoofTooSmall) <==> (0
            < req.roof_size_m2 < PANEL_AREA_M2 && 0 < req.panel_efficiency
            <= MAX_PANEL_EFFICIENCY),
        r is Ok <==> spec_valid_request(*req),
        r matches Ok(resp) ==> spec_response_matches(resp, *req),
        r matches Ok(resp) ==> resp.num_panels >= 1,
        r matches Ok(resp) ==> (req.panel_wattage >= 1 ==> resp.system_size_kw > 0),
{
    if req.roof_size_m2 <= 0 {
        return Err(SolarError::InvalidRoofSize);
    }
    if req.panel_efficiency <= 0 || req.panel_efficiency > MAX_PANEL_EFFICIENCY {
        return Err(SolarError::InvalidPanelEfficiency);
    }
    let num_panels_wide: u64 = (req.roof_size_m2 as u64) / 1_700_000;
    proof {
        vstd::arithmetic::div_mod::lemma_div_is_ordered(
            req.roof_size_m2 as int,
            100_000_000_000int,
            1_700_000,
        );
        assert(100_000_000_000int / 1_700_000 == 58_823) by (nonlinear_arith);
    }
    let num_panels: i32 = num_panels_wide as i32;
    if num_panels == 0 {
        return Err(SolarError::RoofTooSmall);
    }
    proof {
        assert(-10_000_000_000_000int <= (num_panels as int) * (req.panel_wattage as int) * 1000
            <= 10_000_000_000_000int) by (nonlinear_arith)
            requires
                1 <= num_panels <= 58_823,
                spec_abs(req.panel_wattage as int) <= 100_000,
        ;
        if req.panel_wattage >= 1 {
            assert((num_panels as int) * (req.panel_wattage as int) >= 1) by (nonlinear_arith)
                requires
                    num_panels >= 1,
                    req.panel_wattage >= 1,
            ;
        }
    }
    let system_size_kw: i64 = (num_panels as i64) * (req.panel_wattage as i64) * 1000;
    let efficiency_factors = calculate_efficiency_factors(req.latitude);
    let monthly_breakdown = calculate_monthly_breakdown(
        req.avg_sun_hours_per_day,
        system_size_kw,
        req.latitude,
        efficiency_factors.system_efficiency,
    );
    let ghost northern = spec_is_northern(req.latitude as int);
    let ghost eff = efficiency_factors.system_efficiency as int;
    let mut annual_output_kwh: i64 = 0;
    let mut i: usize = 0;
    while i < 12
        invariant
            i <= 12,
            monthly_breakdown@.len() == 12,
            forall|j: int|
                0 <= j < 12 ==> (#[trigger] monthly_breakdown@[j]).output_kwh
                    == spec_monthly_output(system_size_kw as int, req.avg_sun_hours_per_day as int,
                eff, northern, j),
            forall|j: int|
                0 <= j < 12 ==> spec_abs((#[trigger] monthly_breakdown@[j]).output_kwh as int)
                    <= MAX_ABS_MONTHLY_OUTPUT,
            annual_output_kwh == spec_output_sum(
                system_size_kw as int,
                req.avg_sun_hours_per_day as int,
                eff,
                northern,
                i as nat,
            ),
            spec_abs(annual_output_kwh as int) <= (i as int) * MAX_ABS_MONTHLY_OUTPUT,
        decreases 12 - i,
    {
        annual_output_kwh = annual_output_kwh + monthly_breakdown[i].output_kwh;
        i = i + 1;
    }
    let (estimated_cost_usd, estimated_roi_years) = compute_financials(
        system_size_kw,
        req.price_per_watt,
        annual_output_kwh,
    );
    let response = SimulationResponse {
        estimated_output_kwh: annual_output_kwh,
        estimated_cost_usd,
        estimated_roi_years,
        system_size_kw,
        num_panels,
        monthly_breakdown,
        efficiency_factors,
    };
    proof {
        lemma_seq_sum_is_output_sum(
            response.monthly_breakdown@.map_values(|m: MonthlyData| m.output_kwh as int),
            system_size_kw as int,
            req.avg_sun_hours_per_day as int,
            eff,
            northern,
            12,
        );
    }
    Ok(response)
}

} // verus!
