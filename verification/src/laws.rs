//! General properties of the estimator, stated and proved once for all
//! inputs.

use vstd::prelude::*;

verus! {

use vstd::arithmetic::div_mod::lemma_div_is_ordered;
use vstd::arithmetic::mul::lemma_mul_strict_inequality;
use crate::calculator::spec_annual_output;
use crate::calculator::spec_days_in_month;
use crate::calculator::spec_is_northern;
use crate::calculator::spec_monthly_output;
use crate::calculator::spec_output_numer;
use crate::calculator::spec_output_sum;
use crate::calculator::spec_seasonal_variation;
use crate::calculator::spec_system_efficiency;
use crate::calculator::spec_temperature_loss;
use crate::calculator::OUTPUT_ROUND_DIVISOR;
use crate::fixed::lemma_round_half_monotone;

/// The combined system yield always lies strictly between zero and one
/// (one micro-unit short of `MICRO`), whatever the latitude.
pub proof fn lemma_system_efficiency_bounds(latitude: int)
    ensures
        0 < spec_system_efficiency(spec_temperature_loss(latitude)),
        spec_system_efficiency(spec_temperature_loss(latitude)) < 1_000_000,
{
}

/// The combined system yield strictly decreases as the thermal derating
/// increases: of two latitudes, the one in the lossier band yields the
/// strictly smaller system efficiency.
pub proof fn lemma_system_efficiency_decreasing(lat_a: int, lat_b: int)
    requires
        spec_temperature_loss(lat_a) < spec_temperature_loss(lat_b),
    ensures
        spec_system_efficiency(spec_temperature_loss(lat_a)) > spec_system_efficiency(
            spec_temperature_loss(lat_b),
        ),
{
}

/// The month whose output is largest: July (index 6) on the northern
/// curve, January (index 0) otherwise.
pub open spec fn spec_peak_month(northern: bool) -> int {
    if northern {
        6
    } else {
        0
    }
}

/// The seasonal weight (variation times day count) of every month, with
/// its peak: 40 300 000 at the peak month, at most 39 054 048 anywhere
/// else, and never below 20 725 376.
proof fn lemma_month_weight_bounds(northern: bool, j: int)
    requires
        0 <= j < 12,
    ensures
        20_725_376 <= spec_seasonal_variation(northern, j) * spec_days_in_month(j) <= 40_300_000,
        spec_seasonal_variation(northern, spec_peak_month(northern)) * spec_days_in_month(
            spec_peak_month(northern),
        ) == 40_300_000,
        j != spec_peak_month(northern) ==> spec_seasonal_variation(northern, j)
            * spec_days_in_month(j) <= 39_054_048,
{
    if northern {
        if j == 0 {
        } else if j == 1 {
        } else if j == 2 {
        } else if j == 3 {
        } else if j == 4 {
        } else if j == 5 {
        } else if j == 6 {
        } else if j == 7 {
        } else if j == 8 {
        } else if j == 9 {
        } else if j == 10 {
        } else {
        }
    } else {
        if j == 0 {
        } else if j == 1 {
        } else if j == 2 {
        } else if j == 3 {
        } else if j == 4 {
        } else if j == 5 {
        } else if j == 6 {
        } else if j == 7 {
        } else if j == 8 {
        } else if j == 9 {
        } else if j == 10 {
        } else {
        }
    }
}

/// For a positive system size, positive sun hours and positive yield,
/// the output of the peak month — July (index 6) in the northern
/// hemisphere, January (index 0) otherwise — strictly exceeds every
/// other month's before rounding, and is no smaller after rounding.
pub proof fn lemma_peak_month(size: int, sun: int, eff: int, northern: bool)
    requires
        size > 0,
        sun > 0,
        eff > 0,
    ensures
        forall|j: int|
            0 <= j < 12 && j != spec_peak_month(northern) ==> spec_output_numer(
                size,
                sun,
                eff,
                northern,
                spec_peak_month(northern),
            ) > #[trigger] spec_output_numer(size, sun, eff, northern, j),
        forall|j: int|
            0 <= j < 12 ==> spec_monthly_output(size, sun, eff, northern, spec_peak_month(northern))
                >= #[trigger] spec_monthly_output(size, sun, eff, northern, j),
{
    let c = size * sun * eff;
    let peak = spec_peak_month(northern);
    assert(c > 0) by (nonlinear_arith)
        requires
            size > 0,
            sun > 0,
            eff > 0,
            c == size * sun * eff,
    ;
    lemma_month_weight_bounds(northern, peak);
    let wp = spec_seasonal_variation(northern, peak) * spec_days_in_month(peak);
    assert forall|j: int| 0 <= j < 12 && j != peak implies spec_output_numer(
        size,
        sun,
        eff,
        northern,
        peak,
    ) > #[trigger] spec_output_numer(size, sun, eff, northern, j) by {
        lemma_month_weight_bounds(northern, j);
        let wj = spec_seasonal_variation(northern, j) * spec_days_in_month(j);
        lemma_mul_strict_inequality(wj, wp, c);
    }
    assert forall|j: int| 0 <= j < 12 implies spec_monthly_output(size, sun, eff, northern, peak)
        >= #[trigger] spec_monthly_output(size, sun, eff, northern, j) by {
        lemma_month_weight_bounds(northern, j);
        let wj = spec_seasonal_variation(northern, j) * spec_days_in_month(j);
        assert(0 < spec_output_numer(size, sun, eff, northern, j) && spec_output_numer(
            size,
            sun,
            eff,
            northern,
            j,
        ) <= spec_output_numer(size, sun, eff, northern, peak)) by (nonlinear_arith)
            requires
                c > 0,
                0 < wj <= wp,
                spec_output_numer(size, sun, eff, northern, j) == c * wj,
                spec_output_numer(size, sun, eff, northern, peak) == c * wp,
        ;
        lemma_round_half_monotone(
            spec_output_numer(size, sun, eff, northern, peak),
            spec_output_numer(size, sun, eff, northern, j),
            OUTPUT_ROUND_DIVISOR as int,
        );
    }
}

/// The twelve-month sum is at least `n` times a common lower bound of
/// the monthly outputs.
proof fn lemma_output_sum_lower(size: int, sun: int, eff: int, northern: bool, low: int, n: nat)
    requires
        forall|j: int|
            0 <= j < n ==> #[trigger] spec_monthly_output(size, sun, eff, northern, j) >= low,
    ensures
        spec_output_sum(size, sun, eff, northern, n) >= low * n,
    decreases n,
{
    if n == 0 {
    } else {
        lemma_output_sum_lower(size, sun, eff, northern, low, (n - 1) as nat);
        assert(low * n == low * (n - 1) + low) by (nonlinear_arith);
    }
}

/// For a system of at least 0.001 kW (one panel of one watt) and at
/// least one hour of average daily sun, every rounded monthly output is
/// at least 0.01 kWh, so the annual output is strictly positive and the
/// payback sentinel is out of reach.
pub proof fn lemma_positive_annual_output(size: int, sun: int, latitude: int)
    requires
        size >= 1000,
        sun >= 1_000_000,
    ensures
        forall|j: int|
            0 <= j < 12 ==> #[trigger] spec_monthly_output(
                size,
                sun,
                spec_system_efficiency(spec_temperature_loss(latitude)),
                spec_is_northern(latitude),
                j,
            ) >= 10_000,
        spec_annual_output(
            size,
            sun,
            spec_system_efficiency(spec_temperature_loss(latitude)),
            spec_is_northern(latitude),
        ) >= 120_000,
{
    let eff = spec_system_efficiency(spec_temperature_loss(latitude));
    let northern = spec_is_northern(latitude);
    assert(eff >= 775_200);
    let c = size * sun * eff;
    assert(c >= 775_200_000_000_000int) by (nonlinear_arith)
        requires
            size >= 1000,
            sun >= 1_000_000,
            eff >= 775_200,
            c == size * sun * eff,
    ;
    assert forall|j: int| 0 <= j < 12 implies #[trigger] spec_monthly_output(
        size,
        sun,
        eff,
        northern,
        j,
    ) >= 10_000 by {
        lemma_month_weight_bounds(northern, j);
        let wj = spec_seasonal_variation(northern, j) * spec_days_in_month(j);
        assert(spec_output_numer(size, sun, eff, northern, j)
            >= 16_000_000_000_000_000_000_000int) by (nonlinear_arith)
            requires
                c >= 775_200_000_000_000int,
                wj >= 20_725_376,
                spec_output_numer(size, sun, eff, northern, j) == c * wj,
        ;
        lemma_div_is_ordered(
            16_000_000_000_000_000_000_000int + 5_000_000_000_000_000_000_000,
            spec_output_numer(size, sun, eff, northern, j) + 5_000_000_000_000_000_000_000,
            10_000_000_000_000_000_000_000,
        );
        assert((16_000_000_000_000_000_000_000int + 5_000_000_000_000_000_000_000)
            / 10_000_000_000_000_000_000_000int == 2) by (nonlinear_arith);
    }
    lemma_output_sum_lower(size, sun, eff, northern, 10_000, 12);
}

} // verus!
