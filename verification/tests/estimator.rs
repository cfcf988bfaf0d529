use solar_simulator::calculator::calculate_efficiency_factors;
use solar_simulator::calculator::calculate_monthly_breakdown;
use solar_simulator::calculator::calculate_solar_output;
use solar_simulator::calculator::compute_financials;
use solar_simulator::models::SimulationRequest;
use solar_simulator::models::SolarError;

/// The reference request: 40 degrees north, five sun hours, a 20 m^2
/// roof, 300 W panels at 2.50 per watt.
fn scenario_a_request() -> SimulationRequest {
    SimulationRequest {
        latitude: 40_000_000,
        longitude: 0,
        avg_sun_hours_per_day: 5_000_000,
        roof_size_m2: 20_000_000,
        panel_efficiency: 20_000_000,
        panel_wattage: 300,
        price_per_watt: 2_500_000,
    }
}

#[test]
fn scenario_a_sizing_and_efficiency() {
    let resp = calculate_solar_output(&scenario_a_request()).unwrap();
    assert_eq!(resp.num_panels, 11);
    assert_eq!(resp.system_size_kw, 3_300_000);
    assert_eq!(resp.efficiency_factors.temperature_loss, 100_000);
    assert_eq!(resp.efficiency_factors.inverter_efficiency, 960_000);
    assert_eq!(resp.efficiency_factors.dirt_shading_loss, 50_000);
    assert_eq!(resp.efficiency_factors.system_efficiency, 820_800);
}

#[test]
fn scenario_a_monthly_values() {
    let resp = calculate_solar_output(&scenario_a_request()).unwrap();
    assert_eq!(resp.monthly_breakdown.len(), 12);
    // July: 3.3 kW * (5 h * 1.3) * 31 d * 0.8208 = 545.79096 kWh, rounded.
    assert_eq!(resp.monthly_breakdown[6].output_kwh, 545_790_000);
    assert_eq!(resp.monthly_breakdown[6].sun_hours, 6_500_000);
    // January: the northern trough, 5 h * 0.7 = 3.5 h.
    assert_eq!(resp.monthly_breakdown[0].sun_hours, 3_500_000);
    assert_eq!(resp.monthly_breakdown[0].output_kwh, 293_890_000);
    // February: 5 h * (1 - 0.3 * cos(30 deg)) = 3.70096 h, rounded to 3.70.
    assert_eq!(resp.monthly_breakdown[1].sun_hours, 3_700_000);
}

#[test]
fn scenario_a_financials() {
    let resp = calculate_solar_output(&scenario_a_request()).unwrap();
    // 3.3 kW * 1000 * 2.50 per watt.
    assert_eq!(resp.estimated_cost_usd, 8_250_000_000);
    // Cross-check the payback against the real-valued model.
    let annual = resp.estimated_output_kwh as f64 / 1e6;
    let expected_roi = 8250.0 / (annual * 0.15);
    let roi = resp.estimated_roi_years as f64 / 1e6;
    assert!((roi - expected_roi).abs() < 0.001);
}

#[test]
fn annual_output_is_sum_of_months() {
    let resp = calculate_solar_output(&scenario_a_request()).unwrap();
    let sum: i64 = resp.monthly_breakdown.iter().map(|m| m.output_kwh).sum();
    assert_eq!(resp.estimated_output_kwh, sum);
}

#[test]
fn monthly_values_match_float_model() {
    let req = scenario_a_request();
    let resp = calculate_solar_output(&req).unwrap();
    let days = [31.0, 28.0, 31.0, 30.0, 31.0, 30.0, 31.0, 31.0, 30.0, 31.0, 30.0, 31.0];
    for (i, m) in resp.monthly_breakdown.iter().enumerate() {
        let angle = (i as f64 / 12.0) * 2.0 * std::f64::consts::PI;
        let variation = 1.0 + 0.3 * (angle - std::f64::consts::PI).cos();
        let adjusted = 5.0 * variation;
        let output = 3.3 * adjusted * days[i] * 0.8208;
        let rounded = (output * 100.0).round() / 100.0;
        // Agree with the real-valued model to within one cent-unit.
        assert!((m.output_kwh as f64 / 1e6 - rounded).abs() < 0.011);
        let sun_rounded = (adjusted * 100.0).round() / 100.0;
        assert!((m.sun_hours as f64 / 1e6 - sun_rounded).abs() < 0.011);
    }
}

#[test]
fn month_names_in_order() {
    let resp = calculate_solar_output(&scenario_a_request()).unwrap();
    let names = [
        "January", "February", "March", "April", "May", "June", "July", "August", "September",
        "October", "November", "December",
    ];
    for (m, name) in resp.monthly_breakdown.iter().zip(names.iter()) {
        assert_eq!(m.month, *name);
    }
}

#[test]
fn northern_output_peaks_in_july() {
    let resp = calculate_solar_output(&scenario_a_request()).unwrap();
    let july = resp.monthly_breakdown[6].output_kwh;
    for (i, m) in resp.monthly_breakdown.iter().enumerate() {
        if i != 6 {
            assert!(m.output_kwh < july);
        }
    }
}

#[test]
fn southern_output_peaks_in_january() {
    let mut req = scenario_a_request();
    req.latitude = -40_000_000;
    let resp = calculate_solar_output(&req).unwrap();
    let january = resp.monthly_breakdown[0].output_kwh;
    for (i, m) in resp.monthly_breakdown.iter().enumerate() {
        if i != 0 {
            assert!(m.output_kwh < january);
        }
    }
}

#[test]
fn equator_takes_the_southern_curve() {
    let mut req = scenario_a_request();
    req.latitude = 0;
    let resp = calculate_solar_output(&req).unwrap();
    let january = resp.monthly_breakdown[0].output_kwh;
    for (i, m) in resp.monthly_breakdown.iter().enumerate() {
        if i != 0 {
            assert!(m.output_kwh < january);
        }
    }
}

#[test]
fn scenario_b_roof_too_small() {
    let mut req = scenario_a_request();
    req.roof_size_m2 = 1_000_000;
    let err = calculate_solar_output(&req).unwrap_err();
    assert_eq!(err, SolarError::RoofTooSmall);
    assert_eq!(err.message(), "Roof size too small for any panels");
}

#[test]
fn scenario_c_zero_efficiency() {
    let mut req = scenario_a_request();
    req.panel_efficiency = 0;
    let err = calculate_solar_output(&req).unwrap_err();
    assert_eq!(err, SolarError::InvalidPanelEfficiency);
    assert_eq!(err.message(), "Panel efficiency must be between 0 and 100");
}

#[test]
fn efficiency_above_hundred_rejected() {
    let mut req = scenario_a_request();
    req.panel_efficiency = 100_000_001;
    assert_eq!(
        calculate_solar_output(&req).unwrap_err(),
        SolarError::InvalidPanelEfficiency
    );
    req.panel_efficiency = 100_000_000;
    assert!(calculate_solar_output(&req).is_ok());
}

#[test]
fn nonpositive_roof_rejected_first() {
    let mut req = scenario_a_request();
    req.roof_size_m2 = 0;
    let err = calculate_solar_output(&req).unwrap_err();
    assert_eq!(err, SolarError::InvalidRoofSize);
    assert_eq!(err.message(), "Roof size must be positive");
    // A negative roof wins over a bad efficiency: the roof is checked first.
    req.roof_size_m2 = -5_000_000;
    req.panel_efficiency = 0;
    assert_eq!(
        calculate_solar_output(&req).unwrap_err(),
        SolarError::InvalidRoofSize
    );
}

#[test]
fn roof_boundary_at_one_panel() {
    let mut req = scenario_a_request();
    req.roof_size_m2 = 1_700_000;
    let resp = calculate_solar_output(&req).unwrap();
    assert_eq!(resp.num_panels, 1);
    req.roof_size_m2 = 1_699_999;
    assert_eq!(
        calculate_solar_output(&req).unwrap_err(),
        SolarError::RoofTooSmall
    );
}

#[test]
fn one_watt_system_is_still_positive() {
    let mut req = scenario_a_request();
    req.roof_size_m2 = 1_700_000;
    req.panel_wattage = 1;
    let resp = calculate_solar_output(&req).unwrap();
    assert_eq!(resp.num_panels, 1);
    assert_eq!(resp.system_size_kw, 1_000);
    assert!(resp.estimated_output_kwh > 0);
}

#[test]
fn zero_savings_takes_the_sentinel() {
    let (cost, roi) = compute_financials(3_300_000, 2_500_000, 0);
    assert_eq!(cost, 8_250_000_000);
    assert_eq!(roi, 999_000_000);
}

#[test]
fn temperature_loss_bands() {
    assert_eq!(calculate_efficiency_factors(0).temperature_loss, 150_000);
    assert_eq!(
        calculate_efficiency_factors(29_999_999).temperature_loss,
        150_000
    );
    assert_eq!(
        calculate_efficiency_factors(30_000_000).temperature_loss,
        100_000
    );
    assert_eq!(
        calculate_efficiency_factors(-44_999_999).temperature_loss,
        100_000
    );
    assert_eq!(
        calculate_efficiency_factors(45_000_000).temperature_loss,
        50_000
    );
    assert_eq!(
        calculate_efficiency_factors(-60_000_000).temperature_loss,
        50_000
    );
}

#[test]
fn system_efficiency_per_band() {
    // (1 - loss) * 0.96 * 0.95 for the three bands.
    assert_eq!(calculate_efficiency_factors(0).system_efficiency, 775_200);
    assert_eq!(
        calculate_efficiency_factors(40_000_000).system_efficiency,
        820_800
    );
    assert_eq!(
        calculate_efficiency_factors(50_000_000).system_efficiency,
        866_400
    );
}

#[test]
fn longitude_does_not_affect_the_estimate() {
    let mut req = scenario_a_request();
    let base = calculate_solar_output(&req).unwrap();
    req.longitude = -123_450_000;
    let moved = calculate_solar_output(&req).unwrap();
    assert_eq!(base.estimated_output_kwh, moved.estimated_output_kwh);
    assert_eq!(base.estimated_cost_usd, moved.estimated_cost_usd);
    assert_eq!(base.estimated_roi_years, moved.estimated_roi_years);
    assert_eq!(base.num_panels, moved.num_panels);
}

#[test]
fn halves_round_away_from_zero() {
    // 0.025 h of sun in a month with no seasonal swing (April) gives
    // exactly 2.5 centi-hours, which must round up to 0.03, not to the
    // even neighbour 0.02.
    let mut req = scenario_a_request();
    req.avg_sun_hours_per_day = 25_000;
    let resp = calculate_solar_output(&req).unwrap();
    assert_eq!(resp.monthly_breakdown[3].sun_hours, 30_000);
}

#[test]
fn breakdown_alone_matches_estimate() {
    let resp = calculate_solar_output(&scenario_a_request()).unwrap();
    let months = calculate_monthly_breakdown(5_000_000, 3_300_000, 40_000_000, 820_800);
    assert_eq!(months.len(), 12);
    for (a, b) in months.iter().zip(resp.monthly_breakdown.iter()) {
        assert_eq!(a.output_kwh, b.output_kwh);
        assert_eq!(a.sun_hours, b.sun_hours);
        assert_eq!(a.month, b.month);
    }
}
