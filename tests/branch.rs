use ciet_isothermal::branch::{Branch, BranchError};
use ciet_isothermal::catalog::CTAHBranch;
use ciet_isothermal::component::FluidComponent;

fn ctah() -> Branch {
    CTAHBranch::new().branch()
}

#[test]
fn new_rejects_empty_branch() {
    assert!(matches!(Branch::new(vec![]), Err(BranchError::Empty)));
}

#[test]
fn new_rejects_too_many_components() {
    let c = FluidComponent::new(0, 1, 1).unwrap();
    assert!(matches!(Branch::new(vec![c; 1001]), Err(BranchError::TooManyComponents)));
}

#[test]
fn new_rejects_invalid_component() {
    let mut c = FluidComponent::new(0, 1, 1).unwrap();
    c.quadratic_loss = -1;
    assert!(matches!(Branch::new(vec![c]), Err(BranchError::InvalidComponent)));
}

#[test]
fn pressure_change_is_sum_of_components() {
    let a = FluidComponent::new(1_000, 2_000_000, 4_000_000).unwrap();
    let b = FluidComponent::new(-300, 1_000_000, 0).unwrap();
    let branch = Branch::new(vec![a, b]).unwrap();
    // 0.5 kg/s: a loses 1000000 + 1000000, b loses 500000
    assert_eq!(branch.get_pressure_change(500_000), 1_000 - 2_000_000 - 300 - 500_000);
    assert_eq!(branch.get_pressure_change(0), 700);
}

#[test]
fn ctah_branch_hydrostatic_pressure() {
    // about 40.5 kPa gained by the fluid falling through the branch
    assert_eq!(ctah().get_pressure_change(0), 40_507_348);
}

#[test]
fn ctah_branch_round_trip() {
    let b = ctah();
    for m in [0i64, 200_000, 400_000, 700_000, 1_000_000, -200_000, -400_000, -700_000, -1_000_000] {
        let p = b.get_pressure_change(m);
        assert_eq!(b.get_mass_flowrate_from_pressure_change(p), Ok(m));
    }
}

#[test]
fn round_trip_without_strict_friction_keeps_pressure() {
    let c = FluidComponent::new(0, 0, 1_000_000).unwrap();
    let b = Branch::new(vec![c]).unwrap();
    let m = 1_000i64;
    let p = b.get_pressure_change(m);
    let r = b.get_mass_flowrate_from_pressure_change(p).unwrap();
    assert!(r >= m);
    assert_eq!(b.get_pressure_change(r), p);
}

#[test]
fn inverse_fails_outside_bracket() {
    let b = ctah();
    let top = b.get_pressure_change(-1_000_000);
    let bottom = b.get_pressure_change(1_000_000);
    assert_eq!(b.get_mass_flowrate_from_pressure_change(top + 1), Err(BranchError::NoSignChange));
    assert_eq!(
        b.get_mass_flowrate_from_pressure_change(bottom - 1),
        Err(BranchError::NoSignChange)
    );
    assert_eq!(b.get_mass_flowrate_from_pressure_change(top), Ok(-1_000_000));
    assert_eq!(b.get_mass_flowrate_from_pressure_change(bottom), Ok(1_000_000));
}

#[test]
fn flow_at_pressure_change_saturates() {
    let b = ctah();
    let top = b.get_pressure_change(-1_000_000);
    let bottom = b.get_pressure_change(1_000_000);
    assert_eq!(b.flow_at_pressure_change(top + 5), -1_000_000);
    assert_eq!(b.flow_at_pressure_change(bottom - 5), 1_000_000);
}

#[test]
fn ctah_pump_is_lossless() {
    let f = CTAHBranch::new();
    let pump = f.get_ctah_pump();
    assert_eq!(pump.get_pressure_change(300_000), 0);
    assert_eq!(f.get_pipe_10().hydrostatic_pressure, 25_491_615);
}

fn ctah_with_pump(pump_pascals: f64) -> Branch {
    let mut b = ctah();
    b.components[ciet_isothermal::catalog::CTAH_PUMP_INDEX]
        .set_internal_pressure_source((pump_pascals * 1000.0) as i64);
    b
}

/// Pressure change of a branch at `m` kg/s in pascals, summed by hand from
/// its coefficients without rounding.
fn reference_change_pa(b: &Branch, m: f64) -> f64 {
    let mut total = 0.0;
    for c in &b.components {
        let loss = c.linear_loss as f64 / 1000.0 * m.abs() + c.quadratic_loss as f64 / 1000.0 * m * m;
        total += (c.hydrostatic_pressure + c.internal_pressure_source) as f64 / 1000.0
            - m.signum() * loss;
    }
    total
}

fn assert_relative(expected: f64, actual: f64, max_relative: f64) {
    let scale = expected.abs().max(actual.abs());
    assert!((expected - actual).abs() <= max_relative * scale, "{} vs {}", expected, actual);
}

#[test]
fn assert_ctah_behave_ok() {
    let flows_kg_per_s = [0.0, 0.2, 0.4, 0.7, 1.0, -0.2, -0.4, -0.7, -1.0];
    for m in flows_kg_per_s {
        let b = ctah_with_pump(0.0);
        let reference = reference_change_pa(&b, m);
        let test = b.get_pressure_change((m * 1e6) as i64) as f64 / 1000.0;
        assert_relative(reference, test, 0.01);
    }

    let targets_pa = [0.0, 200.0, 400.0, 700.0, 1000.0, -200.0, -400.0, -700.0, -1000.0];
    for target in targets_pa {
        let b = ctah_with_pump(1000.0);
        let flow = b.get_mass_flowrate_from_pressure_change((target * 1000.0) as i64).unwrap();
        let reference = reference_change_pa(&b, flow as f64 / 1e6);
        if target == 0.0 {
            assert!((reference - target).abs() <= 10.0);
        } else {
            assert_relative(reference, target, 0.01);
        }
    }

    let pumps_pa = [
        0.0, 200.0, 400.0, 700.0, 1000.0, -200.0, -400.0, -700.0, -1000.0, -10000.0, 10000.0,
        -1000000.0, 1000000.0,
    ];
    for pump in pumps_pa {
        let b = ctah_with_pump(pump);
        let result = b.get_mass_flowrate_from_pressure_change(1_000_000);
        if pump.abs() >= 1000000.0 {
            assert_eq!(result, Err(BranchError::NoSignChange));
        } else {
            let reference = reference_change_pa(&b, result.unwrap() as f64 / 1e6);
            assert_relative(reference, 1000.0, 0.01);
        }
    }
}

#[test]
fn ctah_branch_lists_catalog_components() {
    let f = CTAHBranch::new();
    let b = f.branch();
    assert_eq!(b.components.len(), 17);
    assert_eq!(b.components[0], f.get_pipe6a());
    assert_eq!(b.components[3], f.get_ctah_horizontal());
    assert_eq!(b.components[10], f.get_ctah_pump());
    assert_eq!(b.components[13], f.get_flowmeter_40_14a());
    assert_eq!(b.components[16], f.get_branch_17());
}

#[test]
fn ctah_round_trip_with_pump_running() {
    let b = ctah_with_pump(2500.0);
    for m in [0i64, 1, -1, 123_456, -654_321, 1_000_000, -1_000_000] {
        let p = b.get_pressure_change(m);
        assert_eq!(b.get_mass_flowrate_from_pressure_change(p), Ok(m));
    }
}
