use ciet_isothermal::branch::Branch;
use ciet_isothermal::catalog::{CTAHBranch, CTAH_PUMP_INDEX};
use ciet_isothermal::component::FluidComponent;
use ciet_isothermal::facility::{CIETIsothermalFacility, FacilityError, SolveResult};

const LOOP_HYDROSTATIC: i64 = 40_507_348;

fn heater_branch() -> Branch {
    let lower = FluidComponent::new(LOOP_HYDROSTATIC / 2, 7_000_000, 90_000_000).unwrap();
    let upper =
        FluidComponent::new(LOOP_HYDROSTATIC - LOOP_HYDROSTATIC / 2, 5_000_000, 60_000_000)
            .unwrap();
    Branch::new(vec![lower, upper]).unwrap()
}

fn dhx_branch() -> Branch {
    let shell = FluidComponent::new(LOOP_HYDROSTATIC, 15_000_000, 200_000_000).unwrap();
    Branch::new(vec![shell]).unwrap()
}

fn facility() -> CIETIsothermalFacility {
    CIETIsothermalFacility::new(
        CTAHBranch::new().branch(),
        heater_branch(),
        dhx_branch(),
        CTAH_PUMP_INDEX,
    )
    .unwrap()
}

fn solve(pump_pascals: i64, ctah: bool, heater: bool, dhx: bool) -> Result<SolveResult, FacilityError> {
    let mut f = facility();
    f.set_ctah_pump_pressure(pump_pascals * 1000).unwrap();
    f.set_valve_states(ctah, heater, dhx);
    f.calculate()
}

/// Pressure change of a branch at `m` kg/s in pascals, summed by hand from
/// its coefficients without rounding.
fn reference_change(b: &Branch, pump_pa: f64, m: f64) -> f64 {
    let mut total = pump_pa;
    for c in &b.components {
        let h = c.hydrostatic_pressure as f64 / 1000.0;
        let lin = c.linear_loss as f64 / 1000.0;
        let quad = c.quadratic_loss as f64 / 1000.0;
        let loss = lin * m.abs() + quad * m * m;
        total += h - m.signum() * loss;
    }
    total
}

fn reference_flow(b: &Branch, pump_pa: f64, p: f64) -> f64 {
    let (mut lo, mut hi) = (-1.0f64, 1.0f64);
    for _ in 0..200 {
        let mid = 0.5 * (lo + hi);
        if reference_change(b, pump_pa, mid) >= p {
            lo = mid;
        } else {
            hi = mid;
        }
    }
    lo
}

/// CTAH flow of the loop with the DHX check valve, solved in floating point.
fn reference_ctah_flow(pump_pa: f64) -> f64 {
    let ctah = CTAHBranch::new().branch();
    let heater = heater_branch();
    let dhx = dhx_branch();
    let dhx_h = reference_change(&dhx, 0.0, 0.0);
    let net = |p: f64| {
        let d = if p > dhx_h { 0.0 } else { reference_flow(&dhx, 0.0, p) };
        reference_flow(&ctah, pump_pa, p) + reference_flow(&heater, 0.0, p) + d
    };
    let h = reference_change(&heater, 0.0, 0.0);
    let (mut lo, mut hi) = (h - 50_000.0, h + 50_000.0);
    for _ in 0..200 {
        let mid = 0.5 * (lo + hi);
        if net(mid) > 0.0 {
            lo = mid;
        } else {
            hi = mid;
        }
    }
    reference_flow(&ctah, pump_pa, hi)
}

#[test]
fn new_rejects_pump_index_outside_branch() {
    let r = CIETIsothermalFacility::new(
        CTAHBranch::new().branch(),
        heater_branch(),
        dhx_branch(),
        17,
    );
    assert!(matches!(r, Err(FacilityError::InvalidPumpIndex)));
}

#[test]
fn new_starts_open_with_idle_pump() {
    let f = facility();
    assert!(f.ctah_valve_open && f.heater_valve_open && f.dhx_valve_open);
    assert_eq!(f.get_ctah_pump_pressure(), 0);
    assert_eq!(f.get_ctah_branch_mass_flowrate(), 0);
}

#[test]
fn new_resets_pump_source() {
    let mut ctah = CTAHBranch::new().branch();
    ctah.components[CTAH_PUMP_INDEX].set_internal_pressure_source(5);
    let f = CIETIsothermalFacility::new(ctah, heater_branch(), dhx_branch(), CTAH_PUMP_INDEX)
        .unwrap();
    assert_eq!(f.get_ctah_pump_pressure(), 0);
    assert_eq!(f.ctah_branch.components[CTAH_PUMP_INDEX].internal_pressure_source, 0);
    assert_eq!(f.ctah_branch.get_pressure_change(0), LOOP_HYDROSTATIC);
    assert_eq!(f.get_heater_branch_mass_flowrate(), 0);
    assert_eq!(f.get_dhx_branch_mass_flowrate(), 0);
}

#[test]
fn pump_pressure_out_of_range_is_rejected() {
    let mut f = facility();
    assert_eq!(
        f.set_ctah_pump_pressure(1_000_000_000_001),
        Err(FacilityError::PumpPressureOutOfRange)
    );
    assert_eq!(f.get_ctah_pump_pressure(), 0);
}

#[test]
fn pump_pressure_reaches_pump_component() {
    let mut f = facility();
    f.set_ctah_pump_pressure(500_000).unwrap();
    assert_eq!(f.get_ctah_pump_pressure(), 500_000);
    assert_eq!(f.ctah_branch.components[CTAH_PUMP_INDEX].internal_pressure_source, 500_000);
    assert_eq!(f.ctah_branch.get_pressure_change(0), LOOP_HYDROSTATIC + 500_000);
}

#[test]
fn idle_pump_gives_no_flow_at_hydrostatic_balance() {
    let r = solve(0, true, true, true).unwrap();
    assert!(r.ctah_branch_mass_flowrate.abs() <= 1_000);
    assert!(r.heater_branch_mass_flowrate.abs() <= 1_000);
    assert!(r.dhx_branch_mass_flowrate.abs() <= 1_000);
    assert!((r.pressure_change - LOOP_HYDROSTATIC).abs() <= 1_000);
}

#[test]
fn pump_at_500_pa_matches_hand_assembled_reference() {
    let mut f = facility();
    f.set_ctah_pump_pressure(500_000).unwrap();
    let r = f.calculate().unwrap();
    let flow = r.ctah_branch_mass_flowrate as f64 / 1e6;
    let reference = reference_ctah_flow(500.0);
    assert!(flow > 0.0);
    assert!(((flow - reference) / reference).abs() <= 0.01, "{} vs {}", flow, reference);
    assert_eq!(f.get_ctah_branch_mass_flowrate(), r.ctah_branch_mass_flowrate);
    assert_eq!(f.get_heater_branch_mass_flowrate(), r.heater_branch_mass_flowrate);
    assert_eq!(f.get_dhx_branch_mass_flowrate(), r.dhx_branch_mass_flowrate);
}

#[test]
fn flows_sum_to_zero_for_every_valve_combination() {
    for pump in [0i64, 250, 500, 1_000] {
        for mask in 1u8..8 {
            let (c, h, d) = (mask & 1 != 0, mask & 2 != 0, mask & 4 != 0);
            let r = solve(pump, c, h, d).unwrap();
            let sum = r.ctah_branch_mass_flowrate
                + r.heater_branch_mass_flowrate
                + r.dhx_branch_mass_flowrate;
            assert!(sum <= 0 && sum >= -3, "pump {} mask {} sum {}", pump, mask, sum);
            if !c {
                assert_eq!(r.ctah_branch_mass_flowrate, 0);
            }
            if !h {
                assert_eq!(r.heater_branch_mass_flowrate, 0);
            }
            if !d {
                assert_eq!(r.dhx_branch_mass_flowrate, 0);
            }
        }
    }
}

#[test]
fn check_valve_blocks_reverse_dhx_flow() {
    for pump in [100i64, 500, 1_000, 5_000] {
        let r = solve(pump, true, true, true).unwrap();
        assert!(r.pressure_change > LOOP_HYDROSTATIC);
        assert_eq!(r.dhx_branch_mass_flowrate, 0);
        assert!(r.heater_branch_mass_flowrate < 0);
    }
}

#[test]
fn reversed_pump_drives_forward_dhx_flow() {
    let r = solve(-500, true, true, true).unwrap();
    assert!(r.pressure_change < LOOP_HYDROSTATIC);
    assert!(r.dhx_branch_mass_flowrate > 0);
    assert!(r.ctah_branch_mass_flowrate < 0);
}

#[test]
fn ctah_flow_grows_with_pump_pressure() {
    let mut last = i64::MIN;
    for pump in (0..=4_000i64).step_by(250) {
        let r = solve(pump, true, true, true).unwrap();
        assert!(r.ctah_branch_mass_flowrate >= last);
        last = r.ctah_branch_mass_flowrate;
    }
}

#[test]
fn closed_dhx_valve_carries_nothing() {
    for pump in [0i64, 100, 500, 2_000, -500] {
        let r = solve(pump, true, true, false).unwrap();
        assert_eq!(r.dhx_branch_mass_flowrate, 0);
        let sum = r.ctah_branch_mass_flowrate + r.heater_branch_mass_flowrate;
        assert!(sum <= 0 && sum >= -3);
    }
}

#[test]
fn all_valves_closed_gives_zero_flow() {
    let r = solve(500, false, false, false).unwrap();
    assert_eq!(r.ctah_branch_mass_flowrate, 0);
    assert_eq!(r.heater_branch_mass_flowrate, 0);
    assert_eq!(r.dhx_branch_mass_flowrate, 0);
    assert_eq!(r.pressure_change, LOOP_HYDROSTATIC);
}

#[test]
fn pump_beyond_bracket_has_no_sign_change() {
    assert_eq!(solve(200_000, true, true, true), Err(FacilityError::NoSignChange));
}

#[test]
fn flow_beyond_one_kilogram_per_second_is_reported() {
    let light = FluidComponent::new(LOOP_HYDROSTATIC, 1_000_000, 1_000_000).unwrap();
    let mut f = CIETIsothermalFacility::new(
        CTAHBranch::new().branch(),
        Branch::new(vec![light]).unwrap(),
        dhx_branch(),
        CTAH_PUMP_INDEX,
    )
    .unwrap();
    f.set_ctah_pump_pressure(400_000_000).unwrap();
    assert_eq!(f.calculate(), Err(FacilityError::BranchOutOfRange));
    assert_eq!(f.get_ctah_branch_mass_flowrate(), 0);
}
