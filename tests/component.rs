use ciet_isothermal::component::{ComponentError, FluidComponent};

fn pipe() -> FluidComponent {
    FluidComponent::new(-1_242_494, 39_684, 6_372_319).unwrap()
}

#[test]
fn new_keeps_coefficients_and_has_no_source() {
    let c = pipe();
    assert_eq!(c.hydrostatic_pressure, -1_242_494);
    assert_eq!(c.linear_loss, 39_684);
    assert_eq!(c.quadratic_loss, 6_372_319);
    assert_eq!(c.internal_pressure_source, 0);
}

#[test]
fn new_rejects_negative_loss_coefficient() {
    assert_eq!(FluidComponent::new(0, -1, 5), Err(ComponentError::NegativeLossCoefficient));
    assert_eq!(FluidComponent::new(0, 1, -5), Err(ComponentError::NegativeLossCoefficient));
}

#[test]
fn new_rejects_oversized_loss_coefficient() {
    assert_eq!(
        FluidComponent::new(0, 10_000_000_001, 0),
        Err(ComponentError::LossCoefficientTooLarge)
    );
}

#[test]
fn new_rejects_out_of_range_hydrostatic_pressure() {
    assert_eq!(
        FluidComponent::new(1_000_000_000_001, 0, 0),
        Err(ComponentError::HydrostaticPressureOutOfRange)
    );
}

#[test]
fn pressure_loss_matches_formula() {
    let c = pipe();
    // 0.5 kg/s: 39684 * 0.5 + 6372319 * 0.25 = 19842 + 1593079.75, rounded down
    assert_eq!(c.get_pressure_loss(500_000), 1_612_921);
    assert_eq!(c.get_pressure_loss(0), 0);
}

#[test]
fn pressure_loss_is_odd() {
    let c = pipe();
    for m in [200_000i64, 400_000, 700_000, 1_000_000] {
        assert!(c.get_pressure_loss(m) > 0);
        assert_eq!(c.get_pressure_loss(-m), -c.get_pressure_loss(m));
    }
}

#[test]
fn pressure_change_adds_hydrostatic_and_source() {
    let mut c = pipe();
    assert_eq!(c.get_pressure_change(500_000), -1_242_494 - 1_612_921);
    c.set_internal_pressure_source(500_000);
    assert_eq!(c.get_internal_pressure_source(), 500_000);
    assert_eq!(c.get_pressure_change(500_000), -1_242_494 + 500_000 - 1_612_921);
    assert_eq!(c.get_pressure_change(-500_000), -1_242_494 + 500_000 + 1_612_921);
}

#[test]
fn validity_follows_ranges() {
    assert!(pipe().is_valid());
    let mut c = pipe();
    c.linear_loss = -3;
    assert!(!c.is_valid());
}

#[test]
fn component_flow_from_pressure_change() {
    let c = FluidComponent::new(0, 2_000_000, 4_000_000).unwrap();
    assert_eq!(c.get_pressure_change(500_000), -2_000_000);
    assert_eq!(c.get_mass_flowrate_from_pressure_change(-2_000_000), Ok(500_000));
    assert_eq!(c.get_mass_flowrate_from_pressure_change(2_000_000), Ok(-500_000));
    assert_eq!(c.get_mass_flowrate_from_pressure_change(6_000_000), Ok(-1_000_000));
    assert!(c.get_mass_flowrate_from_pressure_change(6_000_001).is_err());
}
