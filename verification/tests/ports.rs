use libgfxinit::{InvalidPort, Port};

#[test]
fn port_values_match_coreboot_header() {
    assert_eq!(Port::Disabled.as_raw(), 0);
    assert_eq!(Port::Lvds.as_raw(), 1);
    assert_eq!(Port::Edp.as_raw(), 2);
    assert_eq!(Port::Dp1.as_raw(), 3);
    assert_eq!(Port::Dp2.as_raw(), 4);
    assert_eq!(Port::Dp3.as_raw(), 5);
    assert_eq!(Port::Hdmi1.as_raw(), 6);
    assert_eq!(Port::Hdmi2.as_raw(), 7);
    assert_eq!(Port::Hdmi3.as_raw(), 8);
    assert_eq!(Port::Analog.as_raw(), 9);
    assert_eq!(Port::try_from(10), Err(InvalidPort(10)));
}

const ALL_PORTS: [Port; 10] = [
    Port::Disabled,
    Port::Lvds,
    Port::Edp,
    Port::Dp1,
    Port::Dp2,
    Port::Dp3,
    Port::Hdmi1,
    Port::Hdmi2,
    Port::Hdmi3,
    Port::Analog,
];

#[test]
fn every_port_round_trips_through_its_raw_value() {
    for port in ALL_PORTS {
        assert_eq!(Port::try_from(port.as_raw()), Ok(port));
    }
}

#[test]
fn raw_values_in_range_name_the_listed_ports() {
    for value in 0..=9 {
        let port = Port::try_from(value).unwrap();
        assert_eq!(port.as_raw(), value);
        assert_eq!(port, ALL_PORTS[value as usize]);
    }
}

#[test]
fn raw_values_outside_range_are_rejected_unchanged() {
    assert_eq!(Port::try_from(-1), Err(InvalidPort(-1)));
    assert_eq!(Port::try_from(11), Err(InvalidPort(11)));
    assert_eq!(Port::try_from(i32::MIN), Err(InvalidPort(i32::MIN)));
    assert_eq!(Port::try_from(i32::MAX), Err(InvalidPort(i32::MAX)));
}

#[test]
fn try_into_agrees_with_try_from() {
    let port: Result<Port, InvalidPort> = 6.try_into();
    assert_eq!(port, Ok(Port::Hdmi1));
}
