use twatch_status::status::{
    charger_state, sample, ChargeLabel, ChargerState, ConnectionLabel, DeviceError, TimeReading,
    PERCENTAGE_SENTINEL,
};

fn noon() -> TimeReading {
    TimeReading { hours: 12, minutes: 0, seconds: 0 }
}

#[test]
fn full_when_not_charging_at_hundred() {
    assert_eq!(charger_state(100, false), ChargerState::Full);
}

#[test]
fn charging_takes_precedence_at_hundred() {
    assert_eq!(charger_state(100, true), ChargerState::Charging);
}

#[test]
fn every_percentage_yields_one_state() {
    for p in 0u8..=100 {
        assert_eq!(charger_state(p, true), ChargerState::Charging);
        let expected = if p == 100 { ChargerState::Full } else { ChargerState::Discharging };
        assert_eq!(charger_state(p, false), expected);
    }
}

#[test]
fn scenario_full_label() {
    let f = sample(Ok(false), Ok(true), Ok(100), Ok(noon()));
    assert_eq!(f.charge, ChargeLabel::State(ChargerState::Full));
    assert_eq!(f.charge.as_str(), "Full");
    assert_eq!(f.percentage, 100);
}

#[test]
fn scenario_charging_label() {
    let f = sample(Ok(true), Ok(true), Ok(55), Ok(noon()));
    assert_eq!(f.charge.as_str(), "Charging");
    assert_eq!(f.percentage, 55);
}

#[test]
fn scenario_percentage_read_fails() {
    let f = sample(Ok(false), Ok(true), Err(DeviceError::PmuError), Ok(noon()));
    assert_eq!(f.percentage, 101);
    assert_eq!(f.percentage, PERCENTAGE_SENTINEL);
    assert_eq!(f.charge, ChargeLabel::Error);
    assert_eq!(f.charge.as_str(), "Error");
    assert_eq!(f.battery_level, None);
}

#[test]
fn charging_read_fails() {
    let f = sample(Err(DeviceError::PmuError), Ok(true), Ok(40), Ok(noon()));
    assert_eq!(f.charge.as_str(), "Error");
    assert_eq!(f.percentage, 40);
}

#[test]
fn out_of_range_percentage_is_a_failed_read() {
    let f = sample(Ok(false), Ok(true), Ok(150), Ok(noon()));
    assert_eq!(f.percentage, PERCENTAGE_SENTINEL);
    assert_eq!(f.charge, ChargeLabel::Error);
}

#[test]
fn discharging_label() {
    let f = sample(Ok(false), Ok(true), Ok(0), Ok(noon()));
    assert_eq!(f.charge.as_str(), "Discharging");
}

#[test]
fn battery_level_from_percentage() {
    assert_eq!(sample(Ok(false), Ok(true), Ok(100), Ok(noon())).battery_level, Some(255));
    assert_eq!(sample(Ok(false), Ok(true), Ok(50), Ok(noon())).battery_level, Some(127));
    assert_eq!(sample(Ok(false), Ok(true), Ok(0), Ok(noon())).battery_level, Some(0));
}

#[test]
fn connection_labels() {
    assert_eq!(sample(Ok(false), Ok(true), Ok(1), Ok(noon())).connection, ConnectionLabel::Connected);
    assert_eq!(sample(Ok(false), Ok(false), Ok(1), Ok(noon())).connection.as_str(), "Disconnected");
    let f = sample(Ok(false), Err(DeviceError::PmuError), Ok(1), Ok(noon()));
    assert_eq!(f.connection.as_str(), "Error");
    assert_eq!(ConnectionLabel::Connected.as_str(), "Connected");
}

#[test]
fn clock_read_fails() {
    let f = sample(Ok(false), Ok(true), Ok(80), Err(DeviceError::RtcError));
    assert_eq!(f.time, None);
    assert_eq!(f.percentage, 80);
    let g = sample(Ok(false), Ok(true), Ok(80), Ok(noon()));
    assert_eq!(g.time, Some(noon()));
}
