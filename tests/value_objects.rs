use switchbot_cli_tool::ac::{AcFanSpeed, AcMode, AcPowerState, AcValues};
use switchbot_cli_tool::error::ValidationError;
use switchbot_cli_tool::value_objects::{BrightnessValue, ColorTemperatureValue, ColorValues};

#[test]
fn brightness_rejects_values_outside_range() {
    for v in [0u8, 101, 150, 255] {
        assert_eq!(
            BrightnessValue::try_from(v).unwrap_err(),
            ValidationError::OutOfRange { min: 1, max: 100 }
        );
    }
}

#[test]
fn brightness_accepts_range_unchanged() {
    for v in 1u8..=100 {
        assert_eq!(BrightnessValue::try_from(v).unwrap().get(), v);
    }
}

#[test]
fn color_temperature_bounds() {
    assert!(ColorTemperatureValue::try_from(2699).is_err());
    assert!(ColorTemperatureValue::try_from(6501).is_err());
    assert!(ColorTemperatureValue::try_from(0).is_err());
    assert!(ColorTemperatureValue::try_from(u16::MAX).is_err());
    assert_eq!(ColorTemperatureValue::try_from(2700).unwrap().get(), 2700);
    assert_eq!(ColorTemperatureValue::try_from(6500).unwrap().get(), 6500);
    assert_eq!(ColorTemperatureValue::try_from(4000).unwrap().get(), 4000);
    assert_eq!(
        ColorTemperatureValue::try_from(6501).unwrap_err(),
        ValidationError::OutOfRange { min: 2700, max: 6500 }
    );
}

#[test]
fn color_values_round_trip() {
    for t in [(0u8, 0u8, 0u8), (255, 255, 255), (12, 200, 99)] {
        let c = ColorValues::try_from(t).unwrap();
        assert_eq!(c.get(), t);
        assert_eq!((c.get_r(), c.get_g(), c.get_b()), t);
    }
}

#[test]
fn ac_mode_round_trip_and_codes() {
    for m in [AcMode::AUTO, AcMode::COOL, AcMode::DRY, AcMode::FAN, AcMode::HEAT] {
        assert_eq!(AcMode::parse(m.as_str()).unwrap(), m);
        assert_eq!(AcMode::parse(m.as_str()).unwrap().as_str(), m.as_str());
        assert_eq!(AcMode::from_code(m.code()), Some(m));
    }
    assert_eq!(AcMode::COOL.as_str(), "cool");
    assert_eq!(AcMode::HEAT.code(), 5);
    assert_eq!(AcMode::parse("COOL").unwrap(), AcMode::COOL);
    assert_eq!(AcMode::parse("Heat").unwrap(), AcMode::HEAT);
    assert_eq!(AcMode::parse("3").unwrap(), AcMode::DRY);
    assert_eq!(AcMode::parse("warm").unwrap_err(), ValidationError::UnknownMode);
    assert_eq!(AcMode::parse("6").unwrap_err(), ValidationError::UnknownMode);
    assert_eq!(AcMode::parse("").unwrap_err(), ValidationError::UnknownMode);
    assert_eq!(AcMode::from_code(0), None);
}

#[test]
fn ac_fan_speed_round_trip_and_codes() {
    for f in [AcFanSpeed::AUTO, AcFanSpeed::LOW, AcFanSpeed::MEDIUM, AcFanSpeed::HIGH] {
        assert_eq!(AcFanSpeed::parse(f.as_str()).unwrap(), f);
        assert_eq!(AcFanSpeed::from_code(f.code()), Some(f));
    }
    assert_eq!(AcFanSpeed::parse("MEDIUM").unwrap(), AcFanSpeed::MEDIUM);
    assert_eq!(AcFanSpeed::parse("4").unwrap(), AcFanSpeed::HIGH);
    assert_eq!(AcFanSpeed::parse("turbo").unwrap_err(), ValidationError::UnknownFanSpeed);
    assert_eq!(AcFanSpeed::from_code(5), None);
}

#[test]
fn ac_power_state_round_trip_and_codes() {
    assert_eq!(AcPowerState::parse("on").unwrap(), AcPowerState::ON);
    assert_eq!(AcPowerState::parse("OFF").unwrap(), AcPowerState::OFF);
    assert_eq!(AcPowerState::parse("1").unwrap(), AcPowerState::ON);
    assert_eq!(AcPowerState::parse("0").unwrap(), AcPowerState::OFF);
    assert_eq!(AcPowerState::ON.as_str(), "on");
    assert_eq!(AcPowerState::OFF.as_str(), "off");
    assert_eq!(AcPowerState::parse("yes").unwrap_err(), ValidationError::UnknownPowerState);
    assert_eq!(AcPowerState::from_code(1), Some(AcPowerState::ON));
    assert_eq!(AcPowerState::from_code(2), None);
}

#[test]
fn ac_values_hold_their_fields() {
    let v = AcValues::new(25, AcMode::COOL, AcFanSpeed::LOW, AcPowerState::ON);
    assert_eq!(v.temperature, 25);
    assert_eq!(v.mode, AcMode::COOL);
    assert_eq!(v.fan_speed, AcFanSpeed::LOW);
    assert_eq!(v.power_state, AcPowerState::ON);
}
