//! Tests for the textual encoding of the three control-interface entries.

use charge_control::battery_handling::{
    parse_capacity, parse_charge_behaviour, parse_charging_status, render_charge_behaviour,
    render_charging_status, BatteryError, ChargeBehaviour, ChargingStatus,
};

#[test]
fn charge_behaviour_round_trips() {
    let variants = [
        ChargeBehaviour::Auto,
        ChargeBehaviour::InhibitCharge,
        ChargeBehaviour::ForceDischarge,
    ];
    for b in variants {
        let text = render_charge_behaviour(b);
        assert_eq!(parse_charge_behaviour(&text), Ok(b));
    }
}

#[test]
fn charging_status_round_trips() {
    let variants = [
        ChargingStatus::Charging,
        ChargingStatus::Discharging,
        ChargingStatus::NotCharging,
    ];
    for s in variants {
        let text = render_charging_status(s);
        assert_eq!(parse_charging_status(&text), Ok(s));
    }
}

#[test]
fn render_uses_interface_literals() {
    assert_eq!(render_charge_behaviour(ChargeBehaviour::Auto), b"auto".to_vec());
    assert_eq!(
        render_charge_behaviour(ChargeBehaviour::InhibitCharge),
        b"inhibit-charge".to_vec()
    );
    assert_eq!(
        render_charge_behaviour(ChargeBehaviour::ForceDischarge),
        b"force-discharge".to_vec()
    );
    assert_eq!(render_charging_status(ChargingStatus::Charging), b"Charging".to_vec());
    assert_eq!(render_charging_status(ChargingStatus::Discharging), b"Discharging".to_vec());
    assert_eq!(render_charging_status(ChargingStatus::NotCharging), b"Not charging".to_vec());
}

#[test]
fn parse_charge_behaviour_trims_whitespace() {
    assert_eq!(parse_charge_behaviour(&b"auto\n".to_vec()), Ok(ChargeBehaviour::Auto));
    assert_eq!(
        parse_charge_behaviour(&b"  inhibit-charge \r\n".to_vec()),
        Ok(ChargeBehaviour::InhibitCharge)
    );
    assert_eq!(
        parse_charge_behaviour(&b"force-discharge".to_vec()),
        Ok(ChargeBehaviour::ForceDischarge)
    );
}

#[test]
fn parse_charge_behaviour_rejects_unknown_text() {
    assert_eq!(
        parse_charge_behaviour(&b"bogus\n".to_vec()),
        Err(BatteryError::UnexpectedValue)
    );
    assert_eq!(
        parse_charge_behaviour(&b"AUTO\n".to_vec()),
        Err(BatteryError::UnexpectedValue)
    );
    assert_eq!(parse_charge_behaviour(&b"".to_vec()), Err(BatteryError::UnexpectedValue));
    assert_eq!(
        parse_charge_behaviour(&b"auto auto".to_vec()),
        Err(BatteryError::UnexpectedValue)
    );
}

#[test]
fn parse_charging_status_trims_whitespace() {
    assert_eq!(parse_charging_status(&b"Charging\n".to_vec()), Ok(ChargingStatus::Charging));
    assert_eq!(
        parse_charging_status(&b"Discharging\n".to_vec()),
        Ok(ChargingStatus::Discharging)
    );
    assert_eq!(
        parse_charging_status(&b"Not charging\n".to_vec()),
        Ok(ChargingStatus::NotCharging)
    );
}

#[test]
fn parse_charging_status_rejects_unknown_text() {
    assert_eq!(
        parse_charging_status(&b"Full\n".to_vec()),
        Err(BatteryError::UnexpectedValue)
    );
    assert_eq!(
        parse_charging_status(&b"charging\n".to_vec()),
        Err(BatteryError::UnexpectedValue)
    );
    // The inner space of "Not charging" must match exactly.
    assert_eq!(
        parse_charging_status(&b"Notcharging\n".to_vec()),
        Err(BatteryError::UnexpectedValue)
    );
}

#[test]
fn parse_capacity_reads_plain_integers() {
    assert_eq!(parse_capacity(&b"90\n".to_vec()), Ok(90));
    assert_eq!(parse_capacity(&b"0".to_vec()), Ok(0));
    assert_eq!(parse_capacity(&b"100\r\n".to_vec()), Ok(100));
    assert_eq!(parse_capacity(&b"007".to_vec()), Ok(7));
}

#[test]
fn parse_capacity_accepts_signs_and_out_of_range_percentages() {
    // The reader does not clamp: values outside 0..=100 propagate as-is.
    assert_eq!(parse_capacity(&b"-5\n".to_vec()), Ok(-5));
    assert_eq!(parse_capacity(&b"+7\n".to_vec()), Ok(7));
    assert_eq!(parse_capacity(&b"101\n".to_vec()), Ok(101));
}

#[test]
fn parse_capacity_handles_i32_limits() {
    assert_eq!(parse_capacity(&b"2147483647".to_vec()), Ok(2147483647));
    assert_eq!(parse_capacity(&b"2147483648".to_vec()), Err(BatteryError::NotAccessible));
    assert_eq!(parse_capacity(&b"-2147483648".to_vec()), Ok(-2147483648));
    assert_eq!(parse_capacity(&b"-2147483649".to_vec()), Err(BatteryError::NotAccessible));
    assert_eq!(
        parse_capacity(&b"99999999999999999999".to_vec()),
        Err(BatteryError::NotAccessible)
    );
}

#[test]
fn parse_capacity_rejects_malformed_text() {
    assert_eq!(parse_capacity(&b"N/A".to_vec()), Err(BatteryError::NotAccessible));
    assert_eq!(parse_capacity(&b"".to_vec()), Err(BatteryError::NotAccessible));
    assert_eq!(parse_capacity(&b"\n".to_vec()), Err(BatteryError::NotAccessible));
    assert_eq!(parse_capacity(&b"+".to_vec()), Err(BatteryError::NotAccessible));
    assert_eq!(parse_capacity(&b"-".to_vec()), Err(BatteryError::NotAccessible));
    assert_eq!(parse_capacity(&b"9 0".to_vec()), Err(BatteryError::NotAccessible));
    assert_eq!(parse_capacity(&b" 90".to_vec()), Err(BatteryError::NotAccessible));
    assert_eq!(parse_capacity(&b"90%".to_vec()), Err(BatteryError::NotAccessible));
    assert_eq!(parse_capacity(&b"4.5".to_vec()), Err(BatteryError::NotAccessible));
}
