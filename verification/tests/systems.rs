use nds::system::{Battery, BatteryLevel};

#[test]
fn level_three_is_low() {
    let b = Battery::from_raw(0x03);
    assert_eq!(b.level(), BatteryLevel::Low);
}

#[test]
fn level_fifteen_is_high() {
    let b = Battery::from_raw(0x0F);
    assert_eq!(b.level(), BatteryLevel::High);
}

#[test]
fn other_levels_pass_through() {
    let b = Battery::from_raw(0x05);
    assert_eq!(b.level(), BatteryLevel::Level(5));
    let b = Battery::from_raw(0x00);
    assert_eq!(b.level(), BatteryLevel::Level(0));
}

#[test]
fn level_reads_only_the_low_nibble() {
    // Bit 7 set: still the same charge level.
    let b = Battery::from_raw(0x83);
    assert_eq!(b.level(), BatteryLevel::Low);
    let b = Battery::from_raw(0xF5);
    assert_eq!(b.level(), BatteryLevel::Level(5));
}

#[test]
fn external_power_is_bit_seven() {
    assert!(Battery::from_raw(0x80).external());
    assert!(Battery::from_raw(0x8F).external());
    assert!(!Battery::from_raw(0x0F).external());
    assert!(!Battery::from_raw(0x00).external());
}

#[test]
fn from_raw_keeps_only_the_low_byte() {
    let b = Battery::from_raw(0xABCD_0183);
    assert_eq!(b.level(), BatteryLevel::Low);
    assert!(b.external());
}
