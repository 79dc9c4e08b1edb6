use ec_su_axb35::curve::FanMode;
use ec_su_axb35::registers::{
    decode_fan_mode, decode_level, decode_rpm, encode_fan_mode, encode_level, fan_level_register,
    fan_mode_register, fan_speed_registers, PowerMode,
};
use ec_su_axb35::error::EcError;

#[test]
fn level_round_trip_for_every_fan_and_level() {
    for fan in 1u8..=3 {
        for level in 0u8..=5 {
            assert_eq!(decode_level(encode_level(fan, level)), level);
        }
    }
}

#[test]
fn level_bytes_follow_the_code_table() {
    assert_eq!(encode_level(1, 0), 0x17);
    assert_eq!(encode_level(1, 1), 0x12);
    assert_eq!(encode_level(2, 3), 0x24);
    assert_eq!(encode_level(3, 5), 0x36);
}

#[test]
fn unknown_level_codes_read_as_off() {
    for byte in [0x10u8, 0x11, 0x18, 0x1F, 0x00, 0xFF, 0x31, 0x08] {
        assert_eq!(decode_level(byte), 0);
    }
    assert_eq!(decode_level(0x22), 1);
    assert_eq!(decode_level(0xF6), 5);
}

#[test]
fn stalled_fan_three_reads_zero_rpm() {
    assert_eq!(decode_rpm(3, 0x1F, 0x40), 0);
    assert_eq!(decode_rpm(1, 0x1F, 0x40), 8000);
    assert_eq!(decode_rpm(3, 0x1F, 0x41), 8001);
    assert_eq!(decode_rpm(2, 0x0B, 0xB8), 3000);
}

#[test]
fn register_map_per_fan() {
    assert_eq!(fan_mode_register(1), Ok(0x21));
    assert_eq!(fan_mode_register(2), Ok(0x23));
    assert_eq!(fan_mode_register(3), Ok(0x25));
    assert_eq!(fan_level_register(2), Ok(0x24));
    assert_eq!(fan_speed_registers(3), Ok((0x28, 0x29)));
    assert_eq!(fan_mode_register(0), Err(EcError::InvalidFanId(0)));
    assert_eq!(fan_speed_registers(4), Err(EcError::InvalidFanId(4)));
}

#[test]
fn fan_mode_bytes() {
    assert_eq!(encode_fan_mode(1, FanMode::Auto), 0x10);
    assert_eq!(encode_fan_mode(2, FanMode::Fixed), 0x21);
    assert_eq!(encode_fan_mode(3, FanMode::Curve), 0x31);
    assert_eq!(decode_fan_mode(0x21, FanMode::Curve), Some(FanMode::Curve));
    assert_eq!(decode_fan_mode(0x21, FanMode::Auto), Some(FanMode::Fixed));
    assert_eq!(decode_fan_mode(0x30, FanMode::Curve), Some(FanMode::Auto));
    assert_eq!(decode_fan_mode(0x12, FanMode::Fixed), None);
}

#[test]
fn power_mode_names_and_codes() {
    assert_eq!(PowerMode::from_str("balanced"), Some(PowerMode::Balanced));
    assert_eq!(PowerMode::from_str("performance"), Some(PowerMode::Performance));
    assert_eq!(PowerMode::from_str("quiet"), Some(PowerMode::Quiet));
    assert_eq!(PowerMode::from_str("invalid"), None);
    assert_eq!(PowerMode::from_str("Quiet"), None);
    assert_eq!(PowerMode::Performance.code(), 1);
    assert_eq!(PowerMode::from_code(2), Some(PowerMode::Quiet));
    assert_eq!(PowerMode::from_code(3), None);
    assert_eq!(PowerMode::Balanced.as_str(), "balanced");
}

#[test]
fn fan_mode_names() {
    for m in [FanMode::Auto, FanMode::Fixed, FanMode::Curve] {
        assert_eq!(FanMode::from_str(m.as_str()), Some(m));
    }
    assert_eq!(FanMode::from_str("manual"), None);
    assert_eq!(FanMode::from_str(""), None);
}
