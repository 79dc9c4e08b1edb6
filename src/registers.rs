//! The register map of the embedded controller and the byte encodings of
//! each field.
use vstd::prelude::*;
use crate::error::EcError;
use crate::curve::FanMode;
use crate::text::same_text;

verus! {

/// Command and status port of the controller.
pub const COMMAND_PORT: u16 = 0x66;
/// Data port of the controller.
pub const DATA_PORT: u16 = 0x62;
/// Command byte that starts a register read.
pub const READ_COMMAND: u8 = 0x80;
/// Command byte that starts a register write.
pub const WRITE_COMMAND: u8 = 0x81;
/// Status bit: the controller has a byte waiting on the data port.
pub const OUTPUT_BUFFER_FULL: u8 = 0x01;
/// Status bit: the controller has not yet taken the last byte written.
pub const INPUT_BUFFER_FULL: u8 = 0x02;

pub const REG_FIRMWARE_MAJOR: u8 = 0x00;
pub const REG_FIRMWARE_MINOR: u8 = 0x01;
pub const REG_APU_POWER_MODE: u8 = 0x31;
pub const REG_APU_TEMPERATURE: u8 = 0x70;

pub const REG_FAN1_SPEED_HIGH: u8 = 0x35;
pub const REG_FAN1_SPEED_LOW: u8 = 0x36;
pub const REG_FAN1_MODE: u8 = 0x21;
pub const REG_FAN2_SPEED_HIGH: u8 = 0x37;
pub const REG_FAN2_SPEED_LOW: u8 = 0x38;
pub const REG_FAN2_MODE: u8 = 0x23;
pub const REG_FAN3_SPEED_HIGH: u8 = 0x28;
pub const REG_FAN3_SPEED_LOW: u8 = 0x29;
pub const REG_FAN3_MODE: u8 = 0x25;

/// The fan whose speed registers read exactly this value while it stands still.
pub const STALLED_REPORT_FAN: u8 = 3;
/// The speed that fan reports while it stands still.
pub const STALLED_REPORT_RPM: u16 = 8000;

/// The highest fan level.
pub const MAX_LEVEL: u8 = 5;

pub open spec fn valid_fan(fan_id: u8) -> bool {
    1 <= fan_id <= 3
}

/// The base value of a fan's mode and level bytes.
pub open spec fn fan_base(fan_id: u8) -> u8 {
    if fan_id == 1 {
        0x10
    } else if fan_id == 2 {
        0x20
    } else {
        0x30
    }
}

pub open spec fn mode_register(fan_id: u8) -> u8 {
    if fan_id == 1 {
        REG_FAN1_MODE
    } else if fan_id == 2 {
        REG_FAN2_MODE
    } else {
        REG_FAN3_MODE
    }
}

/// The level register always follows the mode register.
pub open spec fn level_register(fan_id: u8) -> u8 {
    (mode_register(fan_id) + 1) as u8
}

/// The high and low speed registers of a fan.
pub open spec fn speed_registers(fan_id: u8) -> (u8, u8) {
    if fan_id == 1 {
        (REG_FAN1_SPEED_HIGH, REG_FAN1_SPEED_LOW)
    } else if fan_id == 2 {
        (REG_FAN2_SPEED_HIGH, REG_FAN2_SPEED_LOW)
    } else {
        (REG_FAN3_SPEED_HIGH, REG_FAN3_SPEED_LOW)
    }
}

/// The low nibble that stands for each level: off, 20%, 40%, 60%, 80%, 100%.
pub open spec fn level_code(level: u8) -> u8 {
    if level == 0 {
        0x7
    } else if level == 1 {
        0x2
    } else if level == 2 {
        0x3
    } else if level == 3 {
        0x4
    } else if level == 4 {
        0x5
    } else {
        0x6
    }
}

/// The byte written to a fan's level register for a level.
pub open spec fn level_byte(fan_id: u8, level: u8) -> u8 {
    (fan_base(fan_id) + level_code(level)) as u8
}

/// The level that a level register byte stands for; a code outside the
/// mapping reads as off.
pub open spec fn level_of_byte(byte: u8) -> u8 {
    let code = byte % 16;
    if code == 0x7 {
        0
    } else if code == 0x2 {
        1
    } else if code == 0x3 {
        2
    } else if code == 0x4 {
        3
    } else if code == 0x5 {
        4
    } else if code == 0x6 {
        5
    } else {
        0
    }
}

pub open spec fn is_level_code(code: u8) -> bool {
    2 <= code <= 7
}

/// The speed of a fan from its two speed register bytes, with the stalled
/// report of the one fan that has it read as zero.
pub open spec fn rpm_of(fan_id: u8, high: u8, low: u8) -> u16 {
    let raw = high * 256 + low;
    if fan_id == STALLED_REPORT_FAN && raw == STALLED_REPORT_RPM {
        0
    } else {
        raw as u16
    }
}

pub fn check_fan(fan_id: u8) -> (r: Result<(), EcError>)
    ensures
        r is Ok <==> valid_fan(fan_id),
        r is Err ==> r == Err::<(), EcError>(EcError::InvalidFanId(fan_id)),
{
    if 1 <= fan_id && fan_id <= 3 {
        Ok(())
    } else {
        Err(EcError::InvalidFanId(fan_id))
    }
}

/// The mode register of a fan.
pub fn fan_mode_register(fan_id: u8) -> (r: Result<u8, EcError>)
    ensures
        valid_fan(fan_id) ==> r == Ok::<u8, EcError>(mode_register(fan_id)),
        !valid_fan(fan_id) ==> r == Err::<u8, EcError>(EcError::InvalidFanId(fan_id)),
{
    match fan_id {
        1 => Ok(REG_FAN1_MODE),
        2 => Ok(REG_FAN2_MODE),
        3 => Ok(REG_FAN3_MODE),
        _ => Err(EcError::InvalidFanId(fan_id)),
    }
}

/// The level register of a fan, the one after its mode register.
pub fn fan_level_register(fan_id: u8) -> (r: Result<u8, EcError>)
    ensures
        valid_fan(fan_id) ==> r == Ok::<u8, EcError>(level_register(fan_id)),
        !valid_fan(fan_id) ==> r == Err::<u8, EcError>(EcError::InvalidFanId(fan_id)),
{
    let mode_reg = fan_mode_register(fan_id)?;
    Ok(mode_reg + 1)
}

/// The high and low speed registers of a fan.
pub fn fan_speed_registers(fan_id: u8) -> (r: Result<(u8, u8), EcError>)
    ensures
        valid_fan(fan_id) ==> r == Ok::<(u8, u8), EcError>(speed_registers(fan_id)),
        !valid_fan(fan_id) ==> r == Err::<(u8, u8), EcError>(EcError::InvalidFanId(fan_id)),
{
    match fan_id {
        1 => Ok((REG_FAN1_SPEED_HIGH, REG_FAN1_SPEED_LOW)),
        2 => Ok((REG_FAN2_SPEED_HIGH, REG_FAN2_SPEED_LOW)),
        3 => Ok((REG_FAN3_SPEED_HIGH, REG_FAN3_SPEED_LOW)),
        _ => Err(EcError::InvalidFanId(fan_id)),
    }
}

/// The base value of a fan's mode and level bytes.
pub fn fan_base_value(fan_id: u8) -> (r: u8)
    requires
        valid_fan(fan_id),
    ensures
        r == fan_base(fan_id),
{
    if fan_id == 1 {
        0x10
    } else if fan_id == 2 {
        0x20
    } else {
        0x30
    }
}

/// The byte that sets a fan to a level.
pub fn encode_level(fan_id: u8, level: u8) -> (r: u8)
    requires
        valid_fan(fan_id),
        level <= MAX_LEVEL,
    ensures
        r == level_byte(fan_id, level),
{
    let code: u8 = match level {
        0 => 0x7,
        1 => 0x2,
        2 => 0x3,
        3 => 0x4,
        4 => 0x5,
        _ => 0x6,
    };
    fan_base_value(fan_id) + code
}

/// The level a level register byte stands for. Only the low nibble counts,
/// and a nibble outside the mapping reads as off: reading a level never fails.
pub fn decode_level(byte: u8) -> (r: u8)
    ensures
        r == level_of_byte(byte),
        r <= MAX_LEVEL,
        !is_level_code(byte % 16) ==> r == 0,
{
    let code = byte & 0x0F;
    assert(byte & 0x0F == byte % 16) by (bit_vector);
    match code {
        0x7 => 0,
        0x2 => 1,
        0x3 => 2,
        0x4 => 3,
        0x5 => 4,
        0x6 => 5,
        _ => 0,
    }
}

/// The speed of a fan from its high and low speed register bytes.
pub fn decode_rpm(fan_id: u8, high: u8, low: u8) -> (r: u16)
    ensures
        r == rpm_of(fan_id, high, low),
{
    let rpm: u16 = ((high as u16) << 8u16) | (low as u16);
    assert(((high as u16) << 8u16) | (low as u16) == (high as u16) * 256 + (low as u16))
        by (bit_vector);
    if fan_id == STALLED_REPORT_FAN && rpm == STALLED_REPORT_RPM {
        0
    } else {
        rpm
    }
}

/// The power mode of the APU, as held by its power mode register.
#[derive(Clone, Copy, Debug, PartialEq, Eq, Structural)]
pub enum PowerMode {
    Balanced,
    Performance,
    Quiet,
}

/// The power mode a name stands for.
pub open spec fn power_mode_named(s: Seq<char>) -> Option<PowerMode> {
    if s == "balanced"@ {
        Some(PowerMode::Balanced)
    } else if s == "performance"@ {
        Some(PowerMode::Performance)
    } else if s == "quiet"@ {
        Some(PowerMode::Quiet)
    } else {
        None
    }
}

/// The power mode a register byte stands for; other bytes stand for none.
pub open spec fn power_mode_of_byte(byte: u8) -> Option<PowerMode> {
    if byte == 0 {
        Some(PowerMode::Balanced)
    } else if byte == 1 {
        Some(PowerMode::Performance)
    } else if byte == 2 {
        Some(PowerMode::Quiet)
    } else {
        None
    }
}

impl PowerMode {
    pub open spec fn name(self) -> Seq<char> {
        match self {
            PowerMode::Balanced => "balanced"@,
            PowerMode::Performance => "performance"@,
            PowerMode::Quiet => "quiet"@,
        }
    }

    pub open spec fn spec_code(&self) -> u8 {
        match self {
            PowerMode::Balanced => 0,
            PowerMode::Performance => 1,
            PowerMode::Quiet => 2,
        }
    }

    /// The name of the mode.
    pub fn as_str(&self) -> (r: &'static str)
        ensures
            r@ == self.name(),
    {
        match self {
            PowerMode::Balanced => "balanced",
            PowerMode::Performance => "performance",
            PowerMode::Quiet => "quiet",
        }
    }

    /// The mode a name stands for, if any.
    pub fn from_str(s: &str) -> (r: Option<PowerMode>)
        ensures
            r == power_mode_named(s@),
    {
        if same_text(s, "balanced") {
            Some(PowerMode::Balanced)
        } else if same_text(s, "performance") {
            Some(PowerMode::Performance)
        } else if same_text(s, "quiet") {
            Some(PowerMode::Quiet)
        } else {
            None
        }
    }

    /// The byte the power mode register holds in this mode.
    #[verifier::when_used_as_spec(spec_code)]
    pub fn code(&self) -> (r: u8)
        ensures
            r == self.spec_code(),
    {
        match self {
            PowerMode::Balanced => 0,
            PowerMode::Performance => 1,
            PowerMode::Quiet => 2,
        }
    }

    /// The mode a power mode register byte stands for, if any.
    pub fn from_code(byte: u8) -> (r: Option<PowerMode>)
        ensures
            r == power_mode_of_byte(byte),
    {
        match byte {
            0 => Some(PowerMode::Balanced),
            1 => Some(PowerMode::Performance),
            2 => Some(PowerMode::Quiet),
            _ => None,
        }
    }
}

/// Writing a power mode and reading the register back gives the same mode.
pub proof fn lemma_power_mode_round_trip(m: PowerMode)
    ensures
        power_mode_of_byte(m.spec_code()) == Some(m),
{
}

/// The byte a fan's mode register holds in a mode: the fan's base for
/// automatic control, one above it for both fixed and curve control.
pub open spec fn mode_byte(fan_id: u8, mode: FanMode) -> u8 {
    match mode {
        FanMode::Auto => fan_base(fan_id),
        _ => (fan_base(fan_id) + 1) as u8,
    }
}

/// The mode a mode register byte stands for. The chip does not tell fixed
/// from curve control apart, so that choice comes from the mode held in
/// software.
pub open spec fn fan_mode_of_byte(byte: u8, held: FanMode) -> Option<FanMode> {
    if byte == 0x10 || byte == 0x20 || byte == 0x30 {
        Some(FanMode::Auto)
    } else if byte == 0x11 || byte == 0x21 || byte == 0x31 {
        if held == FanMode::Curve {
            Some(FanMode::Curve)
        } else {
            Some(FanMode::Fixed)
        }
    } else {
        None
    }
}

/// The byte that puts a fan in a mode.
pub fn encode_fan_mode(fan_id: u8, mode: FanMode) -> (r: u8)
    requires
        valid_fan(fan_id),
    ensures
        r == mode_byte(fan_id, mode),
{
    let base = fan_base_value(fan_id);
    match mode {
        FanMode::Auto => base,
        _ => base + 1,
    }
}

/// The mode a fan's mode register byte stands for, given the mode held in
/// software; `None` for a byte outside the mapping.
pub fn decode_fan_mode(byte: u8, held: FanMode) -> (r: Option<FanMode>)
    ensures
        r == fan_mode_of_byte(byte, held),
{
    match byte {
        0x10 | 0x20 | 0x30 => Some(FanMode::Auto),
        0x11 | 0x21 | 0x31 => {
            if held == FanMode::Curve {
                Some(FanMode::Curve)
            } else {
                Some(FanMode::Fixed)
            }
        },
        _ => None,
    }
}

/// The mode written for a fan reads back as that mode, provided the mode
/// held in software is the one written.
pub proof fn lemma_fan_mode_byte_round_trip(fan_id: u8, mode: FanMode)
    requires
        valid_fan(fan_id),
    ensures
        fan_mode_of_byte(mode_byte(fan_id, mode), mode) == Some(mode),
{
}

/// Encoding and decoding a level agree: the level byte written for any fan
/// reads back as the level it was written for.
pub proof fn lemma_level_round_trip(fan_id: u8, level: u8)
    requires
        valid_fan(fan_id),
        level <= MAX_LEVEL,
    ensures
        level_of_byte(level_byte(fan_id, level)) == level,
{
}

/// Reading a level is lenient: a byte whose low nibble is no level code
/// reads as off, never as an error.
pub proof fn lemma_unknown_level_code_reads_off(byte: u8)
    requires
        !is_level_code(byte % 16),
    ensures
        level_of_byte(byte) == 0,
{
}

} // verus!
