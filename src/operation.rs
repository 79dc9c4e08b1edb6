//! The operations on the embedded controller and how each one runs: which
//! registers it reads and writes, in which order, and what it makes of the
//! bytes that come back.
//!
//! An operation is first checked and applied to the software-held fan state
//! (`EcController::start`); it then asks for one register access at a time
//! (`EcController::next_step`) until it is finished. Whoever owns the
//! hardware performs each access and records its reply in the run.
use vstd::prelude::*;
use crate::error::EcError;
use crate::curve::{
    FanMode, FanCurveData, fan_mode_named, valid_curve, check_curve, start_level,
    initial_level, default_rampup, default_rampdown,
};
use crate::registers::{
    PowerMode, power_mode_named, power_mode_of_byte, valid_fan, mode_register, level_register,
    speed_registers, mode_byte, fan_mode_of_byte, level_byte, level_of_byte, rpm_of, MAX_LEVEL,
    REG_FIRMWARE_MAJOR, REG_FIRMWARE_MINOR, REG_APU_POWER_MODE, REG_APU_TEMPERATURE, check_fan,
    fan_mode_register, fan_level_register, fan_speed_registers, encode_fan_mode, decode_fan_mode,
    encode_level, decode_level, decode_rpm,
};

verus! {

/// A request to the embedded controller.
#[derive(Clone, Debug)]
pub enum EcOperation {
    GetFirmwareVersion,
    GetApuPowerMode,
    SetApuPowerMode(String),
    GetApuTemperature,
    GetFanRpm(u8),
    GetFanMode(u8),
    SetFanMode(u8, String),
    GetFanLevel(u8),
    SetFanLevel(u8, u8),
    GetFanRampupCurve(u8),
    SetFanRampupCurve(u8, [u8; 5]),
    GetFanRampdownCurve(u8),
    SetFanRampdownCurve(u8, [u8; 5]),
}

/// The value an operation produced.
#[derive(Clone, Copy, Debug)]
pub enum EcResult {
    FirmwareVersion { major: u8, minor: u8 },
    ApuPowerMode(PowerMode),
    ApuTemperature(u8),
    FanRpm(u16),
    FanMode(FanMode),
    FanLevel(u8),
    FanRampupCurve([u8; 5]),
    FanRampdownCurve([u8; 5]),
}

/// One register access: read a register, or write a byte to it.
#[derive(Clone, Copy, Debug, PartialEq, Eq, Structural)]
pub enum RegisterAccess {
    Read(u8),
    Write(u8, u8),
}

/// How a register access ended: the byte read, the write done, or a failure
/// of the handshake after all its retries.
#[derive(Clone, Copy, Debug, PartialEq, Eq, Structural)]
pub enum RegisterReply {
    Value(u8),
    Written,
    Failed,
}

/// What a running operation needs next.
#[derive(Clone, Copy, Debug)]
pub enum OperationStep {
    /// This register access must be performed and its reply recorded.
    Access(RegisterAccess),
    /// The operation is over, with this outcome.
    Finished(Result<EcResult, EcError>),
}

/// Checks an operation's input, before any hardware access. For a fan level
/// the level is checked before the fan; for a fan mode or a curve the fan is
/// checked first.
pub open spec fn check_operation(op: EcOperation) -> Result<(), EcError> {
    match op {
        EcOperation::SetApuPowerMode(m) => if power_mode_named(m@) is Some {
            Ok(())
        } else {
            Err(EcError::InvalidPowerMode)
        },
        EcOperation::GetFanRpm(f) => fan_check(f),
        EcOperation::GetFanMode(f) => fan_check(f),
        EcOperation::GetFanLevel(f) => fan_check(f),
        EcOperation::GetFanRampupCurve(f) => fan_check(f),
        EcOperation::GetFanRampdownCurve(f) => fan_check(f),
        EcOperation::SetFanMode(f, m) => if !valid_fan(f) {
            Err(EcError::InvalidFanId(f))
        } else if fan_mode_named(m@) is None {
            Err(EcError::InvalidFanMode)
        } else {
            Ok(())
        },
        EcOperation::SetFanLevel(f, l) => if l > MAX_LEVEL {
            Err(EcError::InvalidFanLevel(l))
        } else {
            fan_check(f)
        },
        EcOperation::SetFanRampupCurve(f, c) => curve_check(f, c@),
        EcOperation::SetFanRampdownCurve(f, c) => curve_check(f, c@),
        _ => Ok(()),
    }
}

pub open spec fn fan_check(f: u8) -> Result<(), EcError> {
    if valid_fan(f) {
        Ok(())
    } else {
        Err(EcError::InvalidFanId(f))
    }
}

pub open spec fn curve_check(f: u8, c: Seq<u8>) -> Result<(), EcError> {
    if !valid_fan(f) {
        Err(EcError::InvalidFanId(f))
    } else if !valid_curve(c) {
        Err(EcError::InvalidCurveValue)
    } else {
        Ok(())
    }
}

/// The software-held fan state after an operation was accepted: a mode
/// change is held before the hardware is written, and curves exist only here.
pub open spec fn fans_after(fans: Seq<FanCurveData>, op: EcOperation) -> Seq<FanCurveData> {
    match op {
        EcOperation::SetFanMode(f, m) => fans.update(
            f - 1,
            FanCurveData { mode: fan_mode_named(m@).unwrap(), ..fans[f - 1] },
        ),
        EcOperation::SetFanRampupCurve(f, c) => fans.update(
            f - 1,
            FanCurveData { rampup_curve: c, ..fans[f - 1] },
        ),
        EcOperation::SetFanRampdownCurve(f, c) => fans.update(
            f - 1,
            FanCurveData { rampdown_curve: c, ..fans[f - 1] },
        ),
        _ => fans,
    }
}

/// The byte a reply carries, if it is the reply to a successful read.
pub open spec fn read_value(rs: Seq<RegisterReply>, i: int) -> Option<u8> {
    match rs[i] {
        RegisterReply::Value(v) => Some(v),
        _ => None,
    }
}

/// The firmware version from its two bytes; all zeros or all ones mean that
/// no firmware answered.
pub open spec fn firmware_outcome(major: u8, minor: u8) -> Result<EcResult, EcError> {
    if (major == 0 && minor == 0) || (major == 0xFF && minor == 0xFF) {
        Err(EcError::NoFirmware { major, minor })
    } else {
        Ok(EcResult::FirmwareVersion { major, minor })
    }
}

/// A one-register read that ends the operation with `done` applied to the byte.
pub open spec fn single_read(
    reg: u8,
    rs: Seq<RegisterReply>,
    done: spec_fn(u8) -> Result<EcResult, EcError>,
) -> OperationStep {
    if rs.len() == 0 {
        OperationStep::Access(RegisterAccess::Read(reg))
    } else if read_value(rs, 0) is None {
        OperationStep::Finished(Err(EcError::ReadFailed))
    } else {
        OperationStep::Finished(done(read_value(rs, 0).unwrap()))
    }
}

/// Two reads in turn that end the operation with `done` applied to both bytes.
pub open spec fn double_read(
    first: u8,
    second: u8,
    rs: Seq<RegisterReply>,
    done: spec_fn(u8, u8) -> Result<EcResult, EcError>,
) -> OperationStep {
    if rs.len() == 0 {
        OperationStep::Access(RegisterAccess::Read(first))
    } else if read_value(rs, 0) is None {
        OperationStep::Finished(Err(EcError::ReadFailed))
    } else if rs.len() == 1 {
        OperationStep::Access(RegisterAccess::Read(second))
    } else if read_value(rs, 1) is None {
        OperationStep::Finished(Err(EcError::ReadFailed))
    } else {
        OperationStep::Finished(done(read_value(rs, 0).unwrap(), read_value(rs, 1).unwrap()))
    }
}

/// One write that ends the operation with `result` once done.
pub open spec fn single_write(reg: u8, value: u8, rs: Seq<RegisterReply>, result: EcResult) -> OperationStep {
    if rs.len() == 0 {
        OperationStep::Access(RegisterAccess::Write(reg, value))
    } else if rs[0] == RegisterReply::Written {
        OperationStep::Finished(Ok(result))
    } else {
        OperationStep::Finished(Err(EcError::WriteFailed))
    }
}

/// Setting a fan's mode: write the mode byte; entering curve mode then reads
/// the temperature and, if that read succeeds, writes the start level that
/// the fan's step-up curve gives for it.
pub open spec fn set_mode_step(fans: Seq<FanCurveData>, f: u8, m: FanMode, rs: Seq<RegisterReply>) -> OperationStep {
    if rs.len() == 0 {
        OperationStep::Access(RegisterAccess::Write(mode_register(f), mode_byte(f, m)))
    } else if rs[0] != RegisterReply::Written {
        OperationStep::Finished(Err(EcError::WriteFailed))
    } else if m != FanMode::Curve {
        OperationStep::Finished(Ok(EcResult::FanMode(m)))
    } else if rs.len() == 1 {
        OperationStep::Access(RegisterAccess::Read(REG_APU_TEMPERATURE))
    } else if read_value(rs, 1) is None {
        OperationStep::Finished(Ok(EcResult::FanMode(m)))
    } else if rs.len() == 2 {
        OperationStep::Access(
            RegisterAccess::Write(
                level_register(f),
                level_byte(f, start_level(read_value(rs, 1).unwrap(), fans[f - 1].rampup_curve@)),
            ),
        )
    } else if rs[2] == RegisterReply::Written {
        OperationStep::Finished(Ok(EcResult::FanMode(m)))
    } else {
        OperationStep::Finished(Err(EcError::WriteFailed))
    }
}

/// The next step of an accepted operation, given the fan state after it was
/// accepted and the replies to the accesses it asked for so far.
pub open spec fn operation_step(fans: Seq<FanCurveData>, op: EcOperation, rs: Seq<RegisterReply>) -> OperationStep {
    match op {
        EcOperation::GetFirmwareVersion => double_read(
            REG_FIRMWARE_MAJOR,
            REG_FIRMWARE_MINOR,
            rs,
            |a: u8, b: u8| firmware_outcome(a, b),
        ),
        EcOperation::GetApuPowerMode => single_read(
            REG_APU_POWER_MODE,
            rs,
            |b: u8|
                match power_mode_of_byte(b) {
                    Some(pm) => Ok(EcResult::ApuPowerMode(pm)),
                    None => Err(EcError::UnknownPowerMode(b)),
                },
        ),
        EcOperation::SetApuPowerMode(m) => {
            let pm = power_mode_named(m@).unwrap();
            single_write(REG_APU_POWER_MODE, pm.spec_code(), rs, EcResult::ApuPowerMode(pm))
        },
        EcOperation::GetApuTemperature => single_read(
            REG_APU_TEMPERATURE,
            rs,
            |b: u8| Ok(EcResult::ApuTemperature(b)),
        ),
        EcOperation::GetFanRpm(f) => double_read(
            speed_registers(f).0,
            speed_registers(f).1,
            rs,
            |h: u8, l: u8| Ok(EcResult::FanRpm(rpm_of(f, h, l))),
        ),
        EcOperation::GetFanMode(f) => single_read(
            mode_register(f),
            rs,
            |b: u8|
                match fan_mode_of_byte(b, fans[f - 1].mode) {
                    Some(m) => Ok(EcResult::FanMode(m)),
                    None => Err(EcError::UnknownFanMode(b)),
                },
        ),
        EcOperation::SetFanMode(f, m) => set_mode_step(fans, f, fan_mode_named(m@).unwrap(), rs),
        EcOperation::GetFanLevel(f) => single_read(
            level_register(f),
            rs,
            |b: u8| Ok(EcResult::FanLevel(level_of_byte(b))),
        ),
        EcOperation::SetFanLevel(f, l) => single_write(
            level_register(f),
            level_byte(f, l),
            rs,
            EcResult::FanLevel(l),
        ),
        EcOperation::GetFanRampupCurve(f) => OperationStep::Finished(
            Ok(EcResult::FanRampupCurve(fans[f - 1].rampup_curve)),
        ),
        EcOperation::SetFanRampupCurve(_, c) => OperationStep::Finished(Ok(EcResult::FanRampupCurve(c))),
        EcOperation::GetFanRampdownCurve(f) => OperationStep::Finished(
            Ok(EcResult::FanRampdownCurve(fans[f - 1].rampdown_curve)),
        ),
        EcOperation::SetFanRampdownCurve(_, c) => OperationStep::Finished(
            Ok(EcResult::FanRampdownCurve(c)),
        ),
    }
}

/// An accepted operation in progress: the operation and the replies to the
/// register accesses it has asked for so far.
pub struct OperationRun {
    op: EcOperation,
    replies: Vec<RegisterReply>,
}

impl OperationRun {
    pub closed spec fn operation(&self) -> EcOperation {
        self.op
    }

    pub closed spec fn replies(&self) -> Seq<RegisterReply> {
        self.replies@
    }

    /// Records the reply to the access the operation asked for last.
    pub fn record(&mut self, reply: RegisterReply)
        ensures
            final(self).operation() == old(self).operation(),
            final(self).replies() == old(self).replies().push(reply),
    {
        self.replies.push(reply);
    }

    /// The operation being run.
    pub fn op(&self) -> (r: &EcOperation)
        ensures
            *r == self.operation(),
    {
        &self.op
    }
}

/// The software half of the controller: the curve configuration of the three
/// fans, which the hardware cannot hold.
pub struct EcController {
    fans: [FanCurveData; 3],
}

impl View for EcController {
    type V = Seq<FanCurveData>;

    /// The configuration of fan `f` is at index `f - 1`.
    closed spec fn view(&self) -> Seq<FanCurveData> {
        self.fans@
    }
}

impl EcController {
    /// A controller with the factory configuration of each fan, all in
    /// automatic mode.
    pub fn new() -> (r: EcController)
        ensures
            r@.len() == 3,
            forall|i: int|
                0 <= i < 3 ==> (#[trigger] r@[i]).mode == FanMode::Auto
                    && r@[i].rampup_curve@ == default_rampup((i + 1) as u8)
                    && r@[i].rampdown_curve@ == default_rampdown((i + 1) as u8),
    {
        let r = EcController {
            fans: [FanCurveData::factory(1), FanCurveData::factory(2), FanCurveData::factory(3)],
        };
        assert(r@[0] == r.fans[0]);
        r
    }

    /// A copy of the configuration of all three fans.
    pub fn curves(&self) -> (r: [FanCurveData; 3])
        ensures
            r@ == self@,
    {
        self.fans
    }

    /// The configuration held for a fan.
    pub fn fan(&self, fan_id: u8) -> (r: FanCurveData)
        requires
            valid_fan(fan_id),
        ensures
            r == self@[fan_id - 1],
    {
        self.fans[(fan_id - 1) as usize]
    }

    /// Whether any fan is under curve control.
    pub fn has_curve_fans(&self) -> (r: bool)
        ensures
            r == exists|i: int| 0 <= i < 3 && (#[trigger] self@[i]).mode == FanMode::Curve,
    {
        self.fans[0].mode == FanMode::Curve || self.fans[1].mode == FanMode::Curve
            || self.fans[2].mode == FanMode::Curve
    }

    /// Accepts an operation: checks its input, applies it to the fan state
    /// held in software, and returns the run that carries it out. A rejected
    /// operation changes nothing and touches no register.
    pub fn start(&mut self, op: EcOperation) -> (r: Result<OperationRun, EcError>)
        ensures
            final(self)@.len() == 3,
            match check_operation(op) {
                Ok(_) => r is Ok && r.unwrap().operation() == op && r.unwrap().replies() == Seq::<
                    RegisterReply,
                >::empty() && final(self)@ == fans_after(old(self)@, op),
                Err(e) => r == Err::<OperationRun, EcError>(e) && final(self)@ == old(self)@,
            },
    {
        match &op {
            EcOperation::SetApuPowerMode(m) => {
                if PowerMode::from_str(m.as_str()).is_none() {
                    return Err(EcError::InvalidPowerMode);
                }
            },
            EcOperation::GetFanRpm(f) | EcOperation::GetFanMode(f) | EcOperation::GetFanLevel(f)
            | EcOperation::GetFanRampupCurve(f) | EcOperation::GetFanRampdownCurve(f) => {
                check_fan(*f)?;
            },
            EcOperation::SetFanMode(f, m) => {
                check_fan(*f)?;
                match FanMode::from_str(m.as_str()) {
                    Some(mode) => {
                        let i = (*f - 1) as usize;
                        let mut data = self.fans[i];
                        data.mode = mode;
                        self.fans.set(i, data);
                        assert(self@ =~= fans_after(old(self)@, op));
                    },
                    None => {
                        return Err(EcError::InvalidFanMode);
                    },
                }
            },
            EcOperation::SetFanLevel(f, l) => {
                if *l > MAX_LEVEL {
                    return Err(EcError::InvalidFanLevel(*l));
                }
                check_fan(*f)?;
            },
            EcOperation::SetFanRampupCurve(f, c) => {
                check_fan(*f)?;
                check_curve(c)?;
                let i = (*f - 1) as usize;
                let mut data = self.fans[i];
                data.rampup_curve = *c;
                self.fans.set(i, data);
                assert(self@ =~= fans_after(old(self)@, op));
            },
            EcOperation::SetFanRampdownCurve(f, c) => {
                check_fan(*f)?;
                check_curve(c)?;
                let i = (*f - 1) as usize;
                let mut data = self.fans[i];
                data.rampdown_curve = *c;
                self.fans.set(i, data);
                assert(self@ =~= fans_after(old(self)@, op));
            },
            _ => {},
        }
        Ok(OperationRun { op, replies: Vec::new() })
    }

    /// The next step of a run: the register access it needs next, or its
    /// outcome once the replies recorded so far settle it.
    pub fn next_step(&self, run: &OperationRun) -> (r: OperationStep)
        requires
            check_operation(run.operation()) is Ok,
        ensures
            r == operation_step(self@, run.operation(), run.replies()),
    {
        let rs = &run.replies;
        match &run.op {
            EcOperation::GetFirmwareVersion => {
                match reads_of_two(REG_FIRMWARE_MAJOR, REG_FIRMWARE_MINOR, rs) {
                    Err(step) => step,
                    Ok((major, minor)) => {
                        if (major == 0 && minor == 0) || (major == 0xFF && minor == 0xFF) {
                            OperationStep::Finished(Err(EcError::NoFirmware { major, minor }))
                        } else {
                            OperationStep::Finished(Ok(EcResult::FirmwareVersion { major, minor }))
                        }
                    },
                }
            },
            EcOperation::GetApuPowerMode => {
                match read_of_one(REG_APU_POWER_MODE, rs) {
                    Err(step) => step,
                    Ok(b) => match PowerMode::from_code(b) {
                        Some(pm) => OperationStep::Finished(Ok(EcResult::ApuPowerMode(pm))),
                        None => OperationStep::Finished(Err(EcError::UnknownPowerMode(b))),
                    },
                }
            },
            EcOperation::SetApuPowerMode(m) => {
                let pm = PowerMode::from_str(m.as_str()).unwrap();
                write_of_one(REG_APU_POWER_MODE, pm.code(), rs, EcResult::ApuPowerMode(pm))
            },
            EcOperation::GetApuTemperature => {
                match read_of_one(REG_APU_TEMPERATURE, rs) {
                    Err(step) => step,
                    Ok(b) => OperationStep::Finished(Ok(EcResult::ApuTemperature(b))),
                }
            },
            EcOperation::GetFanRpm(f) => {
                let (high_reg, low_reg) = fan_speed_registers(*f).unwrap();
                match reads_of_two(high_reg, low_reg, rs) {
                    Err(step) => step,
                    Ok((high, low)) => OperationStep::Finished(
                        Ok(EcResult::FanRpm(decode_rpm(*f, high, low))),
                    ),
                }
            },
            EcOperation::GetFanMode(f) => {
                let reg = fan_mode_register(*f).unwrap();
                match read_of_one(reg, rs) {
                    Err(step) => step,
                    Ok(b) => match decode_fan_mode(b, self.fan(*f).mode) {
                        Some(m) => OperationStep::Finished(Ok(EcResult::FanMode(m))),
                        None => OperationStep::Finished(Err(EcError::UnknownFanMode(b))),
                    },
                }
            },
            EcOperation::SetFanMode(f, m) => {
                let mode = FanMode::from_str(m.as_str()).unwrap();
                self.set_mode_next(*f, mode, rs)
            },
            EcOperation::GetFanLevel(f) => {
                let reg = fan_level_register(*f).unwrap();
                match read_of_one(reg, rs) {
                    Err(step) => step,
                    Ok(b) => OperationStep::Finished(Ok(EcResult::FanLevel(decode_level(b)))),
                }
            },
            EcOperation::SetFanLevel(f, l) => {
                let reg = fan_level_register(*f).unwrap();
                write_of_one(reg, encode_level(*f, *l), rs, EcResult::FanLevel(*l))
            },
            EcOperation::GetFanRampupCurve(f) => OperationStep::Finished(
                Ok(EcResult::FanRampupCurve(self.fan(*f).rampup_curve)),
            ),
            EcOperation::SetFanRampupCurve(_, c) => OperationStep::Finished(
                Ok(EcResult::FanRampupCurve(*c)),
            ),
            EcOperation::GetFanRampdownCurve(f) => OperationStep::Finished(
                Ok(EcResult::FanRampdownCurve(self.fan(*f).rampdown_curve)),
            ),
            EcOperation::SetFanRampdownCurve(_, c) => OperationStep::Finished(
                Ok(EcResult::FanRampdownCurve(*c)),
            ),
        }
    }

    fn set_mode_next(&self, f: u8, m: FanMode, rs: &Vec<RegisterReply>) -> (r: OperationStep)
        requires
            valid_fan(f),
        ensures
            r == set_mode_step(self@, f, m, rs@),
    {
        let mode_reg = fan_mode_register(f).unwrap();
        if rs.len() == 0 {
            return OperationStep::Access(RegisterAccess::Write(mode_reg, encode_fan_mode(f, m)));
        }
        if rs[0] != RegisterReply::Written {
            return OperationStep::Finished(Err(EcError::WriteFailed));
        }
        if m != FanMode::Curve {
            return OperationStep::Finished(Ok(EcResult::FanMode(m)));
        }
        if rs.len() == 1 {
            return OperationStep::Access(RegisterAccess::Read(REG_APU_TEMPERATURE));
        }
        let temp = match read_at(rs, 1) {
            Some(t) => t,
            None => {
                return OperationStep::Finished(Ok(EcResult::FanMode(m)));
            },
        };
        if rs.len() == 2 {
            let level = initial_level(temp, &self.fan(f).rampup_curve);
            let level_reg = fan_level_register(f).unwrap();
            return OperationStep::Access(RegisterAccess::Write(level_reg, encode_level(f, level)));
        }
        if rs[2] == RegisterReply::Written {
            OperationStep::Finished(Ok(EcResult::FanMode(m)))
        } else {
            OperationStep::Finished(Err(EcError::WriteFailed))
        }
    }
}

/// Setting a fan's mode and then getting it gives back the mode named, fixed
/// and curve included: the set writes the mode byte to the fan's mode
/// register and holds the mode in software, and the get reads that register
/// and decodes the byte with the mode held.
pub proof fn lemma_set_then_get_fan_mode(fans: Seq<FanCurveData>, fan_id: u8, name: String)
    requires
        fans.len() == 3,
        valid_fan(fan_id),
        fan_mode_named(name@) is Some,
    ensures
        ({
            let m = fan_mode_named(name@).unwrap();
            let set = EcOperation::SetFanMode(fan_id, name);
            let held = fans_after(fans, set);
            let get = EcOperation::GetFanMode(fan_id);
            &&& check_operation(set) is Ok
            &&& operation_step(held, set, seq![]) == OperationStep::Access(
                RegisterAccess::Write(mode_register(fan_id), mode_byte(fan_id, m)),
            )
            &&& check_operation(get) is Ok
            &&& fans_after(held, get) == held
            &&& operation_step(held, get, seq![]) == OperationStep::Access(
                RegisterAccess::Read(mode_register(fan_id)),
            )
            &&& operation_step(held, get, seq![RegisterReply::Value(mode_byte(fan_id, m))])
                == OperationStep::Finished(Ok(EcResult::FanMode(m)))
            &&& m.name() == name@
        }),
{
    let m = fan_mode_named(name@).unwrap();
    let held = fans_after(fans, EcOperation::SetFanMode(fan_id, name));
    assert(held[fan_id - 1].mode == m);
    crate::registers::lemma_fan_mode_byte_round_trip(fan_id, m);
    let rs = seq![RegisterReply::Value(mode_byte(fan_id, m))];
    assert(read_value(rs, 0) == Some(mode_byte(fan_id, m)));
}

fn read_at(rs: &Vec<RegisterReply>, i: usize) -> (r: Option<u8>)
    requires
        i < rs@.len(),
    ensures
        r == read_value(rs@, i as int),
{
    match rs[i] {
        RegisterReply::Value(v) => Some(v),
        _ => None,
    }
}

/// The byte of a one-register read once it is there, else the step to take.
fn read_of_one(reg: u8, rs: &Vec<RegisterReply>) -> (r: Result<u8, OperationStep>)
    ensures
        rs@.len() == 0 ==> r == Err::<u8, OperationStep>(
            OperationStep::Access(RegisterAccess::Read(reg)),
        ),
        rs@.len() > 0 && read_value(rs@, 0) is None ==> r == Err::<u8, OperationStep>(
            OperationStep::Finished(Err(EcError::ReadFailed)),
        ),
        rs@.len() > 0 && read_value(rs@, 0) is Some ==> r == Ok::<u8, OperationStep>(
            read_value(rs@, 0).unwrap(),
        ),
{
    if rs.len() == 0 {
        return Err(OperationStep::Access(RegisterAccess::Read(reg)));
    }
    match read_at(rs, 0) {
        Some(v) => Ok(v),
        None => Err(OperationStep::Finished(Err(EcError::ReadFailed))),
    }
}

/// The bytes of two reads in turn once both are there, else the step to take.
fn reads_of_two(first: u8, second: u8, rs: &Vec<RegisterReply>) -> (r: Result<(u8, u8), OperationStep>)
    ensures
        rs@.len() == 0 ==> r == Err::<(u8, u8), OperationStep>(
            OperationStep::Access(RegisterAccess::Read(first)),
        ),
        rs@.len() > 0 && read_value(rs@, 0) is None ==> r == Err::<(u8, u8), OperationStep>(
            OperationStep::Finished(Err(EcError::ReadFailed)),
        ),
        rs@.len() == 1 && read_value(rs@, 0) is Some ==> r == Err::<(u8, u8), OperationStep>(
            OperationStep::Access(RegisterAccess::Read(second)),
        ),
        rs@.len() > 1 && read_value(rs@, 0) is Some && read_value(rs@, 1) is None ==> r == Err::<
            (u8, u8),
            OperationStep,
        >(OperationStep::Finished(Err(EcError::ReadFailed))),
        rs@.len() > 1 && read_value(rs@, 0) is Some && read_value(rs@, 1) is Some ==> r == Ok::<
            (u8, u8),
            OperationStep,
        >((read_value(rs@, 0).unwrap(), read_value(rs@, 1).unwrap())),
{
    if rs.len() == 0 {
        return Err(OperationStep::Access(RegisterAccess::Read(first)));
    }
    let a = match read_at(rs, 0) {
        Some(v) => v,
        None => {
            return Err(OperationStep::Finished(Err(EcError::ReadFailed)));
        },
    };
    if rs.len() == 1 {
        return Err(OperationStep::Access(RegisterAccess::Read(second)));
    }
    match read_at(rs, 1) {
        Some(b) => Ok((a, b)),
        None => Err(OperationStep::Finished(Err(EcError::ReadFailed))),
    }
}

/// A one-register write and the result it ends with.
fn write_of_one(reg: u8, value: u8, rs: &Vec<RegisterReply>, result: EcResult) -> (r: OperationStep)
    ensures
        r == single_write(reg, value, rs@, result),
{
    if rs.len() == 0 {
        OperationStep::Access(RegisterAccess::Write(reg, value))
    } else if rs[0] == RegisterReply::Written {
        OperationStep::Finished(Ok(result))
    } else {
        OperationStep::Finished(Err(EcError::WriteFailed))
    }
}

} // verus!
