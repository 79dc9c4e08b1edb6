use ec_su_axb35::curve::FanMode;
use ec_su_axb35::error::EcError;
use ec_su_axb35::operation::{
    EcController, EcOperation, EcResult, OperationRun, OperationStep, RegisterAccess, RegisterReply,
};
use ec_su_axb35::registers::PowerMode;

/// Runs an accepted operation against a scripted register bus, returning
/// the accesses it asked for and its outcome.
fn run_with(
    ctl: &EcController,
    mut run: OperationRun,
    replies: &[RegisterReply],
) -> (Vec<RegisterAccess>, Result<EcResult, EcError>) {
    let mut accesses = Vec::new();
    let mut next_reply = replies.iter();
    loop {
        match ctl.next_step(&run) {
            OperationStep::Access(a) => {
                accesses.push(a);
                let reply = *next_reply.next().expect("operation asked for more accesses than scripted");
                run.record(reply);
            }
            OperationStep::Finished(r) => return (accesses, r),
        }
    }
}

fn execute(
    ctl: &mut EcController,
    op: EcOperation,
    replies: &[RegisterReply],
) -> (Vec<RegisterAccess>, Result<EcResult, EcError>) {
    match ctl.start(op) {
        Ok(run) => run_with(ctl, run, replies),
        Err(e) => (Vec::new(), Err(e)),
    }
}

#[test]
fn set_curve_mode_at_75_degrees_writes_level_two() {
    let mut ctl = EcController::new();
    let (accesses, result) = execute(
        &mut ctl,
        EcOperation::SetFanMode(1, "curve".to_string()),
        &[RegisterReply::Written, RegisterReply::Value(75), RegisterReply::Written],
    );
    assert_eq!(
        accesses,
        vec![
            RegisterAccess::Write(0x21, 0x11),
            RegisterAccess::Read(0x70),
            RegisterAccess::Write(0x22, 0x13),
        ]
    );
    assert!(matches!(result, Ok(EcResult::FanMode(FanMode::Curve))));
    assert_eq!(ctl.fan(1).mode, FanMode::Curve);
}

#[test]
fn curve_mode_without_temperature_sets_no_level() {
    let mut ctl = EcController::new();
    let (accesses, result) = execute(
        &mut ctl,
        EcOperation::SetFanMode(2, "curve".to_string()),
        &[RegisterReply::Written, RegisterReply::Failed],
    );
    assert_eq!(accesses, vec![RegisterAccess::Write(0x23, 0x21), RegisterAccess::Read(0x70)]);
    assert!(matches!(result, Ok(EcResult::FanMode(FanMode::Curve))));
}

#[test]
fn fan_mode_round_trips_through_the_register() {
    for name in ["auto", "fixed", "curve"] {
        let mut ctl = EcController::new();
        let (accesses, set) = execute(
            &mut ctl,
            EcOperation::SetFanMode(3, name.to_string()),
            &[RegisterReply::Written, RegisterReply::Value(20), RegisterReply::Written],
        );
        assert!(set.is_ok());
        let written = match accesses[0] {
            RegisterAccess::Write(0x25, b) => b,
            other => panic!("unexpected access {:?}", other),
        };
        let (reads, got) = execute(&mut ctl, EcOperation::GetFanMode(3), &[RegisterReply::Value(written)]);
        assert_eq!(reads, vec![RegisterAccess::Read(0x25)]);
        match got {
            Ok(EcResult::FanMode(m)) => assert_eq!(m.as_str(), name),
            other => panic!("unexpected result {:?}", other),
        }
    }
}

#[test]
fn fan_three_rpm_of_8000_reads_zero() {
    let mut ctl = EcController::new();
    let (accesses, result) = execute(
        &mut ctl,
        EcOperation::GetFanRpm(3),
        &[RegisterReply::Value(0x1F), RegisterReply::Value(0x40)],
    );
    assert_eq!(accesses, vec![RegisterAccess::Read(0x28), RegisterAccess::Read(0x29)]);
    assert!(matches!(result, Ok(EcResult::FanRpm(0))));
    let (_, other_fan) = execute(
        &mut ctl,
        EcOperation::GetFanRpm(1),
        &[RegisterReply::Value(0x1F), RegisterReply::Value(0x40)],
    );
    assert!(matches!(other_fan, Ok(EcResult::FanRpm(8000))));
}

#[test]
fn invalid_power_mode_is_rejected_before_any_access() {
    let mut ctl = EcController::new();
    let result = ctl.start(EcOperation::SetApuPowerMode("invalid".to_string()));
    assert!(matches!(result, Err(EcError::InvalidPowerMode)));
}

#[test]
fn power_mode_set_and_get() {
    let mut ctl = EcController::new();
    let (accesses, set) = execute(
        &mut ctl,
        EcOperation::SetApuPowerMode("quiet".to_string()),
        &[RegisterReply::Written],
    );
    assert_eq!(accesses, vec![RegisterAccess::Write(0x31, 0x02)]);
    assert!(matches!(set, Ok(EcResult::ApuPowerMode(PowerMode::Quiet))));
    let (_, got) = execute(&mut ctl, EcOperation::GetApuPowerMode, &[RegisterReply::Value(1)]);
    assert!(matches!(got, Ok(EcResult::ApuPowerMode(PowerMode::Performance))));
    let (_, unknown) = execute(&mut ctl, EcOperation::GetApuPowerMode, &[RegisterReply::Value(7)]);
    assert!(matches!(unknown, Err(EcError::UnknownPowerMode(7))));
}

#[test]
fn firmware_version_and_missing_firmware() {
    let mut ctl = EcController::new();
    let (accesses, ok) = execute(
        &mut ctl,
        EcOperation::GetFirmwareVersion,
        &[RegisterReply::Value(1), RegisterReply::Value(5)],
    );
    assert_eq!(accesses, vec![RegisterAccess::Read(0x00), RegisterAccess::Read(0x01)]);
    assert!(matches!(ok, Ok(EcResult::FirmwareVersion { major: 1, minor: 5 })));
    let (_, zeros) = execute(
        &mut ctl,
        EcOperation::GetFirmwareVersion,
        &[RegisterReply::Value(0), RegisterReply::Value(0)],
    );
    assert!(matches!(zeros, Err(EcError::NoFirmware { major: 0, minor: 0 })));
    let (_, ones) = execute(
        &mut ctl,
        EcOperation::GetFirmwareVersion,
        &[RegisterReply::Value(0xFF), RegisterReply::Value(0xFF)],
    );
    assert!(matches!(ones, Err(EcError::NoFirmware { major: 0xFF, minor: 0xFF })));
}

#[test]
fn failed_read_stops_the_operation() {
    let mut ctl = EcController::new();
    let (accesses, result) = execute(&mut ctl, EcOperation::GetFirmwareVersion, &[RegisterReply::Failed]);
    assert_eq!(accesses.len(), 1);
    assert!(matches!(result, Err(EcError::ReadFailed)));
    let (_, write) = execute(&mut ctl, EcOperation::SetFanLevel(1, 2), &[RegisterReply::Failed]);
    assert!(matches!(write, Err(EcError::WriteFailed)));
}

#[test]
fn fan_level_set_and_get() {
    let mut ctl = EcController::new();
    let (accesses, set) = execute(&mut ctl, EcOperation::SetFanLevel(2, 4), &[RegisterReply::Written]);
    assert_eq!(accesses, vec![RegisterAccess::Write(0x24, 0x25)]);
    assert!(matches!(set, Ok(EcResult::FanLevel(4))));
    let (_, got) = execute(&mut ctl, EcOperation::GetFanLevel(2), &[RegisterReply::Value(0x2A)]);
    assert!(matches!(got, Ok(EcResult::FanLevel(0))));
    let (_, temp) = execute(&mut ctl, EcOperation::GetApuTemperature, &[RegisterReply::Value(48)]);
    assert!(matches!(temp, Ok(EcResult::ApuTemperature(48))));
}

#[test]
fn invalid_inputs_are_rejected() {
    let mut ctl = EcController::new();
    assert!(matches!(ctl.start(EcOperation::GetFanRpm(0)), Err(EcError::InvalidFanId(0))));
    assert!(matches!(ctl.start(EcOperation::SetFanLevel(1, 6)), Err(EcError::InvalidFanLevel(6))));
    // The level is checked before the fan.
    assert!(matches!(ctl.start(EcOperation::SetFanLevel(9, 6)), Err(EcError::InvalidFanLevel(6))));
    assert!(matches!(
        ctl.start(EcOperation::SetFanMode(4, "bogus".to_string())),
        Err(EcError::InvalidFanId(4))
    ));
    assert!(matches!(
        ctl.start(EcOperation::SetFanMode(1, "bogus".to_string())),
        Err(EcError::InvalidFanMode)
    ));
    assert!(matches!(
        ctl.start(EcOperation::SetFanRampupCurve(1, [10, 20, 30, 40, 101])),
        Err(EcError::InvalidCurveValue)
    ));
    assert!(EcError::InvalidCurveValue.is_invalid_input());
    assert!(!EcError::ReadFailed.is_invalid_input());
    assert_eq!(ctl.fan(1).rampup_curve, [60, 70, 83, 95, 97]);
    assert_eq!(ctl.fan(1).mode, FanMode::Auto);
}

#[test]
fn curves_are_held_in_software() {
    let mut ctl = EcController::new();
    let (accesses, set) = execute(&mut ctl, EcOperation::SetFanRampdownCurve(2, [1, 2, 3, 4, 5]), &[]);
    assert!(accesses.is_empty());
    assert!(matches!(set, Ok(EcResult::FanRampdownCurve([1, 2, 3, 4, 5]))));
    let (_, got) = execute(&mut ctl, EcOperation::GetFanRampdownCurve(2), &[]);
    assert!(matches!(got, Ok(EcResult::FanRampdownCurve([1, 2, 3, 4, 5]))));
    let (_, up) = execute(&mut ctl, EcOperation::GetFanRampupCurve(3), &[]);
    assert!(matches!(up, Ok(EcResult::FanRampupCurve([20, 60, 83, 95, 97]))));
    assert!(!ctl.has_curve_fans());
}
