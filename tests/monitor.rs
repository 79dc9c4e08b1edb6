use ec_su_axb35::curve::{FanCurveData, FanMode};
use ec_su_axb35::error::EcError;
use ec_su_axb35::monitor::{next_tick_action, supervision_change, LevelChange, MonitorAction, Supervision, TickOutcome};
use ec_su_axb35::operation::{EcOperation, EcResult};

fn fans(modes: [FanMode; 3]) -> [FanCurveData; 3] {
    let mut f = [FanCurveData::factory(1), FanCurveData::factory(2), FanCurveData::factory(3)];
    for i in 0..3 {
        f[i].mode = modes[i];
    }
    f
}

fn submitted(a: MonitorAction) -> EcOperation {
    match a {
        MonitorAction::Submit(op) => op,
        MonitorAction::Done(o) => panic!("tick ended early: {:?}", o),
    }
}

#[test]
fn no_curve_fan_means_no_traffic() {
    let f = fans([FanMode::Auto, FanMode::Fixed, FanMode::Auto]);
    assert!(matches!(next_tick_action(&f, &Vec::new()), MonitorAction::Done(TickOutcome::Idle)));
}

#[test]
fn tick_steps_the_first_fan_that_must_move() {
    let f = fans([FanMode::Auto, FanMode::Curve, FanMode::Curve]);
    let mut results: Vec<Result<EcResult, EcError>> = Vec::new();
    assert!(matches!(submitted(next_tick_action(&f, &results)), EcOperation::GetApuTemperature));
    results.push(Ok(EcResult::ApuTemperature(90)));
    assert!(matches!(submitted(next_tick_action(&f, &results)), EcOperation::GetFanLevel(2)));
    results.push(Ok(EcResult::FanLevel(1)));
    // 90 degrees is past several thresholds, yet the fan moves one level.
    assert!(matches!(submitted(next_tick_action(&f, &results)), EcOperation::SetFanLevel(2, 2)));
    results.push(Ok(EcResult::FanLevel(2)));
    match next_tick_action(&f, &results) {
        MonitorAction::Done(TickOutcome::Stepped(c)) => assert_eq!(
            c,
            LevelChange { fan_id: 2, from: 1, to: 2, temperature: 90, threshold: 70 }
        ),
        other => panic!("unexpected {:?}", other),
    }
}

#[test]
fn steady_fans_are_all_read() {
    let f = fans([FanMode::Curve, FanMode::Auto, FanMode::Curve]);
    let results: Vec<Result<EcResult, EcError>> = vec![
        Ok(EcResult::ApuTemperature(65)),
        Ok(EcResult::FanLevel(1)),
    ];
    assert!(matches!(submitted(next_tick_action(&f, &results)), EcOperation::GetFanLevel(3)));
    let mut results = results;
    results.push(Ok(EcResult::FanLevel(2)));
    assert!(matches!(next_tick_action(&f, &results), MonitorAction::Done(TickOutcome::Steady)));
}

#[test]
fn ramp_down_in_a_tick() {
    let f = fans([FanMode::Curve, FanMode::Auto, FanMode::Auto]);
    let results: Vec<Result<EcResult, EcError>> = vec![
        Ok(EcResult::ApuTemperature(45)),
        Ok(EcResult::FanLevel(2)),
    ];
    assert!(matches!(submitted(next_tick_action(&f, &results)), EcOperation::SetFanLevel(1, 1)));
}

#[test]
fn failures_end_the_tick() {
    let f = fans([FanMode::Curve, FanMode::Auto, FanMode::Auto]);
    let results: Vec<Result<EcResult, EcError>> = vec![Err(EcError::ReadFailed)];
    assert!(matches!(
        next_tick_action(&f, &results),
        MonitorAction::Done(TickOutcome::Failed(EcError::ReadFailed))
    ));
    let wrong: Vec<Result<EcResult, EcError>> = vec![Ok(EcResult::FanRpm(5))];
    assert!(matches!(
        next_tick_action(&f, &wrong),
        MonitorAction::Done(TickOutcome::Failed(EcError::UnexpectedResult))
    ));
}

#[test]
fn supervision_starts_and_stops() {
    assert_eq!(supervision_change(false, true), (true, Some(Supervision::Started)));
    assert_eq!(supervision_change(true, false), (false, Some(Supervision::Stopped)));
    assert_eq!(supervision_change(true, true), (true, None));
    assert_eq!(supervision_change(false, false), (false, None));
}
