use ec_su_axb35::curve::{check_curve, initial_level, ramp_step, FanCurveData, FanMode};
use ec_su_axb35::error::EcError;

fn curve_fan() -> FanCurveData {
    let mut data = FanCurveData::factory(1);
    data.mode = FanMode::Curve;
    data
}

#[test]
fn factory_curves() {
    let one = FanCurveData::factory(1);
    assert_eq!(one.rampup_curve, [60, 70, 83, 95, 97]);
    assert_eq!(one.rampdown_curve, [40, 50, 80, 94, 96]);
    assert_eq!(one.mode, FanMode::Auto);
    let three = FanCurveData::factory(3);
    assert_eq!(three.rampup_curve, [20, 60, 83, 95, 97]);
    assert_eq!(three.rampdown_curve, [0, 50, 80, 94, 96]);
    let d = FanCurveData::default();
    assert_eq!(d.rampup_curve, one.rampup_curve);
}

#[test]
fn ramp_up_takes_a_single_step() {
    let data = curve_fan();
    assert_eq!(ramp_step(0, 60, &data), 1);
    // 99 degrees is past every higher threshold too; still one step.
    assert_eq!(ramp_step(1, 99, &data), 2);
    assert_eq!(ramp_step(4, 97, &data), 5);
    assert_eq!(ramp_step(5, 100, &data), 5);
}

#[test]
fn ramp_down_takes_a_single_step() {
    let data = curve_fan();
    assert_eq!(ramp_step(3, 80, &data), 2);
    assert_eq!(ramp_step(5, 10, &data), 4);
    assert_eq!(ramp_step(1, 40, &data), 0);
    assert_eq!(ramp_step(0, 0, &data), 0);
}

#[test]
fn ramp_holds_between_thresholds() {
    let data = curve_fan();
    assert_eq!(ramp_step(2, 82, &data), 2);
    assert_eq!(ramp_step(1, 65, &data), 1);
}

#[test]
fn initial_level_counts_reached_thresholds() {
    let up = [60, 70, 83, 95, 97];
    assert_eq!(initial_level(75, &up), 2);
    assert_eq!(initial_level(59, &up), 0);
    assert_eq!(initial_level(60, &up), 1);
    assert_eq!(initial_level(100, &up), 5);
    assert_eq!(initial_level(96, &up), 4);
}

#[test]
fn curve_values_above_one_hundred_are_rejected() {
    assert_eq!(check_curve(&[0, 50, 80, 94, 100]), Ok(()));
    assert_eq!(check_curve(&[0, 50, 101, 94, 96]), Err(EcError::InvalidCurveValue));
}
