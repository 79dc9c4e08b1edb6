//! Per-fan curve configuration and the decisions of the curve controller.
use vstd::prelude::*;
use crate::error::EcError;
use crate::registers::MAX_LEVEL;
use crate::text::same_text;

verus! {

/// The hottest temperature a curve threshold may name, in degrees Celsius.
pub const MAX_CURVE_TEMPERATURE: u8 = 100;

/// How a fan is driven. The chip encodes Fixed and Curve alike; only the
/// software-held mode tells them apart.
#[derive(Clone, Copy, Debug, PartialEq, Eq, Structural)]
pub enum FanMode {
    Auto,
    Fixed,
    Curve,
}

/// The fan mode a name stands for.
pub open spec fn fan_mode_named(s: Seq<char>) -> Option<FanMode> {
    if s == "auto"@ {
        Some(FanMode::Auto)
    } else if s == "fixed"@ {
        Some(FanMode::Fixed)
    } else if s == "curve"@ {
        Some(FanMode::Curve)
    } else {
        None
    }
}

impl FanMode {
    pub open spec fn name(self) -> Seq<char> {
        match self {
            FanMode::Auto => "auto"@,
            FanMode::Fixed => "fixed"@,
            FanMode::Curve => "curve"@,
        }
    }

    /// The name of the mode.
    pub fn as_str(&self) -> (r: &'static str)
        ensures
            r@ == self.name(),
    {
        match self {
            FanMode::Auto => "auto",
            FanMode::Fixed => "fixed",
            FanMode::Curve => "curve",
        }
    }

    /// The mode a name stands for, if any.
    pub fn from_str(s: &str) -> (r: Option<FanMode>)
        ensures
            r == fan_mode_named(s@),
    {
        if same_text(s, "auto") {
            Some(FanMode::Auto)
        } else if same_text(s, "fixed") {
            Some(FanMode::Fixed)
        } else if same_text(s, "curve") {
            Some(FanMode::Curve)
        } else {
            None
        }
    }
}

/// Naming a mode and reading the name back gives the same mode.
pub proof fn lemma_fan_mode_name_round_trip(m: FanMode)
    ensures
        fan_mode_named(m.name()) == Some(m),
{
    reveal_strlit("auto");
    reveal_strlit("fixed");
    reveal_strlit("curve");
    assert("auto"@.len() != "fixed"@.len());
    assert("auto"@.len() != "curve"@.len());
    assert("fixed"@[0] != "curve"@[0]);
}

/// The curve configuration of one fan: its mode and the five temperature
/// thresholds for stepping up and stepping down a level.
#[derive(Clone, Copy, Debug)]
pub struct FanCurveData {
    /// `rampup_curve[l]` is the temperature at which level `l` steps up.
    pub rampup_curve: [u8; 5],
    /// `rampdown_curve[l - 1]` is the temperature at which level `l` steps down.
    pub rampdown_curve: [u8; 5],
    pub mode: FanMode,
}

/// Whether every threshold of a curve is a valid temperature.
pub open spec fn valid_curve(curve: Seq<u8>) -> bool {
    forall|i: int| 0 <= i < curve.len() ==> curve[i] <= MAX_CURVE_TEMPERATURE
}

pub open spec fn default_rampup(fan_id: u8) -> Seq<u8> {
    if fan_id == 3 {
        seq![20u8, 60, 83, 95, 97]
    } else {
        seq![60u8, 70, 83, 95, 97]
    }
}

pub open spec fn default_rampdown(fan_id: u8) -> Seq<u8> {
    if fan_id == 3 {
        seq![0u8, 50, 80, 94, 96]
    } else {
        seq![40u8, 50, 80, 94, 96]
    }
}

impl FanCurveData {
    /// The factory configuration of a fan: automatic mode, and the curves the
    /// chip ships with (the third fan starts earlier than the other two).
    pub fn factory(fan_id: u8) -> (r: FanCurveData)
        ensures
            r.mode == FanMode::Auto,
            r.rampup_curve@ == default_rampup(fan_id),
            r.rampdown_curve@ == default_rampdown(fan_id),
    {
        if fan_id == 3 {
            let r = FanCurveData {
                rampup_curve: [20, 60, 83, 95, 97],
                rampdown_curve: [0, 50, 80, 94, 96],
                mode: FanMode::Auto,
            };
            assert(r.rampup_curve@ =~= default_rampup(fan_id));
            assert(r.rampdown_curve@ =~= default_rampdown(fan_id));
            r
        } else {
            let r = FanCurveData {
                rampup_curve: [60, 70, 83, 95, 97],
                rampdown_curve: [40, 50, 80, 94, 96],
                mode: FanMode::Auto,
            };
            assert(r.rampup_curve@ =~= default_rampup(fan_id));
            assert(r.rampdown_curve@ =~= default_rampdown(fan_id));
            r
        }
    }
}

impl Default for FanCurveData {
    fn default() -> (r: FanCurveData)
        ensures
            r.mode == FanMode::Auto,
            r.rampup_curve@ == default_rampup(1),
            r.rampdown_curve@ == default_rampdown(1),
    {
        FanCurveData::factory(1)
    }
}

/// Checks that every threshold of a curve is at most 100 degrees.
pub fn check_curve(curve: &[u8; 5]) -> (r: Result<(), EcError>)
    ensures
        r is Ok <==> valid_curve(curve@),
        r is Err ==> r == Err::<(), EcError>(EcError::InvalidCurveValue),
{
    let mut i: usize = 0;
    while i < 5
        invariant
            i <= 5,
            curve@.len() == 5,
            forall|j: int| 0 <= j < i ==> curve@[j] <= MAX_CURVE_TEMPERATURE,
        decreases 5 - i,
    {
        if curve[i] > MAX_CURVE_TEMPERATURE {
            return Err(EcError::InvalidCurveValue);
        }
        i += 1;
    }
    Ok(())
}

/// The highest of the first `n` levels whose step-up threshold the
/// temperature has reached, or 0 when it has reached none.
pub open spec fn highest_reached(temp: u8, rampup: Seq<u8>, n: nat) -> u8
    decreases n,
{
    if n == 0 {
        0
    } else if temp >= rampup[n - 1] {
        n as u8
    } else {
        highest_reached(temp, rampup, (n - 1) as nat)
    }
}

/// The level a fan starts at when it enters curve mode: the number of the
/// highest step-up threshold at or below the temperature, 0 if there is none.
pub open spec fn start_level(temp: u8, rampup: Seq<u8>) -> u8 {
    highest_reached(temp, rampup, 5)
}

/// The start level is the highest level whose threshold has been reached.
pub proof fn lemma_start_level_is_highest_reached(temp: u8, rampup: Seq<u8>)
    requires
        rampup.len() == 5,
    ensures
        start_level(temp, rampup) <= MAX_LEVEL,
        start_level(temp, rampup) > 0 ==> temp >= rampup[start_level(temp, rampup) - 1],
        forall|l: int| start_level(temp, rampup) < l <= 5 ==> temp < #[trigger] rampup[l - 1],
{
    reveal_with_fuel(highest_reached, 6);
}

/// The level a fan starts at when it enters curve mode at a temperature.
pub fn initial_level(temp: u8, rampup: &[u8; 5]) -> (r: u8)
    ensures
        r == start_level(temp, rampup@),
        r <= MAX_LEVEL,
{
    let mut i: usize = 5;
    while i > 0
        invariant
            i <= 5,
            rampup@.len() == 5,
            highest_reached(temp, rampup@, 5) == highest_reached(temp, rampup@, i as nat),
        decreases i,
    {
        if temp >= rampup[i - 1] {
            return i as u8;
        }
        i -= 1;
    }
    0
}

/// The level after one tick of the curve monitor: one step up when the
/// temperature has reached the step-up threshold of the current level, else
/// one step down when it has fallen to the step-down threshold, else no
/// change. A level outside the scale is left as it is.
pub open spec fn next_level(level: u8, temp: u8, rampup: Seq<u8>, rampdown: Seq<u8>) -> u8 {
    if level < MAX_LEVEL && temp >= rampup[level as int] {
        (level + 1) as u8
    } else if 0 < level <= MAX_LEVEL && temp <= rampdown[level - 1] {
        (level - 1) as u8
    } else {
        level
    }
}

/// The level a fan in curve mode moves to on one monitor tick.
pub fn ramp_step(level: u8, temp: u8, curve: &FanCurveData) -> (r: u8)
    ensures
        r == next_level(level, temp, curve.rampup_curve@, curve.rampdown_curve@),
{
    if level < MAX_LEVEL && temp >= curve.rampup_curve[level as usize] {
        level + 1
    } else if 0 < level && level <= MAX_LEVEL && temp <= curve.rampdown_curve[(level - 1) as usize] {
        level - 1
    } else {
        level
    }
}

/// At or above the step-up threshold of its level, a fan steps up exactly one
/// level, however far the temperature is past the higher thresholds.
pub proof fn lemma_ramp_up_single_step(level: u8, temp: u8, rampup: Seq<u8>, rampdown: Seq<u8>)
    requires
        rampup.len() == 5,
        rampdown.len() == 5,
        level < MAX_LEVEL,
        temp >= rampup[level as int],
    ensures
        next_level(level, temp, rampup, rampdown) == level + 1,
{
}

/// At or below the step-down threshold of its level, a fan steps down exactly
/// one level, unless the step-up threshold of that level is reached too, in
/// which case stepping up wins.
pub proof fn lemma_ramp_down_single_step(level: u8, temp: u8, rampup: Seq<u8>, rampdown: Seq<u8>)
    requires
        rampup.len() == 5,
        rampdown.len() == 5,
        0 < level <= MAX_LEVEL,
        temp <= rampdown[level - 1],
        level == MAX_LEVEL || temp < rampup[level as int],
    ensures
        next_level(level, temp, rampup, rampdown) == level - 1,
{
}

/// One monitor tick never moves a fan by more than one level.
pub proof fn lemma_at_most_one_step(level: u8, temp: u8, rampup: Seq<u8>, rampdown: Seq<u8>)
    requires
        rampup.len() == 5,
        rampdown.len() == 5,
        level <= MAX_LEVEL,
    ensures
        next_level(level, temp, rampup, rampdown) <= MAX_LEVEL,
        next_level(level, temp, rampup, rampdown) == level
            || next_level(level, temp, rampup, rampdown) == level + 1
            || next_level(level, temp, rampup, rampdown) + 1 == level,
{
}

} // verus!
