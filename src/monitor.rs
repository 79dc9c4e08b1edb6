//! The curve monitor: once a tick, the fans under curve control follow the
//! temperature by at most one level.
//!
//! A tick works on a copy of the fan configuration and reaches the hardware
//! only through operations, which the caller submits to the operation queue
//! like any other request. It reads the temperature once, then the level of
//! each fan under curve control in turn; the first fan whose level has to
//! move is moved one step and the tick ends there.
use vstd::prelude::*;
use crate::error::EcError;
use crate::curve::{FanMode, FanCurveData, next_level, ramp_step};
use crate::operation::{EcOperation, EcResult};
use crate::registers::MAX_LEVEL;

verus! {

/// A level step taken by the monitor.
#[derive(Clone, Copy, Debug, PartialEq, Eq, Structural)]
pub struct LevelChange {
    pub fan_id: u8,
    pub from: u8,
    pub to: u8,
    pub temperature: u8,
    /// The threshold the temperature reached.
    pub threshold: u8,
}

/// How a tick ended.
#[derive(Clone, Copy, Debug, PartialEq, Eq, Structural)]
pub enum TickOutcome {
    /// No fan is under curve control: the hardware was not touched.
    Idle,
    /// Every fan under curve control stays at its level.
    Steady,
    /// One fan moved one level.
    Stepped(LevelChange),
    /// An operation of the tick failed.
    Failed(EcError),
}

/// What a tick needs next.
#[derive(Clone, Debug)]
pub enum MonitorAction {
    /// This operation must be run and its result recorded.
    Submit(EcOperation),
    /// The tick is over.
    Done(TickOutcome),
}

pub open spec fn any_curve(fans: Seq<FanCurveData>) -> bool {
    exists|i: int| 0 <= i < 3 && (#[trigger] fans[i]).mode == FanMode::Curve
}

/// The step a fan's level takes at a temperature, with the threshold that
/// decided it.
pub open spec fn change_of(fan_id: u8, level: u8, temp: u8, data: FanCurveData) -> LevelChange {
    let to = next_level(level, temp, data.rampup_curve@, data.rampdown_curve@);
    LevelChange {
        fan_id,
        from: level,
        to,
        temperature: temp,
        threshold: if to > level {
            data.rampup_curve@[level as int]
        } else {
            data.rampdown_curve@[level - 1]
        },
    }
}

/// The tick from fan `fan` on, with `rs[pos]` the reply to that fan's level
/// read once it has come.
pub open spec fn scan(
    fans: Seq<FanCurveData>,
    temp: u8,
    rs: Seq<Result<EcResult, EcError>>,
    fan: u8,
    pos: int,
) -> MonitorAction
    decreases 4 - fan,
{
    if fan > 3 || fan < 1 {
        MonitorAction::Done(TickOutcome::Steady)
    } else if fans[fan - 1].mode != FanMode::Curve {
        scan(fans, temp, rs, (fan + 1) as u8, pos)
    } else if rs.len() <= pos {
        MonitorAction::Submit(EcOperation::GetFanLevel(fan))
    } else {
        match rs[pos] {
            Ok(EcResult::FanLevel(level)) => {
                let change = change_of(fan, level, temp, fans[fan - 1]);
                if change.to == level {
                    scan(fans, temp, rs, (fan + 1) as u8, pos + 1)
                } else if rs.len() <= pos + 1 {
                    MonitorAction::Submit(EcOperation::SetFanLevel(fan, change.to))
                } else {
                    match rs[pos + 1] {
                        Ok(_) => MonitorAction::Done(TickOutcome::Stepped(change)),
                        Err(e) => MonitorAction::Done(TickOutcome::Failed(e)),
                    }
                }
            },
            Ok(_) => MonitorAction::Done(TickOutcome::Failed(EcError::UnexpectedResult)),
            Err(e) => MonitorAction::Done(TickOutcome::Failed(e)),
        }
    }
}

/// The next action of a tick over a copy of the fan configuration, given
/// the results of the operations it asked for so far.
pub open spec fn tick_action(fans: Seq<FanCurveData>, rs: Seq<Result<EcResult, EcError>>) -> MonitorAction {
    if !any_curve(fans) {
        MonitorAction::Done(TickOutcome::Idle)
    } else if rs.len() == 0 {
        MonitorAction::Submit(EcOperation::GetApuTemperature)
    } else {
        match rs[0] {
            Ok(EcResult::ApuTemperature(temp)) => scan(fans, temp, rs, 1, 1),
            Ok(_) => MonitorAction::Done(TickOutcome::Failed(EcError::UnexpectedResult)),
            Err(e) => MonitorAction::Done(TickOutcome::Failed(e)),
        }
    }
}

/// The next action of a monitor tick.
pub fn next_tick_action(fans: &[FanCurveData; 3], results: &Vec<Result<EcResult, EcError>>) -> (r: MonitorAction)
    ensures
        r == tick_action(fans@, results@),
{
    if !(fans[0].mode == FanMode::Curve || fans[1].mode == FanMode::Curve || fans[2].mode
        == FanMode::Curve) {
        proof {
            assert forall|i: int| 0 <= i < 3 implies (#[trigger] fans@[i]).mode != FanMode::Curve by {
                if i == 0 {
                } else if i == 1 {
                } else {
                }
            }
        }
        return MonitorAction::Done(TickOutcome::Idle);
    }
    if results.len() == 0 {
        return MonitorAction::Submit(EcOperation::GetApuTemperature);
    }
    let temp = match results[0] {
        Ok(EcResult::ApuTemperature(t)) => t,
        Ok(_) => {
            return MonitorAction::Done(TickOutcome::Failed(EcError::UnexpectedResult));
        },
        Err(e) => {
            return MonitorAction::Done(TickOutcome::Failed(e));
        },
    };
    let mut fan: u8 = 1;
    let mut pos: usize = 1;
    while fan <= 3
        invariant
            1 <= fan <= 4,
            1 <= pos <= results@.len(),
            fans@.len() == 3,
            tick_action(fans@, results@) == scan(fans@, temp, results@, fan, pos as int),
        decreases 4 - fan,
    {
        let data = fans[(fan - 1) as usize];
        if data.mode == FanMode::Curve {
            if results.len() <= pos {
                return MonitorAction::Submit(EcOperation::GetFanLevel(fan));
            }
            let level = match results[pos] {
                Ok(EcResult::FanLevel(l)) => l,
                Ok(_) => {
                    return MonitorAction::Done(TickOutcome::Failed(EcError::UnexpectedResult));
                },
                Err(e) => {
                    return MonitorAction::Done(TickOutcome::Failed(e));
                },
            };
            let to = ramp_step(level, temp, &data);
            if to != level {
                if results.len() <= pos + 1 {
                    return MonitorAction::Submit(EcOperation::SetFanLevel(fan, to));
                }
                let threshold = if to > level {
                    data.rampup_curve[level as usize]
                } else {
                    data.rampdown_curve[(level - 1) as usize]
                };
                let change = LevelChange { fan_id: fan, from: level, to, temperature: temp, threshold };
                return match results[pos + 1] {
                    Ok(_) => MonitorAction::Done(TickOutcome::Stepped(change)),
                    Err(e) => MonitorAction::Done(TickOutcome::Failed(e)),
                };
            }
            pos = pos + 1;
        }
        fan = fan + 1;
    }
    MonitorAction::Done(TickOutcome::Steady)
}

/// A change in whether the monitor supervises any fan.
#[derive(Clone, Copy, Debug, PartialEq, Eq, Structural)]
pub enum Supervision {
    Started,
    Stopped,
}

/// Whether supervision starts or stops at a tick: it starts when a fan
/// under curve control appears and stops when the last one leaves. Returns
/// the new state and the change, if any.
pub fn supervision_change(active: bool, has_curve_fans: bool) -> (r: (bool, Option<Supervision>))
    ensures
        r.0 == has_curve_fans,
        r.1 == (if has_curve_fans && !active {
            Some(Supervision::Started)
        } else if !has_curve_fans && active {
            Some(Supervision::Stopped)
        } else {
            None
        }),
{
    if has_curve_fans && !active {
        (true, Some(Supervision::Started))
    } else if !has_curve_fans && active {
        (false, Some(Supervision::Stopped))
    } else {
        (has_curve_fans, None)
    }
}

/// A tick moves at most one fan, by one level: whatever the results, a tick
/// that ends with a step reports a step of one level, taken by a fan under
/// curve control.
pub proof fn lemma_tick_steps_once(fans: Seq<FanCurveData>, temp: u8, rs: Seq<Result<EcResult, EcError>>, fan: u8, pos: int)
    requires
        fans.len() == 3,
        forall|i: int| 0 <= i < 3 ==> (#[trigger] fans[i]).rampup_curve@.len() == 5
            && fans[i].rampdown_curve@.len() == 5,
        1 <= fan <= 4,
        scan(fans, temp, rs, fan, pos) matches MonitorAction::Done(TickOutcome::Stepped(_)),
    ensures
        ({
            let c = scan(fans, temp, rs, fan, pos)->Done_0->Stepped_0;
            &&& 1 <= c.fan_id <= 3
            &&& fans[c.fan_id - 1].mode == FanMode::Curve
            &&& c.from <= MAX_LEVEL
            &&& (c.to == c.from + 1 || c.to + 1 == c.from)
        }),
    decreases 4 - fan,
{
    if fan <= 3 && fans[fan - 1].mode != FanMode::Curve {
        lemma_tick_steps_once(fans, temp, rs, (fan + 1) as u8, pos);
    } else if fan <= 3 && rs.len() > pos {
        if let Ok(EcResult::FanLevel(level)) = rs[pos] {
            let change = change_of(fan, level, temp, fans[fan - 1]);
            if change.to == level {
                lemma_tick_steps_once(fans, temp, rs, (fan + 1) as u8, pos + 1);
            } else {
                crate::curve::lemma_at_most_one_step(level, temp, fans[fan - 1].rampup_curve@, fans[fan - 1].rampdown_curve@);
            }
        }
    }
}

} // verus!
