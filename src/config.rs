//! The saved configuration: what is replayed through the controller at
//! start-up, and how a successful change is remembered for the next start.
//! Reading and writing the file is the host program's business.
use vstd::prelude::*;
use vstd::string::StringExecFns;
use crate::curve::{default_rampup, default_rampdown};
use crate::operation::EcOperation;
use crate::registers::valid_fan;
use crate::text::{same_text, has_char};

verus! {

/// The directory, below the system drive, that holds the configuration,
/// the log and the driver.
pub const DATA_DIR: &'static str = "\\ProgramData\\ec-su_axb35-win\\";

/// The saved state of one fan.
#[derive(Debug)]
pub struct FanConfig {
    pub mode: String,
    pub level: u8,
    pub rampup_curve: [u8; 5],
    pub rampdown_curve: [u8; 5],
}

/// The saved configuration of the server.
#[derive(Debug)]
pub struct ServerConfig {
    pub host: String,
    pub port: u16,
    pub log_path: String,
    pub driver_path: String,
    pub apu_power_mode: Option<String>,
    pub fan1: Option<FanConfig>,
    pub fan2: Option<FanConfig>,
    pub fan3: Option<FanConfig>,
}

impl FanConfig {
    /// Whether this is the factory state of a fan: automatic, level 0, and
    /// the curves the chip ships with for that fan.
    pub open spec fn is_factory(&self, fan_id: u8) -> bool {
        &&& self.mode@ == "auto"@
        &&& self.level == 0
        &&& self.rampup_curve@ == default_rampup(fan_id)
        &&& self.rampdown_curve@ == default_rampdown(fan_id)
    }

    /// The factory state of a fan.
    pub fn factory(fan_id: u8) -> (r: FanConfig)
        ensures
            r.is_factory(fan_id),
    {
        let data = crate::curve::FanCurveData::factory(fan_id);
        FanConfig {
            mode: String::from_str("auto"),
            level: 0,
            rampup_curve: data.rampup_curve,
            rampdown_curve: data.rampdown_curve,
        }
    }

    /// A copy of the saved state.
    pub fn duplicate(&self) -> (r: FanConfig)
        ensures
            r == *self,
    {
        FanConfig {
            mode: self.mode.clone(),
            level: self.level,
            rampup_curve: self.rampup_curve,
            rampdown_curve: self.rampdown_curve,
        }
    }
}

impl Default for FanConfig {
    fn default() -> (r: FanConfig)
        ensures
            r.is_factory(1),
    {
        FanConfig::factory(1)
    }
}

/// A path below the data directory of a system drive.
pub open spec fn data_path(system_drive: Seq<char>, name: Seq<char>) -> Seq<char> {
    system_drive + DATA_DIR@ + name
}

/// A configured path made absolute: one without a drive letter is taken
/// to lie in the data directory.
pub open spec fn absolute_path(system_drive: Seq<char>, path: Seq<char>) -> Seq<char> {
    if path.contains(':') {
        path
    } else {
        data_path(system_drive, path)
    }
}

/// The operations that restore one fan's saved state: its mode, its level
/// unless the mode is automatic, and both curves.
pub open spec fn fan_restore(fan_id: u8, fc: FanConfig) -> Seq<EcOperation> {
    seq![EcOperation::SetFanMode(fan_id, fc.mode)] + (if fc.mode@ != "auto"@ {
        seq![EcOperation::SetFanLevel(fan_id, fc.level)]
    } else {
        Seq::empty()
    }) + seq![
        EcOperation::SetFanRampupCurve(fan_id, fc.rampup_curve),
        EcOperation::SetFanRampdownCurve(fan_id, fc.rampdown_curve),
    ]
}

pub open spec fn fan_restore_opt(fan_id: u8, fc: Option<FanConfig>) -> Seq<EcOperation> {
    match fc {
        Some(c) => fan_restore(fan_id, c),
        None => Seq::empty(),
    }
}

/// Everything a configuration restores, in order: the power mode if one is
/// saved, then fans 1, 2 and 3, each only if saved.
pub open spec fn restore_plan(c: ServerConfig) -> Seq<EcOperation> {
    (match c.apu_power_mode {
        Some(m) => seq![EcOperation::SetApuPowerMode(m)],
        None => Seq::empty(),
    }) + fan_restore_opt(1, c.fan1) + fan_restore_opt(2, c.fan2) + fan_restore_opt(3, c.fan3)
}

/// The saved state of fan `fan_id`.
pub open spec fn fan_slot(c: ServerConfig, fan_id: u8) -> Option<FanConfig> {
    if fan_id == 1 {
        c.fan1
    } else if fan_id == 2 {
        c.fan2
    } else {
        c.fan3
    }
}

/// The configuration with fan `fan_id` saved as `fc`.
pub open spec fn with_fan(c: ServerConfig, fan_id: u8, fc: FanConfig) -> ServerConfig {
    if fan_id == 1 {
        ServerConfig { fan1: Some(fc), ..c }
    } else if fan_id == 2 {
        ServerConfig { fan2: Some(fc), ..c }
    } else {
        ServerConfig { fan3: Some(fc), ..c }
    }
}

/// Whether the parts of a fan's saved state other than those named are
/// what was saved before, or the factory state of the first fan when nothing
/// was.
pub open spec fn keeps_others(
    slot: Option<FanConfig>,
    fc: FanConfig,
    mode: bool,
    level: bool,
    rampup: bool,
    rampdown: bool,
) -> bool {
    match slot {
        Some(s) => {
            &&& (mode || fc.mode == s.mode)
            &&& (level || fc.level == s.level)
            &&& (rampup || fc.rampup_curve == s.rampup_curve)
            &&& (rampdown || fc.rampdown_curve == s.rampdown_curve)
        },
        None => {
            &&& (mode || fc.mode@ == "auto"@)
            &&& (level || fc.level == 0)
            &&& (rampup || fc.rampup_curve@ == default_rampup(1))
            &&& (rampdown || fc.rampdown_curve@ == default_rampdown(1))
        },
    }
}

/// Whether `n` is `c` with only fan `fan_id` saved anew, as `fc`.
pub open spec fn fan_replaced(c: ServerConfig, n: ServerConfig, fan_id: u8, fc: FanConfig) -> bool {
    &&& n.host == c.host
    &&& n.port == c.port
    &&& n.log_path == c.log_path
    &&& n.driver_path == c.driver_path
    &&& n.apu_power_mode == c.apu_power_mode
    &&& fan_slot(n, fan_id) == Some(fc)
    &&& forall|g: u8| 1 <= g <= 3 && g != fan_id ==> #[trigger] fan_slot(n, g) == fan_slot(c, g)
}

/// Whether `n` is `c` with a successful operation remembered. Only changes
/// are remembered; a change to a fan that has no saved state starts from the
/// factory state of the first fan.
pub open spec fn remembers(c: ServerConfig, op: EcOperation, n: ServerConfig) -> bool {
    match op {
        EcOperation::SetApuPowerMode(m) => n == ServerConfig { apu_power_mode: Some(m), ..c },
        EcOperation::SetFanMode(f, m) => fan_slot(n, f) is Some && fan_replaced(c, n, f, fan_slot(n, f).unwrap())
            && fan_slot(n, f).unwrap().mode == m
            && keeps_others(fan_slot(c, f), fan_slot(n, f).unwrap(), true, false, false, false),
        EcOperation::SetFanLevel(f, l) => fan_slot(n, f) is Some && fan_replaced(c, n, f, fan_slot(n, f).unwrap())
            && fan_slot(n, f).unwrap().level == l
            && keeps_others(fan_slot(c, f), fan_slot(n, f).unwrap(), false, true, false, false),
        EcOperation::SetFanRampupCurve(f, v) => fan_slot(n, f) is Some && fan_replaced(c, n, f, fan_slot(n, f).unwrap())
            && fan_slot(n, f).unwrap().rampup_curve == v
            && keeps_others(fan_slot(c, f), fan_slot(n, f).unwrap(), false, false, true, false),
        EcOperation::SetFanRampdownCurve(f, v) => fan_slot(n, f) is Some && fan_replaced(c, n, f, fan_slot(n, f).unwrap())
            && fan_slot(n, f).unwrap().rampdown_curve == v
            && keeps_others(fan_slot(c, f), fan_slot(n, f).unwrap(), false, false, false, true),
        _ => n == c,
    }
}

/// A remembered change is replayed at the next start: after a power mode or
/// a fan mode was remembered, the restore plan sets it again.
pub proof fn lemma_remembered_mode_is_restored(c: ServerConfig, op: EcOperation, n: ServerConfig)
    requires
        op is SetApuPowerMode || op is SetFanMode,
        crate::operation::check_operation(op) is Ok,
        remembers(c, op, n),
    ensures
        restore_plan(n).contains(op),
{
    match op {
        EcOperation::SetApuPowerMode(m) => {
            assert(restore_plan(n)[0] == op);
        },
        EcOperation::SetFanMode(f, m) => {
            let pre = match n.apu_power_mode {
                Some(p) => seq![EcOperation::SetApuPowerMode(p)],
                None => Seq::<EcOperation>::empty(),
            };
            let fc = fan_slot(n, f).unwrap();
            assert(fan_restore(f, fc)[0] == op);
            let f1 = fan_restore_opt(1, n.fan1);
            let f2 = fan_restore_opt(2, n.fan2);
            let f3 = fan_restore_opt(3, n.fan3);
            assert(restore_plan(n) == pre + f1 + f2 + f3);
            if f == 1 {
                assert((pre + f1 + f2 + f3)[pre.len() as int] == op);
            } else if f == 2 {
                assert((pre + f1 + f2 + f3)[(pre.len() + f1.len()) as int] == op);
            } else {
                assert((pre + f1 + f2 + f3)[(pre.len() + f1.len() + f2.len()) as int] == op);
            }
        },
        _ => {},
    }
}

/// A fan's saved state with one change applied, starting from the factory
/// state of the first fan when nothing is saved.
fn changed_fan(
    slot: &Option<FanConfig>,
    mode: Option<String>,
    level: Option<u8>,
    rampup: Option<[u8; 5]>,
    rampdown: Option<[u8; 5]>,
) -> (r: FanConfig)
    ensures
        mode is Some ==> r.mode == mode.unwrap(),
        level is Some ==> r.level == level.unwrap(),
        rampup is Some ==> r.rampup_curve == rampup.unwrap(),
        rampdown is Some ==> r.rampdown_curve == rampdown.unwrap(),
        keeps_others(*slot, r, mode is Some, level is Some, rampup is Some, rampdown is Some),
{
    let mut fc = match slot {
        Some(saved) => saved.duplicate(),
        None => FanConfig::default(),
    };
    if let Some(m) = mode {
        fc.mode = m;
    }
    if let Some(l) = level {
        fc.level = l;
    }
    if let Some(v) = rampup {
        fc.rampup_curve = v;
    }
    if let Some(v) = rampdown {
        fc.rampdown_curve = v;
    }
    fc
}

impl ServerConfig {
    /// The configuration used when none is saved: listen on the loopback
    /// address at port 8395, keep the log and the driver in the data
    /// directory of the system drive, leave the power mode alone, and hold
    /// the factory state of each fan.
    pub fn for_system_drive(system_drive: &str) -> (r: ServerConfig)
        ensures
            r.host@ == "127.0.0.1"@,
            r.port == 8395,
            r.log_path@ == data_path(system_drive@, "server.log"@),
            r.driver_path@ == data_path(system_drive@, "winring0"@),
            r.apu_power_mode is None,
            r.fan1 is Some && r.fan1.unwrap().is_factory(1),
            r.fan2 is Some && r.fan2.unwrap().is_factory(2),
            r.fan3 is Some && r.fan3.unwrap().is_factory(3),
    {
        ServerConfig {
            host: String::from_str("127.0.0.1"),
            port: 8395,
            log_path: data_file(system_drive, "server.log"),
            driver_path: data_file(system_drive, "winring0"),
            apu_power_mode: None,
            fan1: Some(FanConfig::factory(1)),
            fan2: Some(FanConfig::factory(2)),
            fan3: Some(FanConfig::factory(3)),
        }
    }

    /// Makes the log and driver paths absolute: a path without a drive
    /// letter is taken to lie in the data directory.
    pub fn resolve_paths(&mut self, system_drive: &str)
        ensures
            final(self).log_path@ == absolute_path(system_drive@, old(self).log_path@),
            final(self).driver_path@ == absolute_path(system_drive@, old(self).driver_path@),
            final(self).host == old(self).host,
            final(self).port == old(self).port,
            final(self).apu_power_mode == old(self).apu_power_mode,
            final(self).fan1 == old(self).fan1,
            final(self).fan2 == old(self).fan2,
            final(self).fan3 == old(self).fan3,
    {
        if !has_char(self.log_path.as_str(), ':') {
            self.log_path = data_file(system_drive, self.log_path.as_str());
        }
        if !has_char(self.driver_path.as_str(), ':') {
            self.driver_path = data_file(system_drive, self.driver_path.as_str());
        }
    }

    /// The operations that bring the controller back to the saved state, in
    /// the order they are to be run. Nothing is done for what is not saved.
    pub fn restore_operations(&self) -> (r: Vec<EcOperation>)
        ensures
            r@ == restore_plan(*self),
    {
        let mut ops: Vec<EcOperation> = Vec::new();
        if let Some(m) = &self.apu_power_mode {
            ops.push(EcOperation::SetApuPowerMode(m.clone()));
        }
        proof {
            assert(ops@ =~= match self.apu_power_mode {
                Some(m) => seq![EcOperation::SetApuPowerMode(m)],
                None => Seq::<EcOperation>::empty(),
            });
        }
        push_fan_restore(&mut ops, 1, &self.fan1);
        push_fan_restore(&mut ops, 2, &self.fan2);
        push_fan_restore(&mut ops, 3, &self.fan3);
        ops
    }

    /// Remembers a successful operation, so that the next start restores
    /// it. Reads are not remembered.
    pub fn remember(&mut self, op: &EcOperation)
        requires
            crate::operation::check_operation(*op) is Ok,
        ensures
            remembers(*old(self), *op, *final(self)),
    {
        match op {
            EcOperation::SetApuPowerMode(m) => {
                self.apu_power_mode = Some(m.clone());
            },
            EcOperation::SetFanMode(f, m) => {
                let fc = changed_fan(self.slot(*f), Some(m.clone()), None, None, None);
                self.store(*f, fc);
            },
            EcOperation::SetFanLevel(f, l) => {
                let fc = changed_fan(self.slot(*f), None, Some(*l), None, None);
                self.store(*f, fc);
            },
            EcOperation::SetFanRampupCurve(f, v) => {
                let fc = changed_fan(self.slot(*f), None, None, Some(*v), None);
                self.store(*f, fc);
            },
            EcOperation::SetFanRampdownCurve(f, v) => {
                let fc = changed_fan(self.slot(*f), None, None, None, Some(*v));
                self.store(*f, fc);
            },
            _ => {},
        }
    }

    fn slot(&self, fan_id: u8) -> (r: &Option<FanConfig>)
        requires
            valid_fan(fan_id),
        ensures
            *r == fan_slot(*self, fan_id),
    {
        if fan_id == 1 {
            &self.fan1
        } else if fan_id == 2 {
            &self.fan2
        } else {
            &self.fan3
        }
    }

    fn store(&mut self, fan_id: u8, fc: FanConfig)
        requires
            valid_fan(fan_id),
        ensures
            fan_replaced(*old(self), *final(self), fan_id, fc),
    {
        if fan_id == 1 {
            self.fan1 = Some(fc);
        } else if fan_id == 2 {
            self.fan2 = Some(fc);
        } else {
            self.fan3 = Some(fc);
        }
    }
}

/// A path in the data directory of a system drive.
fn data_file(system_drive: &str, name: &str) -> (r: String)
    ensures
        r@ == data_path(system_drive@, name@),
{
    let mut path = String::from_str(system_drive);
    path.append(DATA_DIR);
    path.append(name);
    path
}

fn push_fan_restore(ops: &mut Vec<EcOperation>, fan_id: u8, slot: &Option<FanConfig>)
    ensures
        final(ops)@ == old(ops)@ + fan_restore_opt(fan_id, *slot),
{
    if let Some(fc) = slot {
        ops.push(EcOperation::SetFanMode(fan_id, fc.mode.clone()));
        if !same_text(fc.mode.as_str(), "auto") {
            ops.push(EcOperation::SetFanLevel(fan_id, fc.level));
        }
        ops.push(EcOperation::SetFanRampupCurve(fan_id, fc.rampup_curve));
        ops.push(EcOperation::SetFanRampdownCurve(fan_id, fc.rampdown_curve));
        assert(final(ops)@ =~= old(ops)@ + fan_restore_opt(fan_id, *slot));
    } else {
        assert(ops@ =~= old(ops)@ + fan_restore_opt(fan_id, *slot));
    }
}

} // verus!
