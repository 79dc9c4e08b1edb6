//! Bring-up of the privileged port transport: make sure its kernel driver is
//! registered as an on-demand service and running before the controller
//! opens it.
//!
//! The decisions form a state machine. `Lifecycle::action` names what the
//! host has to do next; the host does it and reports how it went with
//! `Lifecycle::advance`. An installation that fails is cleaned up and tried
//! exactly once more; a service that already exists is started as it is.
use vstd::prelude::*;

verus! {

/// Settle time after a successful installation, in milliseconds.
pub const SETTLE_DELAY_MS: u32 = 500;
/// Time given to the system to release a deleted registration, in milliseconds.
pub const CLEANUP_DELAY_MS: u32 = 2000;

/// Why the transport could not be brought up.
#[derive(Clone, Copy, Debug, PartialEq, Eq, Structural)]
pub enum LifecycleError {
    /// The driver binary is not where it should be, or its path cannot be resolved.
    DriverNotFound,
    /// Installing the driver failed twice.
    InstallFailed,
}

/// What the host has to do next.
#[derive(Clone, Copy, Debug, PartialEq, Eq, Structural)]
pub enum LifecycleAction {
    /// Try to open the transport.
    ProbeTransport,
    /// Find the driver binary for this CPU and resolve its absolute path.
    LocateDriver,
    /// Register the driver as an on-demand kernel-mode service.
    CreateService,
    /// Open the registration that already exists.
    OpenExistingService,
    /// Start the registered service.
    StartService,
    /// Stop and delete whatever registration exists.
    DeleteService,
    /// Wait this many milliseconds.
    Wait(u32),
    /// The transport is available.
    Ready,
    /// Bring-up has failed for good.
    Fatal(LifecycleError),
}

/// How the last action went.
#[derive(Clone, Copy, Debug, PartialEq, Eq, Structural)]
pub enum LifecycleEvent {
    Succeeded,
    /// Registering found a service of that name already there.
    AlreadyExists,
    /// Starting found the service already running.
    AlreadyRunning,
    Failed,
}

/// Where bring-up stands. The number in the installation phases is the
/// attempt, 1 or 2.
#[derive(Clone, Copy, Debug, PartialEq, Eq, Structural)]
pub enum Phase {
    Probe,
    Locate,
    Create(u8),
    OpenExisting(u8),
    Start(u8),
    Delete,
    CleanupWait,
    SettleWait,
    Ready,
    Fatal(LifecycleError),
}

pub open spec fn valid_phase(p: Phase) -> bool {
    match p {
        Phase::Create(k) | Phase::OpenExisting(k) | Phase::Start(k) => k == 1 || k == 2,
        _ => true,
    }
}

pub open spec fn is_terminal(p: Phase) -> bool {
    p is Ready || p is Fatal
}

/// The action each phase asks for.
pub open spec fn phase_action(p: Phase) -> LifecycleAction {
    match p {
        Phase::Probe => LifecycleAction::ProbeTransport,
        Phase::Locate => LifecycleAction::LocateDriver,
        Phase::Create(_) => LifecycleAction::CreateService,
        Phase::OpenExisting(_) => LifecycleAction::OpenExistingService,
        Phase::Start(_) => LifecycleAction::StartService,
        Phase::Delete => LifecycleAction::DeleteService,
        Phase::CleanupWait => LifecycleAction::Wait(CLEANUP_DELAY_MS),
        Phase::SettleWait => LifecycleAction::Wait(SETTLE_DELAY_MS),
        Phase::Ready => LifecycleAction::Ready,
        Phase::Fatal(e) => LifecycleAction::Fatal(e),
    }
}

/// Where a failed installation attempt leads: cleanup after the first,
/// failure for good after the second.
pub open spec fn after_failed_install(attempt: u8) -> Phase {
    if attempt == 1 {
        Phase::Delete
    } else {
        Phase::Fatal(LifecycleError::InstallFailed)
    }
}

/// The phase after an event.
pub open spec fn next_phase(p: Phase, e: LifecycleEvent) -> Phase {
    match p {
        Phase::Probe => if e == LifecycleEvent::Succeeded {
            Phase::Ready
        } else {
            Phase::Locate
        },
        Phase::Locate => if e == LifecycleEvent::Succeeded {
            Phase::Create(1)
        } else {
            Phase::Fatal(LifecycleError::DriverNotFound)
        },
        Phase::Create(k) => if e == LifecycleEvent::Succeeded {
            Phase::Start(k)
        } else if e == LifecycleEvent::AlreadyExists {
            Phase::OpenExisting(k)
        } else {
            after_failed_install(k)
        },
        Phase::OpenExisting(k) => if e == LifecycleEvent::Succeeded {
            Phase::Start(k)
        } else {
            after_failed_install(k)
        },
        Phase::Start(k) => if e == LifecycleEvent::Succeeded || e == LifecycleEvent::AlreadyRunning {
            Phase::SettleWait
        } else {
            after_failed_install(k)
        },
        Phase::Delete => Phase::CleanupWait,
        Phase::CleanupWait => Phase::Create(2),
        Phase::SettleWait => Phase::Ready,
        Phase::Ready => Phase::Ready,
        Phase::Fatal(err) => Phase::Fatal(err),
    }
}

/// How many actions bring-up can still ask for at most.
pub open spec fn rank(p: Phase) -> nat {
    match p {
        Phase::Probe => 11,
        Phase::Locate => 10,
        Phase::Create(k) => if k == 1 {
            9
        } else {
            4
        },
        Phase::OpenExisting(k) => if k == 1 {
            8
        } else {
            3
        },
        Phase::Start(k) => if k == 1 {
            7
        } else {
            2
        },
        Phase::Delete => 6,
        Phase::CleanupWait => 5,
        Phase::SettleWait => 1,
        Phase::Ready => 0,
        Phase::Fatal(_) => 0,
    }
}

/// The bring-up state machine.
#[derive(Clone, Copy, Debug)]
pub struct Lifecycle {
    pub phase: Phase,
}

impl Lifecycle {
    /// Bring-up starts by probing for a transport that is already there.
    pub fn new() -> (r: Lifecycle)
        ensures
            r.phase == Phase::Probe,
    {
        Lifecycle { phase: Phase::Probe }
    }

    /// The action the host has to take next.
    pub fn action(&self) -> (r: LifecycleAction)
        ensures
            r == phase_action(self.phase),
    {
        match self.phase {
            Phase::Probe => LifecycleAction::ProbeTransport,
            Phase::Locate => LifecycleAction::LocateDriver,
            Phase::Create(_) => LifecycleAction::CreateService,
            Phase::OpenExisting(_) => LifecycleAction::OpenExistingService,
            Phase::Start(_) => LifecycleAction::StartService,
            Phase::Delete => LifecycleAction::DeleteService,
            Phase::CleanupWait => LifecycleAction::Wait(CLEANUP_DELAY_MS),
            Phase::SettleWait => LifecycleAction::Wait(SETTLE_DELAY_MS),
            Phase::Ready => LifecycleAction::Ready,
            Phase::Fatal(e) => LifecycleAction::Fatal(e),
        }
    }

    /// Takes how the last action went. Until bring-up is over each event
    /// brings it strictly closer to the end.
    pub fn advance(&mut self, event: LifecycleEvent)
        requires
            valid_phase(old(self).phase),
        ensures
            final(self).phase == next_phase(old(self).phase, event),
            valid_phase(final(self).phase),
            !is_terminal(old(self).phase) ==> rank(final(self).phase) < rank(old(self).phase),
    {
        let failed_install = |k: u8| -> (r: Phase)
            ensures
                r == after_failed_install(k),
            {
                if k == 1 {
                    Phase::Delete
                } else {
                    Phase::Fatal(LifecycleError::InstallFailed)
                }
            };
        let next = match self.phase {
            Phase::Probe => if event == LifecycleEvent::Succeeded {
                Phase::Ready
            } else {
                Phase::Locate
            },
            Phase::Locate => if event == LifecycleEvent::Succeeded {
                Phase::Create(1)
            } else {
                Phase::Fatal(LifecycleError::DriverNotFound)
            },
            Phase::Create(k) => if event == LifecycleEvent::Succeeded {
                Phase::Start(k)
            } else if event == LifecycleEvent::AlreadyExists {
                Phase::OpenExisting(k)
            } else {
                failed_install(k)
            },
            Phase::OpenExisting(k) => if event == LifecycleEvent::Succeeded {
                Phase::Start(k)
            } else {
                failed_install(k)
            },
            Phase::Start(k) => if event == LifecycleEvent::Succeeded || event
                == LifecycleEvent::AlreadyRunning {
                Phase::SettleWait
            } else {
                failed_install(k)
            },
            Phase::Delete => Phase::CleanupWait,
            Phase::CleanupWait => Phase::Create(2),
            Phase::SettleWait => Phase::Ready,
            Phase::Ready => Phase::Ready,
            Phase::Fatal(err) => Phase::Fatal(err),
        };
        self.phase = next;
    }
}

/// The file name of the transport driver for a CPU architecture.
pub fn driver_file_name(x86_64: bool) -> (r: &'static str)
    ensures
        x86_64 ==> r@ == "WinRing0x64.sys"@,
        !x86_64 ==> r@ == "WinRing0.sys"@,
{
    if x86_64 {
        "WinRing0x64.sys"
    } else {
        "WinRing0.sys"
    }
}

/// Installation is tried at most twice: a failure in the first attempt
/// leads to cleanup and then a second attempt, a failure in the second is
/// fatal, and a registration that already exists is started rather than
/// counted as a failure.
pub proof fn lemma_install_retried_once(k: u8, e: LifecycleEvent)
    requires
        k == 1 || k == 2,
        e == LifecycleEvent::Failed,
    ensures
        k == 1 ==> next_phase(Phase::Create(k), e) == Phase::Delete
            && next_phase(Phase::Delete, e) == Phase::CleanupWait
            && next_phase(Phase::CleanupWait, e) == Phase::Create(2),
        k == 2 ==> next_phase(Phase::Create(k), e) == Phase::Fatal(LifecycleError::InstallFailed),
        next_phase(Phase::Create(k), LifecycleEvent::AlreadyExists) == Phase::OpenExisting(k),
        next_phase(Phase::Start(k), LifecycleEvent::AlreadyRunning) == Phase::SettleWait,
{
}

} // verus!
