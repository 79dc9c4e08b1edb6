//! The two-port handshake that carries one register access to the embedded
//! controller, with its bounded status polling and its retries.
//!
//! A `Handshake` is a state machine: it names the port request to perform
//! next (`request`) and takes the reply of the port transport (`advance`),
//! until it hands back the outcome of the access. Each wait polls the status
//! port at most `POLL_LIMIT` times; an attempt that times out or meets a
//! transport failure starts over, up to `MAX_ATTEMPTS` attempts in all.
use vstd::prelude::*;
use crate::operation::{RegisterAccess, RegisterReply};
use crate::registers::{
    COMMAND_PORT, DATA_PORT, READ_COMMAND, WRITE_COMMAND, INPUT_BUFFER_FULL, OUTPUT_BUFFER_FULL,
};

verus! {

/// Status reads per wait before the wait times out.
pub const POLL_LIMIT: u32 = 500;
/// Attempts of a whole handshake before the access fails.
pub const MAX_ATTEMPTS: u32 = 5;

/// One request to the port transport.
#[derive(Clone, Copy, Debug, PartialEq, Eq, Structural)]
pub enum PortRequest {
    /// Read a byte from a port.
    Read(u16),
    /// Write a byte to a port.
    Write(u16, u8),
}

/// What the port transport answered.
#[derive(Clone, Copy, Debug, PartialEq, Eq, Structural)]
pub enum PortReply {
    /// The byte read.
    Byte(u8),
    /// The byte was written.
    Written,
    /// The transport could not carry out the request.
    Failed,
}

/// One stage of a handshake.
#[derive(Clone, Copy, Debug, PartialEq, Eq, Structural)]
pub enum Stage {
    /// Poll the status port until the controller has taken the last byte.
    AwaitInputEmpty,
    /// Poll the status port until the controller has a byte to hand out.
    AwaitOutputFull,
    /// Write a byte to a port.
    Send(u16, u8),
    /// Read the data port.
    Fetch,
}

/// The number of stages of the handshake for an access.
pub open spec fn stage_count(access: RegisterAccess) -> u32 {
    match access {
        RegisterAccess::Read(_) => 7,
        RegisterAccess::Write(_, _) => 6,
    }
}

/// The stages of a handshake. A read: wait, read command, wait, register,
/// wait for the input and then the output buffer, fetch. A write: wait,
/// write command, wait, register, wait, value.
pub open spec fn stage_of(access: RegisterAccess, i: u32) -> Stage {
    if i == 0 || i == 2 || i == 4 {
        Stage::AwaitInputEmpty
    } else if i == 1 {
        match access {
            RegisterAccess::Read(_) => Stage::Send(COMMAND_PORT, READ_COMMAND),
            RegisterAccess::Write(_, _) => Stage::Send(COMMAND_PORT, WRITE_COMMAND),
        }
    } else if i == 3 {
        match access {
            RegisterAccess::Read(reg) => Stage::Send(DATA_PORT, reg),
            RegisterAccess::Write(reg, _) => Stage::Send(DATA_PORT, reg),
        }
    } else {
        match access {
            RegisterAccess::Read(_) => if i == 5 {
                Stage::AwaitOutputFull
            } else {
                Stage::Fetch
            },
            RegisterAccess::Write(_, value) => Stage::Send(DATA_PORT, value),
        }
    }
}

/// Whether a status byte ends a wait.
pub open spec fn status_ready(stage: Stage, status: u8) -> bool {
    match stage {
        Stage::AwaitInputEmpty => status & INPUT_BUFFER_FULL == 0,
        Stage::AwaitOutputFull => status & OUTPUT_BUFFER_FULL != 0,
        _ => false,
    }
}

/// The port request a stage makes.
pub open spec fn stage_request(stage: Stage) -> PortRequest {
    match stage {
        Stage::Send(port, value) => PortRequest::Write(port, value),
        Stage::Fetch => PortRequest::Read(DATA_PORT),
        _ => PortRequest::Read(COMMAND_PORT),
    }
}

/// The state of one register access on the wire: the attempt (from 0), the
/// stage within it, and the status reads spent on the current wait.
#[derive(Clone, Copy, Debug)]
pub struct Handshake {
    pub access: RegisterAccess,
    pub attempt: u32,
    pub stage: u32,
    pub polls: u32,
}

impl Handshake {
    pub open spec fn wf(self) -> bool {
        &&& self.attempt < MAX_ATTEMPTS
        &&& self.stage < stage_count(self.access)
        &&& self.polls < POLL_LIMIT
    }

    pub open spec fn current(self) -> Stage {
        stage_of(self.access, self.stage)
    }

    /// An upper bound on the port requests the access can still make; every
    /// reply that does not end the access makes it smaller.
    pub open spec fn remaining(self) -> nat {
        ((MAX_ATTEMPTS - self.attempt) * 4000 - self.stage * 500 - self.polls) as nat
    }

    /// The first stage of the next attempt.
    pub open spec fn restarted(self) -> Handshake {
        Handshake { attempt: (self.attempt + 1) as u32, stage: 0, polls: 0, ..self }
    }

    pub open spec fn next_stage(self) -> Handshake {
        Handshake { stage: (self.stage + 1) as u32, polls: 0, ..self }
    }

    /// The current attempt failed: start over, or give up after the last.
    pub open spec fn give_up_or_retry(self) -> (Handshake, Option<RegisterReply>) {
        if self.attempt + 1 >= MAX_ATTEMPTS {
            (self, Some(RegisterReply::Failed))
        } else {
            (self.restarted(), None)
        }
    }

    /// Whether a reply ends the current attempt in failure: a transport
    /// failure, a reply of the wrong kind, or the last allowed status read of
    /// a wait that still finds the controller busy.
    pub open spec fn attempt_fails(self, reply: PortReply) -> bool {
        match self.current() {
            Stage::AwaitInputEmpty | Stage::AwaitOutputFull => match reply {
                PortReply::Byte(status) => !status_ready(self.current(), status) && self.polls + 1
                    >= POLL_LIMIT,
                _ => true,
            },
            Stage::Send(_, _) => reply != PortReply::Written,
            Stage::Fetch => !(reply is Byte),
        }
    }

    /// The state after a reply, and the outcome of the access once it ends.
    pub open spec fn step(self, reply: PortReply) -> (Handshake, Option<RegisterReply>) {
        if self.attempt_fails(reply) {
            self.give_up_or_retry()
        } else {
            match self.current() {
                Stage::AwaitInputEmpty | Stage::AwaitOutputFull => match reply {
                    PortReply::Byte(status) => if status_ready(self.current(), status) {
                        (self.next_stage(), None)
                    } else {
                        (Handshake { polls: (self.polls + 1) as u32, ..self }, None)
                    },
                    _ => (self, None),
                },
                Stage::Send(_, _) => if self.stage + 1 == stage_count(self.access) {
                    (self, Some(RegisterReply::Written))
                } else {
                    (self.next_stage(), None)
                },
                Stage::Fetch => match reply {
                    PortReply::Byte(v) => (self, Some(RegisterReply::Value(v))),
                    _ => (self, None),
                },
            }
        }
    }

    /// The handshake for an access, at the first stage of its first attempt.
    pub fn new(access: RegisterAccess) -> (r: Handshake)
        ensures
            r.wf(),
            r.access == access,
            r.attempt == 0 && r.stage == 0 && r.polls == 0,
    {
        Handshake { access, attempt: 0, stage: 0, polls: 0 }
    }

    fn current_stage(&self) -> (r: Stage)
        requires
            self.wf(),
        ensures
            r == self.current(),
    {
        let i = self.stage;
        if i == 0 || i == 2 || i == 4 {
            Stage::AwaitInputEmpty
        } else if i == 1 {
            match self.access {
                RegisterAccess::Read(_) => Stage::Send(COMMAND_PORT, READ_COMMAND),
                RegisterAccess::Write(_, _) => Stage::Send(COMMAND_PORT, WRITE_COMMAND),
            }
        } else if i == 3 {
            match self.access {
                RegisterAccess::Read(reg) => Stage::Send(DATA_PORT, reg),
                RegisterAccess::Write(reg, _) => Stage::Send(DATA_PORT, reg),
            }
        } else {
            match self.access {
                RegisterAccess::Read(_) => if i == 5 {
                    Stage::AwaitOutputFull
                } else {
                    Stage::Fetch
                },
                RegisterAccess::Write(_, value) => Stage::Send(DATA_PORT, value),
            }
        }
    }

    /// The port request to perform next.
    pub fn request(&self) -> (r: PortRequest)
        requires
            self.wf(),
        ensures
            r == stage_request(self.current()),
    {
        match self.current_stage() {
            Stage::Send(port, value) => PortRequest::Write(port, value),
            Stage::Fetch => PortRequest::Read(DATA_PORT),
            _ => PortRequest::Read(COMMAND_PORT),
        }
    }

    fn fail_attempt(&mut self) -> (r: Option<RegisterReply>)
        requires
            old(self).wf(),
        ensures
            (*final(self), r) == old(self).give_up_or_retry(),
    {
        if self.attempt + 1 >= MAX_ATTEMPTS {
            Some(RegisterReply::Failed)
        } else {
            self.attempt = self.attempt + 1;
            self.stage = 0;
            self.polls = 0;
            None
        }
    }

    /// Takes the transport's reply to the last request. Returns the outcome
    /// of the access once it has ended; until then the handshake stays well
    /// formed and has fewer requests left to make.
    pub fn advance(&mut self, reply: PortReply) -> (r: Option<RegisterReply>)
        requires
            old(self).wf(),
        ensures
            (*final(self), r) == old(self).step(reply),
            r is None ==> final(self).wf() && final(self).access == old(self).access
                && final(self).remaining() < old(self).remaining(),
    {
        let stage = self.current_stage();
        match stage {
            Stage::AwaitInputEmpty | Stage::AwaitOutputFull => match reply {
                PortReply::Byte(status) => {
                    let ready = match stage {
                        Stage::AwaitInputEmpty => status & INPUT_BUFFER_FULL == 0,
                        _ => status & OUTPUT_BUFFER_FULL != 0,
                    };
                    if ready {
                        self.stage = self.stage + 1;
                        self.polls = 0;
                        None
                    } else if self.polls + 1 >= POLL_LIMIT {
                        self.fail_attempt()
                    } else {
                        self.polls = self.polls + 1;
                        None
                    }
                },
                _ => self.fail_attempt(),
            },
            Stage::Send(_, _) => {
                if reply != PortReply::Written {
                    self.fail_attempt()
                } else if self.stage + 1 == self.count() {
                    Some(RegisterReply::Written)
                } else {
                    self.stage = self.stage + 1;
                    self.polls = 0;
                    None
                }
            },
            Stage::Fetch => match reply {
                PortReply::Byte(v) => Some(RegisterReply::Value(v)),
                _ => self.fail_attempt(),
            },
        }
    }

    fn count(&self) -> (r: u32)
        ensures
            r == stage_count(self.access),
    {
        match self.access {
            RegisterAccess::Read(_) => 7,
            RegisterAccess::Write(_, _) => 6,
        }
    }
}

/// The retry ceiling: an attempt that fails in any of the first four attempts
/// starts the handshake over from its first stage, without an outcome; a
/// failure in the fifth attempt ends the access with a failure.
pub proof fn lemma_retry_ceiling(h: Handshake, reply: PortReply)
    requires
        h.wf(),
        h.attempt_fails(reply),
    ensures
        h.attempt + 1 < MAX_ATTEMPTS ==> h.step(reply) == (h.restarted(), None::<RegisterReply>),
        h.attempt + 1 < MAX_ATTEMPTS ==> h.restarted().wf() && h.restarted().stage == 0,
        h.attempt + 1 == MAX_ATTEMPTS ==> h.step(reply).1 == Some(RegisterReply::Failed),
{
}

/// An attempt that gets through its last stage ends the access with success,
/// whichever attempt it is: the byte fetched for a read, the write done for a
/// write.
pub proof fn lemma_last_stage_succeeds(h: Handshake, reply: PortReply)
    requires
        h.wf(),
        h.stage + 1 == stage_count(h.access),
        !h.attempt_fails(reply),
    ensures
        h.access is Read ==> h.step(reply).1 == Some(RegisterReply::Value(reply->Byte_0)),
        h.access is Write ==> h.step(reply).1 == Some(RegisterReply::Written),
{
}

/// A wait gives up after the poll limit: the last allowed status read that
/// still finds the controller busy fails the attempt.
pub proof fn lemma_wait_times_out(h: Handshake, status: u8)
    requires
        h.wf(),
        h.current() is AwaitInputEmpty || h.current() is AwaitOutputFull,
        !status_ready(h.current(), status),
        h.polls + 1 == POLL_LIMIT,
    ensures
        h.attempt_fails(PortReply::Byte(status)),
{
}

} // verus!
