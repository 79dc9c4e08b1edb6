use ec_su_axb35::link::{Handshake, PortReply, PortRequest, MAX_ATTEMPTS, POLL_LIMIT};
use ec_su_axb35::operation::{RegisterAccess, RegisterReply};

/// A port transport that fails every request of the first `broken` attempts
/// and otherwise answers like an idle controller holding `data`.
struct MockPorts {
    broken: u32,
    data: u8,
    log: Vec<PortRequest>,
}

impl MockPorts {
    fn answer(&mut self, h: &Handshake, req: PortRequest) -> PortReply {
        self.log.push(req);
        if h.attempt < self.broken {
            return PortReply::Failed;
        }
        match req {
            PortRequest::Read(0x66) => PortReply::Byte(0x01),
            PortRequest::Read(_) => PortReply::Byte(self.data),
            PortRequest::Write(_, _) => PortReply::Written,
        }
    }
}

fn drive(access: RegisterAccess, ports: &mut MockPorts) -> (RegisterReply, u32) {
    let mut h = Handshake::new(access);
    let mut requests = 0u32;
    loop {
        let req = h.request();
        let reply = ports.answer(&h, req);
        requests += 1;
        if let Some(outcome) = h.advance(reply) {
            return (outcome, requests);
        }
    }
}

#[test]
fn four_failed_attempts_then_success() {
    let mut ports = MockPorts { broken: 4, data: 0x42, log: Vec::new() };
    let (outcome, _) = drive(RegisterAccess::Read(0x70), &mut ports);
    assert_eq!(outcome, RegisterReply::Value(0x42));
}

#[test]
fn five_failed_attempts_fail_the_access() {
    let mut ports = MockPorts { broken: 5, data: 0x42, log: Vec::new() };
    let (outcome, requests) = drive(RegisterAccess::Read(0x70), &mut ports);
    assert_eq!(outcome, RegisterReply::Failed);
    assert_eq!(requests, MAX_ATTEMPTS);
}

#[test]
fn read_handshake_sequence() {
    let mut ports = MockPorts { broken: 0, data: 0x37, log: Vec::new() };
    let (outcome, _) = drive(RegisterAccess::Read(0x31), &mut ports);
    assert_eq!(outcome, RegisterReply::Value(0x37));
    assert_eq!(
        ports.log,
        vec![
            PortRequest::Read(0x66),
            PortRequest::Write(0x66, 0x80),
            PortRequest::Read(0x66),
            PortRequest::Write(0x62, 0x31),
            PortRequest::Read(0x66),
            PortRequest::Read(0x66),
            PortRequest::Read(0x62),
        ]
    );
}

#[test]
fn write_handshake_sequence() {
    let mut ports = MockPorts { broken: 0, data: 0, log: Vec::new() };
    let (outcome, _) = drive(RegisterAccess::Write(0x22, 0x13), &mut ports);
    assert_eq!(outcome, RegisterReply::Written);
    assert_eq!(
        ports.log,
        vec![
            PortRequest::Read(0x66),
            PortRequest::Write(0x66, 0x81),
            PortRequest::Read(0x66),
            PortRequest::Write(0x62, 0x22),
            PortRequest::Read(0x66),
            PortRequest::Write(0x62, 0x13),
        ]
    );
}

#[test]
fn busy_controller_times_out_after_the_poll_limit() {
    // The input buffer never empties: every wait uses up its polls.
    let mut h = Handshake::new(RegisterAccess::Write(0x22, 0x13));
    let mut status_reads = 0u32;
    let outcome = loop {
        assert_eq!(h.request(), PortRequest::Read(0x66));
        status_reads += 1;
        if let Some(outcome) = h.advance(PortReply::Byte(0x02)) {
            break outcome;
        }
    };
    assert_eq!(outcome, RegisterReply::Failed);
    assert_eq!(status_reads, POLL_LIMIT * MAX_ATTEMPTS);
}

#[test]
fn a_wait_that_clears_moves_on() {
    let mut h = Handshake::new(RegisterAccess::Read(0x00));
    assert_eq!(h.advance(PortReply::Byte(0x02)), None);
    assert_eq!(h.polls, 1);
    assert_eq!(h.advance(PortReply::Byte(0x00)), None);
    assert_eq!(h.stage, 1);
    assert_eq!(h.polls, 0);
    assert_eq!(h.request(), PortRequest::Write(0x66, 0x80));
}
