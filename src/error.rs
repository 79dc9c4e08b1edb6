use vstd::prelude::*;

verus! {

/// Everything an operation on the embedded controller can fail with.
///
/// Invalid input is rejected before the hardware is touched; unexpected chip
/// values and communication failures come from the hardware; the last two
/// come from the operation queue and say that the controller itself is down.
#[derive(Clone, Copy, Debug, PartialEq, Eq, Structural)]
pub enum EcError {
    /// A fan number outside `1..=3`.
    InvalidFanId(u8),
    /// A fan level above 5.
    InvalidFanLevel(u8),
    /// A fan mode other than "auto", "fixed" or "curve".
    InvalidFanMode,
    /// A power mode other than "balanced", "performance" or "quiet".
    InvalidPowerMode,
    /// A curve threshold above 100 degrees.
    InvalidCurveValue,
    /// The firmware version registers read all zeros or all ones.
    NoFirmware { major: u8, minor: u8 },
    /// The power mode register holds a byte outside the known mapping.
    UnknownPowerMode(u8),
    /// A fan mode register holds a byte outside the known mapping.
    UnknownFanMode(u8),
    /// An operation answered with a result of another kind than asked for.
    UnexpectedResult,
    /// A register read failed after every retry of the handshake.
    ReadFailed,
    /// A register write failed after every retry of the handshake.
    WriteFailed,
    /// The operation queue no longer accepts work.
    QueueUnavailable,
    /// The queue dropped a request without replying.
    CommunicationTimeout,
}

impl EcError {
    /// Whether the error is a caller's mistake, found before any hardware access.
    pub open spec fn spec_is_invalid_input(&self) -> bool {
        match self {
            EcError::InvalidFanId(_) | EcError::InvalidFanLevel(_) | EcError::InvalidFanMode
            | EcError::InvalidPowerMode | EcError::InvalidCurveValue => true,
            _ => false,
        }
    }

    /// Whether the error is a caller's mistake, found before any hardware access.
    #[verifier::when_used_as_spec(spec_is_invalid_input)]
    pub fn is_invalid_input(&self) -> (r: bool)
        ensures
            r == self.spec_is_invalid_input(),
    {
        match self {
            EcError::InvalidFanId(_) | EcError::InvalidFanLevel(_) | EcError::InvalidFanMode
            | EcError::InvalidPowerMode | EcError::InvalidCurveValue => true,
            _ => false,
        }
    }
}

} // verus!
