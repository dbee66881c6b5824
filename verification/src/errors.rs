use vstd::prelude::*;

verus! {

/// Decode-time failures. Each one is recoverable at the connection level:
/// the offending datagram is dropped and the receive loop continues.
#[derive(Clone, Copy, Debug, PartialEq, Eq, Structural)]
pub enum PacketError {
    /// Header bytes insufficient or inconsistent.
    MalformedHeader,
    /// No message variant is registered for the (frequency, id) pair.
    UnknownMessageType,
    /// A registered variant's body is shorter than its fixed size.
    BodyTooShort,
    /// A fixed-size variant with no optional trailing fields was handed
    /// extra bytes.
    BodyTooLong,
}

/// The identity fields that a successful authentication response owes the
/// bootstrap; the absence of any one of them is a contract violation by the
/// remote system.
#[derive(Clone, Copy, Debug, PartialEq, Eq, Structural)]
pub enum IdentityField {
    SimIp,
    SimPort,
    AgentId,
    SessionId,
}

/// The bootstrap phase whose router delivery failed. Kept distinct so a
/// caller knows whether reconnection must restart from authentication or
/// only from circuit re-allocation.
#[derive(Clone, Copy, Debug, PartialEq, Eq, Structural)]
pub enum BootstrapPhase {
    SessionDelivery,
    CircuitCodeDelivery,
    CompleteAgentMovementDelivery,
}

/// Failures of the session bootstrap. None of them is retried at this
/// layer; retry policy belongs to the caller.
#[derive(Clone, Debug)]
pub enum SessionError {
    /// The remote authentication call was rejected or its transport failed.
    LoginFailure(String),
    /// Authentication succeeded but a required response field was absent.
    MissingIdentityField(IdentityField),
    /// One of the ordered post-authentication router sends failed.
    MailboxDeliveryFailure(BootstrapPhase, String),
}

impl SessionError {
    /// The error used when the remote authentication call fails; mirrors the
    /// reason it gives.
    pub fn new_login_error(reason: String) -> (r: SessionError)
        ensures
            r == SessionError::LoginFailure(reason),
    {
        SessionError::LoginFailure(reason)
    }

    /// The error for a failed delivery to the message router, tagged with
    /// the bootstrap phase that failed.
    pub fn new_delivery_error(phase: BootstrapPhase, reason: String) -> (r: SessionError)
        ensures
            r == SessionError::MailboxDeliveryFailure(phase, reason),
    {
        SessionError::MailboxDeliveryFailure(phase, reason)
    }
}

} // verus!
