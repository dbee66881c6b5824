use crate::circuit_code::CircuitCodeData;
use crate::complete_agent_movement::CompleteAgentMovementData;
use crate::errors::{BootstrapPhase, IdentityField, SessionError};
use crate::lluid::Lluid;
use crate::mailbox::{MailboxMessage, Session, UiEventTypes, UiMessage};
use crate::packet::Packet;
use crate::packet_types::PacketType;
use vstd::prelude::*;

verus! {

/// What the remote authentication call hands back. The identity and
/// location fields are optional until the call succeeds; after success
/// their absence is a contract violation by the remote system, fatal to
/// this bootstrap.
#[derive(Clone, Debug)]
pub struct LoginResponseData {
    pub sim_ip: Option<String>,
    pub sim_port: Option<u16>,
    pub agent_id: Option<Lluid>,
    pub session_id: Option<Lluid>,
    pub circuit_code: u32,
}

/// The first identity field a response fails to carry, checked in a
/// fixed order, or nothing when the response is complete.
pub open spec fn spec_first_missing(r: LoginResponseData) -> Option<IdentityField> {
    if r.sim_ip is None {
        Some(IdentityField::SimIp)
    } else if r.sim_port is None {
        Some(IdentityField::SimPort)
    } else if r.agent_id is None {
        Some(IdentityField::AgentId)
    } else if r.session_id is None {
        Some(IdentityField::SessionId)
    } else {
        None
    }
}

/// Turns a successful authentication response into the ordered router
/// deliveries the bootstrap owes: the notification to the control
/// channel, then the session, then the circuit-code packet, then the
/// agent-presence packet — exactly in that order, each later message
/// meaningful only after the one before it. A response missing a
/// required field aborts with `MissingIdentityField` before anything is
/// handed to the router.
///
/// `notification` is the serialized form of the authentication response,
/// produced at the transport edge; it is relayed opaquely.
pub fn plan_bootstrap(response: LoginResponseData, notification: Vec<u8>) -> (r: Result<
    Vec<MailboxMessage>,
    SessionError,
>)
    ensures
        match r {
            Ok(msgs) => {
                &&& spec_first_missing(response) is None
                &&& msgs@.len() == 4
                &&& (msgs@[0] matches MailboxMessage::Ui(u) && u.event_type
                    == UiEventTypes::LoginResponseEvent && u.message == notification)
                &&& (msgs@[1] matches MailboxMessage::Session(s) && s.server_socket
                    == response.sim_port.unwrap() && s.url == response.sim_ip.unwrap()
                    && s.agent_id == response.agent_id.unwrap() && s.session_id
                    == response.session_id.unwrap() && s.socket is None)
                &&& (msgs@[2] matches MailboxMessage::Packet(p) && p.wf() && p.body
                    == PacketType::CircuitCode(
                    CircuitCodeData {
                        code: response.circuit_code,
                        session_id: response.session_id.unwrap(),
                        id: response.agent_id.unwrap(),
                    },
                ) && p.header.reliable)
                &&& (msgs@[3] matches MailboxMessage::Packet(p) && p.wf() && p.body
                    == PacketType::CompleteAgentMovement(
                    CompleteAgentMovementData {
                        circuit_code: response.circuit_code,
                        session_id: response.session_id.unwrap(),
                        agent_id: response.agent_id.unwrap(),
                    },
                ) && p.header.reliable)
            },
            Err(e) => {
                &&& spec_first_missing(response) is Some
                &&& e == SessionError::MissingIdentityField(spec_first_missing(response).unwrap())
            },
        },
{
    let sim_ip = match response.sim_ip {
        Some(v) => v,
        None => {
            return Err(SessionError::MissingIdentityField(IdentityField::SimIp));
        },
    };
    let sim_port = match response.sim_port {
        Some(v) => v,
        None => {
            return Err(SessionError::MissingIdentityField(IdentityField::SimPort));
        },
    };
    let agent_id = match response.agent_id {
        Some(v) => v,
        None => {
            return Err(SessionError::MissingIdentityField(IdentityField::AgentId));
        },
    };
    let session_id = match response.session_id {
        Some(v) => v,
        None => {
            return Err(SessionError::MissingIdentityField(IdentityField::SessionId));
        },
    };
    let mut msgs: Vec<MailboxMessage> = Vec::new();
    msgs.push(
        MailboxMessage::Ui(UiMessage::new(UiEventTypes::LoginResponseEvent, notification)),
    );
    msgs.push(
        MailboxMessage::Session(
            Session {
                server_socket: sim_port,
                url: sim_ip,
                agent_id,
                session_id,
                socket: None,
            },
        ),
    );
    msgs.push(
        MailboxMessage::Packet(
            Packet::new_circuit_code(
                CircuitCodeData { code: response.circuit_code, session_id, id: agent_id },
            ),
        ),
    );
    msgs.push(
        MailboxMessage::Packet(
            Packet::new_complete_agent_movement(
                CompleteAgentMovementData {
                    circuit_code: response.circuit_code,
                    session_id,
                    agent_id,
                },
            ),
        ),
    );
    Ok(msgs)
}

/// The phase-tagged error for the delivery that failed: the second,
/// third and fourth bootstrap sends each carry their own kind so the
/// caller knows where to resume. The notification send is not here: its
/// failure is logged and tolerated, as the login result itself already
/// reached this side.
pub fn delivery_failure(index: usize, reason: String) -> (r: Option<SessionError>)
    ensures
        match r {
            Some(e) => {
                &&& 1 <= index <= 3
                &&& (index == 1 ==> e == SessionError::MailboxDeliveryFailure(
                    BootstrapPhase::SessionDelivery,
                    reason,
                ))
                &&& (index == 2 ==> e == SessionError::MailboxDeliveryFailure(
                    BootstrapPhase::CircuitCodeDelivery,
                    reason,
                ))
                &&& (index == 3 ==> e == SessionError::MailboxDeliveryFailure(
                    BootstrapPhase::CompleteAgentMovementDelivery,
                    reason,
                ))
            },
            None => index == 0 || index > 3,
        },
{
    if index == 1 {
        Some(SessionError::new_delivery_error(BootstrapPhase::SessionDelivery, reason))
    } else if index == 2 {
        Some(SessionError::new_delivery_error(BootstrapPhase::CircuitCodeDelivery, reason))
    } else if index == 3 {
        Some(
            SessionError::new_delivery_error(
                BootstrapPhase::CompleteAgentMovementDelivery,
                reason,
            ),
        )
    } else {
        None
    }
}

/// The states of the session bootstrap. `Failed` is terminal and
/// reachable from every non-terminal state; the machine never retries
/// on its own — retry policy belongs to the caller.
#[derive(Clone, Debug)]
pub enum BootstrapState {
    Idle,
    Authenticating,
    CircuitAllocated,
    AgentPresenceAnnounced,
    Active,
    Failed(SessionError),
}

/// What the driving loop observes, in the order the bootstrap works:
/// a login request arrives, the remote call concludes one way or the
/// other, and the router accepts or refuses each ordered delivery.
#[derive(Clone, Debug)]
pub enum BootstrapEvent {
    /// A login message arrived from the control channel.
    LoginRequested,
    /// The remote authentication call failed or the response was
    /// incomplete.
    AuthenticationFailed(SessionError),
    /// The router accepted the circuit-code packet.
    CircuitCodeDelivered,
    /// The router accepted the agent-presence packet.
    AgentPresenceDelivered,
    /// One of the ordered deliveries failed.
    DeliveryFailed(SessionError),
    /// The whole flow returned success.
    BootstrapCompleted,
}

impl BootstrapState {
    /// One transition of the bootstrap machine. Failures move any
    /// non-terminal state to `Failed`; an event that does not apply to
    /// the current state leaves it unchanged; the two terminal states
    /// never move again.
    pub fn step(self, event: BootstrapEvent) -> (next: BootstrapState)
        ensures
            next == match self {
                BootstrapState::Active | BootstrapState::Failed(_) => self,
                _ => match event {
                    BootstrapEvent::AuthenticationFailed(e) | BootstrapEvent::DeliveryFailed(e) =>
                        BootstrapState::Failed(e),
                    BootstrapEvent::LoginRequested => if self is Idle {
                        BootstrapState::Authenticating
                    } else {
                        self
                    },
                    BootstrapEvent::CircuitCodeDelivered => if self is Authenticating {
                        BootstrapState::CircuitAllocated
                    } else {
                        self
                    },
                    BootstrapEvent::AgentPresenceDelivered => if self is CircuitAllocated {
                        BootstrapState::AgentPresenceAnnounced
                    } else {
                        self
                    },
                    BootstrapEvent::BootstrapCompleted => if self is AgentPresenceAnnounced {
                        BootstrapState::Active
                    } else {
                        self
                    },
                },
            },
    {
        match self {
            BootstrapState::Active => self,
            BootstrapState::Failed(_) => self,
            _ => match event {
                BootstrapEvent::AuthenticationFailed(e) => BootstrapState::Failed(e),
                BootstrapEvent::DeliveryFailed(e) => BootstrapState::Failed(e),
                BootstrapEvent::LoginRequested => match self {
                    BootstrapState::Idle => BootstrapState::Authenticating,
                    _ => self,
                },
                BootstrapEvent::CircuitCodeDelivered => match self {
                    BootstrapState::Authenticating => BootstrapState::CircuitAllocated,
                    _ => self,
                },
                BootstrapEvent::AgentPresenceDelivered => match self {
                    BootstrapState::CircuitAllocated => BootstrapState::AgentPresenceAnnounced,
                    _ => self,
                },
                BootstrapEvent::BootstrapCompleted => match self {
                    BootstrapState::AgentPresenceAnnounced => BootstrapState::Active,
                    _ => self,
                },
            },
        }
    }
}

} // verus!
