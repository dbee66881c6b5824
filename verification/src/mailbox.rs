use crate::lluid::Lluid;
use crate::packet::Packet;
use vstd::prelude::*;

verus! {

/// Tags an outbound notification to the control-channel consumer.
#[derive(Clone, Copy, Debug, PartialEq, Eq, Structural)]
pub enum UiEventTypes {
    LoginResponseEvent,
}

/// An outbound notification to the control-channel consumer: an event
/// tag and a raw payload (for a login result, its serialized form).
#[derive(Clone, Debug)]
pub struct UiMessage {
    pub event_type: UiEventTypes,
    pub message: Vec<u8>,
}

impl UiMessage {
    pub fn new(event_type: UiEventTypes, message: Vec<u8>) -> (r: UiMessage)
        ensures
            r.event_type == event_type,
            r.message == message,
    {
        UiMessage { event_type, message }
    }
}

/// The live, addressable simulator endpoint; created exactly once per
/// successful bootstrap. `socket` is a transport handle slot: empty at
/// creation, filled later by the transport layer.
#[derive(Clone, Debug)]
pub struct Session {
    pub server_socket: u16,
    pub url: String,
    pub agent_id: Lluid,
    pub session_id: Lluid,
    pub socket: Option<u64>,
}

/// The three message kinds the router accepts.
#[derive(Clone, Debug)]
pub enum MailboxMessage {
    /// Forward or queue for the active session.
    Packet(Packet),
    /// Replace the current session state.
    Session(Session),
    /// Forward to the control-channel consumer.
    Ui(UiMessage),
}

/// What the router does with one delivered message.
#[derive(Clone, Debug)]
pub enum RouteAction {
    /// Forward this packet to the live simulator endpoint.
    ToSimulator(Packet),
    /// Forward this notification to the control-channel consumer.
    ToUi(UiMessage),
    /// The session slot was replaced; nothing leaves the router.
    Stored,
    /// A packet arrived while no session is live; it is dropped.
    Dropped,
}

/// The message router: the single, serialized point of mutation for
/// session state. Producers never touch the slot directly; a driving
/// loop hands messages here one at a time, in arrival order per
/// producer, with no ordering guarantee across producers.
pub struct Mailbox {
    pub session: Option<Session>,
}

impl Mailbox {
    /// A router with no live session yet.
    pub fn new() -> (r: Mailbox)
        ensures
            r.session is None,
    {
        Mailbox { session: None }
    }

    /// Processes one message. A `Session` replaces the slot and nothing
    /// leaves the router; a `Packet` is forwarded to the simulator when
    /// a session is live and dropped otherwise; a `UiMessage` goes out
    /// to the control-channel consumer. Only a `Session` message ever
    /// changes the slot.
    pub fn deliver(&mut self, msg: MailboxMessage) -> (action: RouteAction)
        ensures
            match msg {
                MailboxMessage::Session(s) => final(self).session == Some(s) && action
                    == RouteAction::Stored,
                MailboxMessage::Packet(p) => final(self).session == old(self).session && (match old(
                    self,
                ).session {
                    Some(_) => action == RouteAction::ToSimulator(p),
                    None => action == RouteAction::Dropped,
                }),
                MailboxMessage::Ui(u) => final(self).session == old(self).session && action
                    == RouteAction::ToUi(u),
            },
    {
        match msg {
            MailboxMessage::Session(s) => {
                self.session = Some(s);
                RouteAction::Stored
            },
            MailboxMessage::Packet(p) => {
                match &self.session {
                    Some(_) => RouteAction::ToSimulator(p),
                    None => RouteAction::Dropped,
                }
            },
            MailboxMessage::Ui(u) => RouteAction::ToUi(u),
        }
    }
}

} // verus!
