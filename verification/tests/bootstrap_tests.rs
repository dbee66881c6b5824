use metaverse::bootstrap::{
    plan_bootstrap, BootstrapEvent, BootstrapState, LoginResponseData,
};
use metaverse::bootstrap::delivery_failure;
use metaverse::bridge::{classify_datagram, BridgeAction};
use metaverse::errors::{BootstrapPhase, IdentityField, PacketError, SessionError};
use metaverse::lluid::Lluid;
use metaverse::login::LoginData;
use metaverse::mailbox::{Mailbox, MailboxMessage, RouteAction, UiEventTypes};
use metaverse::packet::Packet;
use metaverse::packet_types::PacketType;

fn full_response() -> LoginResponseData {
    LoginResponseData {
        sim_ip: Some(String::from("127.0.0.1")),
        sim_port: Some(9000),
        agent_id: Some(Lluid { bytes: [3u8; 16] }),
        session_id: Some(Lluid { bytes: [9u8; 16] }),
        circuit_code: 777,
    }
}

fn sample_login() -> LoginData {
    LoginData {
        first: b"default".to_vec(),
        last: b"user".to_vec(),
        passwd: b"password".to_vec(),
        start: b"home".to_vec(),
        channel: b"benthic".to_vec(),
        agree_to_tos: true,
        read_critical: true,
        url: b"http://127.0.0.1:9000".to_vec(),
    }
}

#[test]
fn bootstrap_messages_come_in_order() {
    let msgs = plan_bootstrap(full_response(), b"{\"ok\":true}".to_vec()).unwrap();
    assert_eq!(msgs.len(), 4);
    match &msgs[0] {
        MailboxMessage::Ui(u) => {
            assert_eq!(u.event_type, UiEventTypes::LoginResponseEvent);
            assert_eq!(u.message, b"{\"ok\":true}".to_vec());
        }
        other => panic!("expected the notification first: {:?}", other),
    }
    match &msgs[1] {
        MailboxMessage::Session(s) => {
            assert_eq!(s.server_socket, 9000);
            assert_eq!(s.url, "127.0.0.1");
            assert_eq!(s.agent_id.bytes, [3u8; 16]);
            assert_eq!(s.session_id.bytes, [9u8; 16]);
            assert!(s.socket.is_none());
        }
        other => panic!("expected the session second: {:?}", other),
    }
    match &msgs[2] {
        MailboxMessage::Packet(p) => match &p.body {
            PacketType::CircuitCode(d) => {
                assert_eq!(d.code, 777);
                assert_eq!(d.session_id.bytes, [9u8; 16]);
                assert_eq!(d.id.bytes, [3u8; 16]);
            }
            other => panic!("expected the circuit code third: {:?}", other),
        },
        other => panic!("expected a packet third: {:?}", other),
    }
    match &msgs[3] {
        MailboxMessage::Packet(p) => match &p.body {
            PacketType::CompleteAgentMovement(d) => {
                assert_eq!(d.circuit_code, 777);
                assert_eq!(d.session_id.bytes, [9u8; 16]);
                assert_eq!(d.agent_id.bytes, [3u8; 16]);
            }
            other => panic!("expected agent presence last: {:?}", other),
        },
        other => panic!("expected a packet last: {:?}", other),
    }
}

#[test]
fn bootstrap_messages_route_through_the_mailbox() {
    let msgs = plan_bootstrap(full_response(), Vec::new()).unwrap();
    let mut mailbox = Mailbox::new();
    let mut actions = Vec::new();
    for m in msgs {
        actions.push(mailbox.deliver(m));
    }
    assert!(matches!(actions[0], RouteAction::ToUi(_)));
    assert!(matches!(actions[1], RouteAction::Stored));
    assert!(matches!(actions[2], RouteAction::ToSimulator(_)));
    assert!(matches!(actions[3], RouteAction::ToSimulator(_)));
    assert!(mailbox.session.is_some());
}

#[test]
fn missing_session_id_aborts_before_any_send() {
    let response = LoginResponseData {
        session_id: None,
        ..full_response()
    };
    match plan_bootstrap(response, Vec::new()) {
        Err(SessionError::MissingIdentityField(f)) => {
            assert_eq!(f, IdentityField::SessionId)
        }
        other => panic!("expected a missing-field abort: {:?}", other),
    }
}

#[test]
fn each_missing_field_is_named() {
    let cases = [
        (
            LoginResponseData { sim_ip: None, ..full_response() },
            IdentityField::SimIp,
        ),
        (
            LoginResponseData { sim_port: None, ..full_response() },
            IdentityField::SimPort,
        ),
        (
            LoginResponseData { agent_id: None, ..full_response() },
            IdentityField::AgentId,
        ),
    ];
    for (response, field) in cases {
        match plan_bootstrap(response, Vec::new()) {
            Err(SessionError::MissingIdentityField(f)) => assert_eq!(f, field),
            other => panic!("expected a missing-field abort: {:?}", other),
        }
    }
}

#[test]
fn delivery_failures_carry_their_phase() {
    match delivery_failure(1, String::from("closed")) {
        Some(SessionError::MailboxDeliveryFailure(BootstrapPhase::SessionDelivery, r)) => {
            assert_eq!(r, "closed")
        }
        other => panic!("wrong error: {:?}", other),
    }
    match delivery_failure(2, String::from("closed")) {
        Some(SessionError::MailboxDeliveryFailure(BootstrapPhase::CircuitCodeDelivery, _)) => {}
        other => panic!("wrong error: {:?}", other),
    }
    match delivery_failure(3, String::from("closed")) {
        Some(SessionError::MailboxDeliveryFailure(
            BootstrapPhase::CompleteAgentMovementDelivery,
            _,
        )) => {}
        other => panic!("wrong error: {:?}", other),
    }
    assert!(delivery_failure(0, String::new()).is_none());
}

#[test]
fn bootstrap_machine_walks_to_active() {
    let s = BootstrapState::Idle
        .step(BootstrapEvent::LoginRequested)
        .step(BootstrapEvent::CircuitCodeDelivered)
        .step(BootstrapEvent::AgentPresenceDelivered)
        .step(BootstrapEvent::BootstrapCompleted);
    assert!(matches!(s, BootstrapState::Active));
}

#[test]
fn bootstrap_machine_fails_from_any_nonterminal_state() {
    let e = SessionError::LoginFailure(String::from("rejected"));
    let s = BootstrapState::Authenticating.step(BootstrapEvent::AuthenticationFailed(e));
    assert!(matches!(s, BootstrapState::Failed(SessionError::LoginFailure(_))));
    // Terminal states never move again.
    let s = BootstrapState::Active.step(BootstrapEvent::LoginRequested);
    assert!(matches!(s, BootstrapState::Active));
}

#[test]
fn mailbox_drops_packets_without_a_session() {
    let mut mailbox = Mailbox::new();
    let p = Packet::new_login_packet(sample_login());
    assert!(matches!(
        mailbox.deliver(MailboxMessage::Packet(p)),
        RouteAction::Dropped
    ));
    assert!(mailbox.session.is_none());
}

#[test]
fn login_datagram_is_intercepted_not_forwarded() {
    let login = sample_login();
    let bytes = Packet::new_login_packet(login.clone()).to_bytes();
    match classify_datagram(&bytes) {
        BridgeAction::HandleLogin(l) => {
            assert_eq!(l.first, login.first);
            assert_eq!(l.url, login.url);
        }
        other => panic!("a login must be intercepted: {:?}", other),
    }
}

#[test]
fn non_login_datagram_is_forwarded_byte_for_byte() {
    // An agent-update datagram (High, raw body).
    let mut bytes = vec![0x40u8, 0, 0, 0, 2, 0, 4];
    bytes.extend_from_slice(&[1, 2, 3, 4, 5]);
    match classify_datagram(&bytes) {
        BridgeAction::Forward(p) => assert_eq!(p.to_bytes(), bytes),
        other => panic!("a non-login packet must be forwarded: {:?}", other),
    }
}

#[test]
fn bad_datagram_is_discarded_and_the_loop_goes_on() {
    // An unregistered (frequency, id) pair is a recoverable error ...
    let unknown = [0u8, 0, 0, 0, 1, 0, 99];
    match classify_datagram(&unknown) {
        BridgeAction::Discard(e) => assert_eq!(e, PacketError::UnknownMessageType),
        other => panic!("an unknown type must be discarded: {:?}", other),
    }
    // ... and a later well-formed datagram still goes through.
    let mut bytes = vec![0u8, 0, 0, 0, 1, 0, 4];
    bytes.extend_from_slice(&[9, 9]);
    assert!(matches!(classify_datagram(&bytes), BridgeAction::Forward(_)));
}
