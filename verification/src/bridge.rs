use crate::errors::PacketError;
use crate::header::spec_parse_header;
use crate::login::LoginData;
use crate::packet::{spec_body_input, spec_packet_err, spec_packet_ok, Packet, PacketData};
use crate::packet_types::{
    spec_variant_frequency, spec_variant_id, PacketType, LOGIN_ID,
};
use vstd::prelude::*;

verus! {

/// What the control-channel bridge does with one inbound datagram.
#[derive(Clone, Debug)]
pub enum BridgeAction {
    /// The datagram did not decode; it is logged and dropped, and the
    /// receive loop continues — never terminated by one bad datagram.
    Discard(PacketError),
    /// The datagram decoded to a login request: the bootstrap runs
    /// inline and the packet is never forwarded to the router.
    HandleLogin(LoginData),
    /// Any other packet is forwarded to the router unchanged.
    Forward(Packet),
}

/// One step of the bridge loop: decode an inbound datagram and decide
/// its path. A login body is always intercepted; every other decodable
/// packet is always forwarded; anything else is discarded with the
/// decode error.
pub fn classify_datagram(bytes: &[u8]) -> (r: BridgeAction)
    ensures
        match r {
            BridgeAction::Discard(e) => !spec_packet_ok(bytes@) && e == spec_packet_err(bytes@),
            BridgeAction::HandleLogin(login) => {
                &&& spec_packet_ok(bytes@)
                &&& (spec_parse_header(bytes@) matches Some(hv) && hv.frequency
                    == crate::header::PacketFrequency::Low && hv.id == LOGIN_ID
                    && login.wire() == spec_body_input(bytes@, hv))
            },
            BridgeAction::Forward(p) => {
                &&& spec_packet_ok(bytes@)
                &&& spec_parse_header(bytes@) == Some(p.header@)
                &&& crate::packet_types::spec_body_wire(p.body@) == spec_body_input(
                    bytes@,
                    p.header@,
                )
                &&& p.wf()
                &&& !(p.body@ is Login)
            },
        },
{
    match Packet::from_bytes(bytes) {
        Err(e) => BridgeAction::Discard(e),
        Ok(p) => {
            match p.body {
                PacketType::Login(login) => {
                    proof {
                        assert(spec_variant_id(p.body@) == LOGIN_ID);
                        assert(spec_variant_frequency(p.body@)
                            == crate::header::PacketFrequency::Low);
                    }
                    BridgeAction::HandleLogin(login)
                },
                _ => BridgeAction::Forward(p),
            }
        },
    }
}

} // verus!
