use crate::errors::PacketError;
use crate::header::{Header, PacketFrequency};
use crate::lluid::Lluid;
use crate::packet::{Packet, PacketData};
use crate::packet_types::{PacketType, COMPLETE_AGENT_MOVEMENT_ID};
use crate::wire::{read_u32_le, write_u32_le};
use vstd::prelude::*;

verus! {

broadcast use vstd::array::group_array_axioms;

/// The agent-presence announcement body: once the circuit is allocated,
/// it tells the simulator which agent of which session is now present on
/// that circuit. Fixed 36-byte wire form: four bytes little-endian
/// circuit code, sixteen raw session-id bytes, sixteen raw agent-id
/// bytes.
#[derive(Clone, Copy, Debug)]
pub struct CompleteAgentMovementData {
    pub circuit_code: u32,
    pub session_id: Lluid,
    pub agent_id: Lluid,
}

/// Mathematical model of an agent-presence announcement.
pub struct CompleteAgentMovementV {
    pub circuit_code: u32,
    pub session_id: Seq<u8>,
    pub agent_id: Seq<u8>,
}

impl View for CompleteAgentMovementData {
    type V = CompleteAgentMovementV;

    open spec fn view(&self) -> CompleteAgentMovementV {
        CompleteAgentMovementV {
            circuit_code: self.circuit_code,
            session_id: self.session_id.view_bytes(),
            agent_id: self.agent_id.view_bytes(),
        }
    }
}

/// The exact 36 bytes an agent-presence announcement puts on the wire.
pub open spec fn spec_complete_agent_movement_bytes(v: CompleteAgentMovementV) -> Seq<u8> {
    vstd::bytes::spec_u32_to_le_bytes(v.circuit_code) + v.session_id + v.agent_id
}

/// The body size the announcement requires: exactly this many bytes.
pub const COMPLETE_AGENT_MOVEMENT_BODY_SIZE: usize = 36;

impl Packet {
    /// A reliable outbound agent-presence packet, sent after the circuit
    /// code to announce the agent on the allocated circuit.
    pub fn new_complete_agent_movement(data: CompleteAgentMovementData) -> (r: Packet)
        ensures
            r.header.id == COMPLETE_AGENT_MOVEMENT_ID,
            r.header.frequency == PacketFrequency::Low,
            r.header.reliable,
            r.header.sequence_number == 0,
            !r.header.appended_acks,
            !r.header.zerocoded,
            !r.header.resent,
            r.header.ack_list is None,
            r.header.size is None,
            r.body == PacketType::CompleteAgentMovement(data),
            r.wf(),
    {
        Packet {
            header: Header {
                id: COMPLETE_AGENT_MOVEMENT_ID,
                frequency: PacketFrequency::Low,
                reliable: true,
                sequence_number: 0,
                appended_acks: false,
                zerocoded: false,
                resent: false,
                ack_list: None,
                size: None,
            },
            body: PacketType::CompleteAgentMovement(data),
        }
    }
}

impl PacketData for CompleteAgentMovementData {
    open spec fn wire(&self) -> Seq<u8> {
        spec_complete_agent_movement_bytes(self@)
    }

    open spec fn wf(&self) -> bool {
        true
    }

    open spec fn parse_ok(b: Seq<u8>) -> bool {
        b.len() == COMPLETE_AGENT_MOVEMENT_BODY_SIZE
    }

    open spec fn parse_err(b: Seq<u8>) -> PacketError {
        if b.len() < COMPLETE_AGENT_MOVEMENT_BODY_SIZE {
            PacketError::BodyTooShort
        } else {
            PacketError::BodyTooLong
        }
    }

    /// Rejects any body that is not exactly 36 bytes, as for the
    /// circuit-code block: no optional trailing fields.
    fn from_bytes(bytes: &[u8]) -> (r: Result<Self, PacketError>) {
        let len = bytes.len();
        if len < COMPLETE_AGENT_MOVEMENT_BODY_SIZE {
            return Err(PacketError::BodyTooShort);
        }
        if len > COMPLETE_AGENT_MOVEMENT_BODY_SIZE {
            return Err(PacketError::BodyTooLong);
        }
        let circuit_code = read_u32_le(bytes, 0);
        let session_id = Lluid::from_slice_at(bytes, 4);
        let agent_id = Lluid::from_slice_at(bytes, 20);
        let v = CompleteAgentMovementData { circuit_code, session_id, agent_id };
        proof {
            vstd::bytes::lemma_auto_spec_u32_to_from_le_bytes();
            assert(v.wire() =~= bytes@);
        }
        Ok(v)
    }

    fn to_bytes(&self) -> (r: Vec<u8>) {
        let mut out: Vec<u8> = Vec::new();
        write_u32_le(self.circuit_code, &mut out);
        self.session_id.write_to(&mut out);
        self.agent_id.write_to(&mut out);
        proof {
            assert(out@ =~= self.wire());
        }
        out
    }
}

} // verus!
