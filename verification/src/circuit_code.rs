use crate::errors::PacketError;
use crate::header::{Header, PacketFrequency};
use crate::lluid::Lluid;
use crate::packet::{Packet, PacketData};
use crate::packet_types::{PacketType, CIRCUIT_CODE_ID};
use crate::wire::{read_u32_le, write_u32_le};
use vstd::prelude::*;

verus! {

broadcast use vstd::array::group_array_axioms;

/// The circuit-code message body: the server-issued numeric token that
/// opens the simulator-side data channel, with the session and agent
/// identities it belongs to. Fixed 36-byte wire form: four bytes
/// little-endian code, sixteen raw session-id bytes, sixteen raw
/// agent-id bytes.
#[derive(Clone, Copy, Debug)]
pub struct CircuitCodeData {
    pub code: u32,
    pub session_id: Lluid,
    pub id: Lluid,
}

/// Mathematical model of a circuit-code block.
pub struct CircuitCodeV {
    pub code: u32,
    pub session_id: Seq<u8>,
    pub id: Seq<u8>,
}

impl View for CircuitCodeData {
    type V = CircuitCodeV;

    open spec fn view(&self) -> CircuitCodeV {
        CircuitCodeV {
            code: self.code,
            session_id: self.session_id.view_bytes(),
            id: self.id.view_bytes(),
        }
    }
}

/// The exact 36 bytes a circuit-code block puts on the wire.
pub open spec fn spec_circuit_code_bytes(v: CircuitCodeV) -> Seq<u8> {
    vstd::bytes::spec_u32_to_le_bytes(v.code) + v.session_id + v.id
}

/// The body size a circuit-code block requires: exactly this many bytes,
/// no optional trailing fields.
pub const CIRCUIT_CODE_BODY_SIZE: usize = 36;

impl PacketData for CircuitCodeData {
    open spec fn wire(&self) -> Seq<u8> {
        spec_circuit_code_bytes(self@)
    }

    open spec fn wf(&self) -> bool {
        true
    }

    open spec fn parse_ok(b: Seq<u8>) -> bool {
        b.len() == CIRCUIT_CODE_BODY_SIZE
    }

    open spec fn parse_err(b: Seq<u8>) -> PacketError {
        if b.len() < CIRCUIT_CODE_BODY_SIZE {
            PacketError::BodyTooShort
        } else {
            PacketError::BodyTooLong
        }
    }

    /// Rejects any body that is not exactly 36 bytes: shorter is
    /// `BodyTooShort`, longer is `BodyTooLong`, because this variant has
    /// no optional trailing fields.
    fn from_bytes(bytes: &[u8]) -> (r: Result<Self, PacketError>) {
        let len = bytes.len();
        if len < CIRCUIT_CODE_BODY_SIZE {
            return Err(PacketError::BodyTooShort);
        }
        if len > CIRCUIT_CODE_BODY_SIZE {
            return Err(PacketError::BodyTooLong);
        }
        let code = read_u32_le(bytes, 0);
        let session_id = Lluid::from_slice_at(bytes, 4);
        let id = Lluid::from_slice_at(bytes, 20);
        let v = CircuitCodeData { code, session_id, id };
        proof {
            vstd::bytes::lemma_auto_spec_u32_to_from_le_bytes();
            assert(v.wire() =~= bytes@);
        }
        Ok(v)
    }

    fn to_bytes(&self) -> (r: Vec<u8>) {
        let mut out: Vec<u8> = Vec::new();
        write_u32_le(self.code, &mut out);
        self.session_id.write_to(&mut out);
        self.id.write_to(&mut out);
        proof {
            assert(out@ =~= self.wire());
        }
        out
    }
}

impl Packet {
    /// A reliable outbound circuit-code packet: the first packet the
    /// simulator expects after authentication. The sequence number is
    /// zero until the transport layer assigns one at send time.
    pub fn new_circuit_code(circuit_code_block: CircuitCodeData) -> (r: Packet)
        ensures
            r.header.id == CIRCUIT_CODE_ID,
            r.header.frequency == PacketFrequency::Low,
            r.header.reliable,
            r.header.sequence_number == 0,
            !r.header.appended_acks,
            !r.header.zerocoded,
            !r.header.resent,
            r.header.ack_list is None,
            r.header.size is None,
            r.body == PacketType::CircuitCode(circuit_code_block),
            r.wf(),
    {
        Packet {
            header: Header {
                id: CIRCUIT_CODE_ID,
                frequency: PacketFrequency::Low,
                reliable: true,
                sequence_number: 0,
                appended_acks: false,
                zerocoded: false,
                resent: false,
                ack_list: None,
                size: None,
            },
            body: PacketType::CircuitCode(circuit_code_block),
        }
    }
}

/// A circuit-code block's wire form is exactly 36 bytes.
pub proof fn lemma_circuit_code_wire_len(v: CircuitCodeData)
    ensures
        v.wire().len() == CIRCUIT_CODE_BODY_SIZE,
{
    vstd::bytes::lemma_auto_spec_u32_to_from_le_bytes();
}

/// Round trip: a circuit-code block's wire form decodes, and only back to
/// the same value — any block with the same wire form has the same code,
/// session id and agent id, so decoding an encoded block preserves all
/// three exactly.
pub proof fn lemma_circuit_code_round_trip(v: CircuitCodeData, w: CircuitCodeData)
    requires
        w.wire() == v.wire(),
    ensures
        CircuitCodeData::parse_ok(v.wire()),
        w == v,
{
    vstd::bytes::lemma_auto_spec_u32_to_from_le_bytes();
    let bv = v.wire();
    let bw = w.wire();
    assert(vstd::bytes::spec_u32_to_le_bytes(v.code) =~= bv.subrange(0, 4));
    assert(vstd::bytes::spec_u32_to_le_bytes(w.code) =~= bw.subrange(0, 4));
    assert(v.code == w.code);
    assert(v.session_id.view_bytes() =~= bv.subrange(4, 20));
    assert(w.session_id.view_bytes() =~= bw.subrange(4, 20));
    assert(v.id.view_bytes() =~= bv.subrange(20, 36));
    assert(w.id.view_bytes() =~= bw.subrange(20, 36));
    assert(v.session_id.bytes =~= w.session_id.bytes);
    assert(v.id.bytes =~= w.id.bytes);
}

} // verus!
