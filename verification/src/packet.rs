use crate::errors::PacketError;
use crate::header::{
    spec_body_end, spec_header_size, spec_parse_header, Header, HeaderV,
};
use crate::packet_types::{
    spec_body_err, spec_body_ok, spec_body_wf, spec_body_wire, spec_variant_frequency,
    spec_variant_id, PacketType, PacketTypeV,
};
use crate::zerocode::{spec_zero_expand, zero_expand};
use vstd::prelude::*;

verus! {

/// The codec capability every message body supplies: each registered
/// variant knows its own wire form. Adding a new message kind means one
/// body type with this capability and one registry entry — nothing else.
pub trait PacketData: Sized {
    /// The exact wire form of this value.
    spec fn wire(&self) -> Seq<u8>;

    /// What a value must satisfy to be encodable (a variable-length field
    /// must fit its four-byte length prefix). Decoded values always are.
    spec fn wf(&self) -> bool;

    /// Whether the bytes are a valid body for this type.
    spec fn parse_ok(b: Seq<u8>) -> bool;

    /// The error reported when they are not.
    spec fn parse_err(b: Seq<u8>) -> PacketError;

    /// Decodes a body. On success the decoded value's wire form is
    /// exactly the input: decoding loses nothing and re-encoding gives
    /// the bytes back.
    fn from_bytes(bytes: &[u8]) -> (r: Result<Self, PacketError>)
        ensures
            match r {
                Ok(v) => Self::parse_ok(bytes@) && v.wf() && v.wire() == bytes@,
                Err(e) => !Self::parse_ok(bytes@) && e == Self::parse_err(bytes@),
            },
    ;

    /// Encodes a body; always succeeds for a well-formed value.
    fn to_bytes(&self) -> (r: Vec<u8>)
        requires
            self.wf(),
        ensures
            r@ == self.wire(),
    ;
}

/// The unit of wire transfer: a header composed with a typed body. Owns
/// both exclusively; constructed either by composing a known body with a
/// freshly built header (outbound) or by decoding raw bytes (inbound).
#[derive(Clone, Debug)]
pub struct Packet {
    pub header: Header,
    pub body: PacketType,
}

/// Mathematical model of a packet.
pub struct PacketV {
    pub header: HeaderV,
    pub body: PacketTypeV,
}

impl View for Packet {
    type V = PacketV;

    open spec fn view(&self) -> PacketV {
        PacketV { header: self.header@, body: self.body@ }
    }
}

impl Packet {
    /// A packet the codec can carry: valid header, encodable body, and a
    /// body registered under the header's (frequency, id) pair.
    pub open spec fn wf(self) -> bool {
        &&& self.header.wf()
        &&& spec_body_wf(self.body@)
        &&& spec_variant_frequency(self.body@) == self.header.frequency
        &&& spec_variant_id(self.body@) == self.header.id
    }
}

/// The body bytes the registry is handed: the region between the header
/// and the ack tail, run-length expanded first when the header declares
/// the body zero-coded.
pub open spec fn spec_body_input(b: Seq<u8>, hv: HeaderV) -> Seq<u8> {
    let raw = b.subrange(spec_header_size(hv.frequency), spec_body_end(b, hv));
    if hv.zerocoded {
        spec_zero_expand(raw)
    } else {
        raw
    }
}

/// Whether raw bytes decode to a packet: the header must parse and the
/// registered variant must accept the body bytes.
pub open spec fn spec_packet_ok(b: Seq<u8>) -> bool {
    match spec_parse_header(b) {
        None => false,
        Some(hv) => spec_body_ok(hv.frequency, hv.id, spec_body_input(b, hv)),
    }
}

/// The error a failed packet decode reports.
pub open spec fn spec_packet_err(b: Seq<u8>) -> PacketError
    recommends
        !spec_packet_ok(b),
{
    match spec_parse_header(b) {
        None => PacketError::MalformedHeader,
        Some(hv) => spec_body_err(hv.frequency, hv.id, spec_body_input(b, hv)),
    }
}

/// The wire form of a packet: header front, body, then the ack tail.
pub open spec fn spec_packet_wire(pv: PacketV) -> Seq<u8> {
    crate::header::spec_front_bytes(pv.header) + spec_body_wire(pv.body)
        + crate::header::spec_ack_tail(pv.header)
}

/// Faithful forwarding: a decoded packet re-encodes byte-for-byte to
/// the datagram it came from, so forwarding by decode and re-encode
/// changes nothing. Holds for every decodable datagram whose body is
/// not zero-coded (expansion is kept, not re-compressed) and whose
/// spare extra-header byte is zero (its value is tolerated on decode
/// but not kept).
pub proof fn lemma_packet_reencode(b: Seq<u8>, pv: PacketV)
    requires
        spec_parse_header(b) == Some(pv.header),
        spec_body_wire(pv.body) == spec_body_input(b, pv.header),
        !pv.header.zerocoded,
        b[5] == 0,
    ensures
        spec_packet_wire(pv) == b,
{
    crate::header::lemma_header_reencode(b, pv.header);
    let size = spec_header_size(pv.header.frequency);
    let be = spec_body_end(b, pv.header);
    assert(spec_body_wire(pv.body) == b.subrange(size, be));
    assert(b =~= b.subrange(0, size) + b.subrange(size, be) + b.subrange(be, b.len() as int));
    assert(spec_packet_wire(pv) =~= b);
}

impl Packet {
    /// Decodes a packet: header first (boundaries only), then the body
    /// region — trailing acks excluded, zero-coding expanded — is handed
    /// to the type registry. On success the decoded body's wire form is
    /// exactly the body bytes that were handed over.
    pub fn from_bytes(bytes: &[u8]) -> (r: Result<Packet, PacketError>)
        ensures
            match r {
                Ok(p) => {
                    &&& spec_packet_ok(bytes@)
                    &&& spec_parse_header(bytes@) == Some(p.header@)
                    &&& spec_body_wire(p.body@) == spec_body_input(bytes@, p.header@)
                    &&& p.wf()
                },
                Err(e) => !spec_packet_ok(bytes@) && e == spec_packet_err(bytes@),
            },
    {
        let header = match Header::try_from_bytes(bytes) {
            Ok(h) => h,
            Err(e) => {
                return Err(e);
            },
        };
        let len = bytes.len();
        let size = match header.size {
            Some(s) => s,
            None => {
                proof {
                    assert(false);
                }
                return Err(PacketError::MalformedHeader);
            },
        };
        let body_end = match &header.ack_list {
            Some(acks) => len - 1 - 4 * acks.len(),
            None => len,
        };
        let raw = vstd::slice::slice_subrange(bytes, size, body_end);
        let body_bytes: Vec<u8> = if header.zerocoded {
            zero_expand(raw)
        } else {
            vstd::slice::slice_to_vec(raw)
        };
        let body = match PacketType::from_id(header.id, header.frequency, body_bytes.as_slice()) {
            Ok(b) => b,
            Err(e) => {
                return Err(e);
            },
        };
        Ok(Packet { header, body })
    }

    /// Encodes a packet: the header's front bytes, the body's own wire
    /// form, then the trailing acks when the header carries any.
    pub fn to_bytes(&self) -> (r: Vec<u8>)
        requires
            self.wf(),
        ensures
            r@ == spec_packet_wire(self@),
    {
        let mut out = self.header.to_bytes();
        let mut body = self.body.to_bytes();
        out.append(&mut body);
        self.header.write_ack_tail(&mut out);
        proof {
            assert(out@ =~= spec_packet_wire(self@));
        }
        out
    }
}

} // verus!
