use crate::errors::PacketError;
use crate::wire::{
    read_u16_be, read_u32_be, spec_u16_from_be_bytes, spec_u16_to_be_bytes, spec_u32_from_be_bytes,
    spec_u32_to_be_bytes, write_u16_be, write_u32_be,
};
use vstd::prelude::*;

verus! {

/// The three-tier frequency classification. It decides the byte width of a
/// message identifier on the wire: Low is widest (rarest messages), High is
/// narrowest (most frequent messages).
#[derive(Clone, Copy, Debug, PartialEq, Eq, Structural)]
pub enum PacketFrequency {
    Low,
    Medium,
    High,
}

/// Mathematical model of a header: what the wire bytes mean.
/// `acks` is `Some` exactly when the acknowledgment flag is set;
/// `size` is the byte offset where the header ends and the body begins,
/// known only for decoded headers.
pub struct HeaderV {
    pub id: u32,
    pub frequency: PacketFrequency,
    pub reliable: bool,
    pub sequence_number: u32,
    pub zerocoded: bool,
    pub resent: bool,
    pub acks: Option<Seq<u32>>,
    pub size: Option<int>,
}

/// One header per packet; the fields are as the wire carries them.
/// `size` is derived during decode, never transmitted.
#[derive(Clone, Debug)]
pub struct Header {
    /// Logical opcode within its frequency class (not globally unique).
    pub id: u32,
    /// Decides the wire width of `id`.
    pub frequency: PacketFrequency,
    /// The sender requests delivery acknowledgment.
    pub reliable: bool,
    /// Assigned per connection at send time; zero at construction.
    pub sequence_number: u32,
    /// A trailing list of acknowledged sequence numbers is present.
    pub appended_acks: bool,
    /// The body bytes are run-length compressed and must be expanded
    /// before the body is interpreted.
    pub zerocoded: bool,
    /// Marks a retransmission of a reliable packet.
    pub resent: bool,
    /// Present exactly when `appended_acks` is set.
    pub ack_list: Option<Vec<u32>>,
    /// Offset in the raw buffer where the body begins; set by decode.
    pub size: Option<usize>,
}

impl View for Header {
    type V = HeaderV;

    open spec fn view(&self) -> HeaderV {
        HeaderV {
            id: self.id,
            frequency: self.frequency,
            reliable: self.reliable,
            sequence_number: self.sequence_number,
            zerocoded: self.zerocoded,
            resent: self.resent,
            acks: match self.ack_list {
                Some(v) => Some(v@),
                None => None,
            },
            size: match self.size {
                Some(s) => Some(s as int),
                None => None,
            },
        }
    }
}

/// Wire width of an identifier under each frequency tier, class prefix
/// included: one byte for High, two for Medium, four for Low.
pub open spec fn spec_id_width(f: PacketFrequency) -> int {
    match f {
        PacketFrequency::High => 1,
        PacketFrequency::Medium => 2,
        PacketFrequency::Low => 4,
    }
}

/// Offset where the body begins: flag byte, sequence number, extra byte,
/// then the identifier bytes.
pub open spec fn spec_header_size(f: PacketFrequency) -> int {
    6 + spec_id_width(f)
}

/// A model header that the codec can carry: the identifier fits its tier's
/// width and an ack list, when present, fits its one-byte count.
pub open spec fn header_v_wf(hv: HeaderV) -> bool {
    &&& match hv.frequency {
        PacketFrequency::High => hv.id <= 254,
        PacketFrequency::Medium => hv.id <= 254,
        PacketFrequency::Low => hv.id <= 0xffff,
    }
    &&& match hv.acks {
        Some(a) => a.len() <= 255,
        None => true,
    }
}

impl Header {
    /// Structural validity: the ack list is present exactly when the flag
    /// says so, and the model is well-formed.
    pub open spec fn wf(self) -> bool {
        &&& (self.appended_acks <==> self.ack_list is Some)
        &&& header_v_wf(self@)
    }
}

/// The flag bitmask carried in the first byte. The low four bits are
/// reserved and stay clear.
pub open spec fn spec_flags_byte(hv: HeaderV) -> u8 {
    ((if hv.zerocoded {
        128int
    } else {
        0int
    }) + (if hv.reliable {
        64int
    } else {
        0int
    }) + (if hv.resent {
        32int
    } else {
        0int
    }) + (if hv.acks is Some {
        16int
    } else {
        0int
    })) as u8
}

/// Identifier bytes under the tiered encoding: High is the bare byte,
/// Medium has a one-byte class prefix, Low a two-byte prefix and a
/// big-endian two-byte identifier.
pub open spec fn spec_id_bytes(f: PacketFrequency, id: u32) -> Seq<u8> {
    match f {
        PacketFrequency::High => seq![id as u8],
        PacketFrequency::Medium => seq![0xffu8, id as u8],
        PacketFrequency::Low => seq![0xffu8, 0xffu8] + spec_u16_to_be_bytes(id as u16),
    }
}

/// The leading header bytes: flags, big-endian sequence number, the spare
/// extra-header byte (zero), then the identifier.
pub open spec fn spec_front_bytes(hv: HeaderV) -> Seq<u8> {
    seq![spec_flags_byte(hv)] + spec_u32_to_be_bytes(hv.sequence_number) + seq![0u8]
        + spec_id_bytes(hv.frequency, hv.id)
}

/// The acknowledgment numbers, each big-endian, in order.
pub open spec fn spec_acks_bytes(acks: Seq<u32>) -> Seq<u8>
    decreases acks.len(),
{
    if acks.len() == 0 {
        Seq::empty()
    } else {
        spec_u32_to_be_bytes(acks[0]) + spec_acks_bytes(acks.drop_first())
    }
}

/// The trailing bytes of a packet: the acknowledgment numbers followed by
/// their one-byte count, or nothing when no acks are appended.
pub open spec fn spec_ack_tail(hv: HeaderV) -> Seq<u8> {
    match hv.acks {
        Some(a) => spec_acks_bytes(a) + seq![a.len() as u8],
        None => Seq::empty(),
    }
}

/// Reads the flag byte: (zerocoded, reliable, resent, appended_acks).
/// A set reserved bit makes the header inconsistent.
pub open spec fn spec_parse_flags(b: u8) -> Option<(bool, bool, bool, bool)> {
    if b % 16 != 0 {
        None
    } else {
        Some((b >= 128, b % 128 >= 64, b % 64 >= 32, b % 32 >= 16))
    }
}

/// Reads the tiered identifier: (frequency, id, header size). The leading
/// identifier byte decides the tier; each tier consumes its own width.
pub open spec fn spec_parse_id(b: Seq<u8>) -> Option<(PacketFrequency, u32, int)> {
    if b.len() < 7 {
        None
    } else if b[6] != 0xff {
        Some((PacketFrequency::High, b[6] as u32, 7))
    } else if b.len() < 8 {
        None
    } else if b[7] != 0xff {
        Some((PacketFrequency::Medium, b[7] as u32, 8))
    } else if b.len() < 10 {
        None
    } else {
        Some((PacketFrequency::Low, spec_u16_from_be_bytes(b.subrange(8, 10)) as u32, 10))
    }
}

/// The `n` acknowledgment numbers that end one byte before the end of the
/// buffer.
pub open spec fn spec_parse_acks(b: Seq<u8>, n: int) -> Seq<u32> {
    Seq::new(
        n as nat,
        |i: int|
            spec_u32_from_be_bytes(
                b.subrange(b.len() - 1 - 4 * n + 4 * i, b.len() - 1 - 4 * n + 4 * i + 4),
            ),
    )
}

/// What a raw buffer's header means, if anything: flags, sequence number,
/// tiered identifier, and — when the flag is set — the trailing ack list
/// whose count is the last byte of the buffer.
pub open spec fn spec_parse_header(b: Seq<u8>) -> Option<HeaderV> {
    if b.len() < 7 {
        None
    } else {
        match spec_parse_flags(b[0]) {
            None => None,
            Some((zerocoded, reliable, resent, appended)) => match spec_parse_id(b) {
                None => None,
                Some((frequency, id, size)) => {
                    let seqn = spec_u32_from_be_bytes(b.subrange(1, 5));
                    if appended {
                        let n = b[b.len() - 1] as int;
                        if b.len() >= size + 1 + 4 * n {
                            Some(
                                HeaderV {
                                    id,
                                    frequency,
                                    reliable,
                                    sequence_number: seqn,
                                    zerocoded,
                                    resent,
                                    acks: Some(spec_parse_acks(b, n)),
                                    size: Some(size),
                                },
                            )
                        } else {
                            None
                        }
                    } else {
                        Some(
                            HeaderV {
                                id,
                                frequency,
                                reliable,
                                sequence_number: seqn,
                                zerocoded,
                                resent,
                                acks: None,
                                size: Some(size),
                            },
                        )
                    }
                },
            },
        }
    }
}

/// Offset one past the body: the start of the ack region when acks are
/// appended, else the end of the buffer.
pub open spec fn spec_body_end(b: Seq<u8>, hv: HeaderV) -> int {
    match hv.acks {
        Some(a) => b.len() - 1 - 4 * a.len(),
        None => b.len() as int,
    }
}

impl Header {
    /// Decodes a header from raw bytes without interpreting the body: it
    /// only locates boundaries. Fails with `MalformedHeader` when fewer
    /// bytes are present than the fixed front needs, when a reserved flag
    /// bit is set, when the tiered identifier cannot be read within
    /// bounds, or when the announced ack list does not fit the buffer.
    pub fn try_from_bytes(bytes: &[u8]) -> (r: Result<Header, PacketError>)
        ensures
            match r {
                Ok(h) => spec_parse_header(bytes@) == Some(h@) && h.wf() && h.size is Some,
                Err(e) => spec_parse_header(bytes@) is None && e == PacketError::MalformedHeader,
            },
    {
        let len = bytes.len();
        if len < 7 {
            return Err(PacketError::MalformedHeader);
        }
        let fb = bytes[0];
        if fb % 16 != 0 {
            return Err(PacketError::MalformedHeader);
        }
        let zerocoded = fb >= 128;
        let reliable = fb % 128 >= 64;
        let resent = fb % 64 >= 32;
        let appended_acks = fb % 32 >= 16;
        let sequence_number = read_u32_be(bytes, 1);
        let frequency: PacketFrequency;
        let id: u32;
        let size: usize;
        if bytes[6] != 0xff {
            frequency = PacketFrequency::High;
            id = bytes[6] as u32;
            size = 7;
        } else if len < 8 {
            return Err(PacketError::MalformedHeader);
        } else if bytes[7] != 0xff {
            frequency = PacketFrequency::Medium;
            id = bytes[7] as u32;
            size = 8;
        } else if len < 10 {
            return Err(PacketError::MalformedHeader);
        } else {
            frequency = PacketFrequency::Low;
            id = read_u16_be(bytes, 8) as u32;
            size = 10;
        }
        if !appended_acks {
            let h = Header {
                id,
                frequency,
                reliable,
                sequence_number,
                appended_acks: false,
                zerocoded,
                resent,
                ack_list: None,
                size: Some(size),
            };
            proof {
                assert(spec_parse_header(bytes@) == Some(h@));
            }
            return Ok(h);
        }
        let n = bytes[len - 1] as usize;
        if len < size + 1 || (len - size - 1) / 4 < n {
            proof {
                assert(bytes@.len() < size + 1 + 4 * (bytes@[bytes@.len() - 1] as int));
            }
            return Err(PacketError::MalformedHeader);
        }
        let start = len - 1 - 4 * n;
        let mut acks: Vec<u32> = Vec::new();
        let mut i: usize = 0;
        while i < n
            invariant
                i <= n,
                len == bytes@.len(),
                n == bytes@[len - 1] as int,
                len >= size + 1 + 4 * n,
                start == len - 1 - 4 * n,
                acks@.len() == i,
                forall|j: int|
                    0 <= j < i ==> acks@[j] == spec_parse_acks(bytes@, n as int)[j],
            decreases n - i,
        {
            let a = read_u32_be(bytes, start + 4 * i);
            acks.push(a);
            i = i + 1;
        }
        let h = Header {
            id,
            frequency,
            reliable,
            sequence_number,
            appended_acks: true,
            zerocoded,
            resent,
            ack_list: Some(acks),
            size: Some(size),
        };
        proof {
            assert(acks@ =~= spec_parse_acks(bytes@, n as int));
            assert(spec_parse_header(bytes@) == Some(h@));
        }
        Ok(h)
    }

    /// Encodes the leading header bytes: flags, sequence number, the spare
    /// byte, and the tiered identifier. Always succeeds for a structurally
    /// valid header. The ack tail, when any, follows the body and is
    /// written by the packet encoder.
    pub fn to_bytes(&self) -> (r: Vec<u8>)
        requires
            self.wf(),
        ensures
            r@ == spec_front_bytes(self@),
            r@.len() == spec_header_size(self.frequency),
    {
        let mut out: Vec<u8> = Vec::new();
        let mut flags: u8 = 0;
        if self.zerocoded {
            flags = flags + 128;
        }
        if self.reliable {
            flags = flags + 64;
        }
        if self.resent {
            flags = flags + 32;
        }
        if self.appended_acks {
            flags = flags + 16;
        }
        out.push(flags);
        write_u32_be(self.sequence_number, &mut out);
        out.push(0u8);
        match self.frequency {
            PacketFrequency::High => {
                out.push(self.id as u8);
            },
            PacketFrequency::Medium => {
                out.push(0xff);
                out.push(self.id as u8);
            },
            PacketFrequency::Low => {
                out.push(0xff);
                out.push(0xff);
                write_u16_be(self.id as u16, &mut out);
            },
        }
        proof {
            assert(out@ =~= spec_front_bytes(self@));
        }
        out
    }

    /// Appends the trailing ack bytes — each acknowledged sequence number
    /// big-endian, then their count — or nothing when no acks are carried.
    pub fn write_ack_tail(&self, out: &mut Vec<u8>)
        requires
            self.wf(),
        ensures
            final(out)@ == old(out)@ + spec_ack_tail(self@),
    {
        match &self.ack_list {
            None => {},
            Some(acks) => {
                let n = acks.len();
                let ghost base = out@;
                let mut i: usize = 0;
                while i < n
                    invariant
                        i <= n,
                        n == acks@.len() <= 255,
                        out@ == base + spec_acks_bytes(acks@.subrange(0, i as int)),
                    decreases n - i,
                {
                    proof {
                        lemma_acks_bytes_snoc(acks@.subrange(0, i as int), acks@[i as int]);
                        assert(acks@.subrange(0, i + 1) =~= acks@.subrange(0, i as int).push(
                            acks@[i as int],
                        ));
                    }
                    write_u32_be(acks[i], out);
                    i = i + 1;
                }
                proof {
                    assert(acks@.subrange(0, n as int) =~= acks@);
                }
                out.push(n as u8);
                proof {
                    assert(out@ =~= base + spec_ack_tail(self@));
                }
            },
        }
    }
}

/// A flag byte assembled from the four flags decodes back to them, and
/// a flag byte whose reserved bits are clear is reassembled exactly.
pub proof fn lemma_flags_byte_round_trip(hv: HeaderV, fb: u8)
    ensures
        spec_parse_flags(spec_flags_byte(hv)) == Some(
            (hv.zerocoded, hv.reliable, hv.resent, hv.acks is Some),
        ),
        fb % 16 == 0 ==> (spec_parse_flags(fb) matches Some((z, r, s, a)) && spec_flags_byte(
            HeaderV {
                zerocoded: z,
                reliable: r,
                resent: s,
                acks: if a {
                    Some(Seq::<u32>::empty())
                } else {
                    None
                },
                ..hv
            },
        ) == fb),
{
}

/// The front of a header is as long as `spec_header_size` says: flags,
/// sequence number, the spare byte, then the tier's identifier width.
pub proof fn lemma_front_bytes_len(hv: HeaderV)
    ensures
        spec_front_bytes(hv).len() == spec_header_size(hv.frequency),
{
    crate::wire::lemma_u16_be_round_trip();
    crate::wire::lemma_u32_be_round_trip();
}

/// The ack numbers read back from an encoded ack region are the ones
/// that were written.
pub proof fn lemma_parse_acks_of_bytes(b: Seq<u8>, a: Seq<u32>)
    requires
        b.len() >= 1 + 4 * a.len(),
        b.subrange(b.len() - 1 - 4 * a.len(), b.len() - 1) == spec_acks_bytes(a),
    ensures
        spec_parse_acks(b, a.len() as int) == a,
{
    let n = a.len() as int;
    let start = b.len() - 1 - 4 * n;
    crate::wire::lemma_u32_be_round_trip();
    lemma_acks_bytes_len(a);
    assert forall|i: int| 0 <= i < n implies spec_parse_acks(b, n)[i] == a[i] by {
        lemma_acks_bytes_index(a, i);
        assert(b.subrange(start + 4 * i, start + 4 * i + 4) =~= spec_acks_bytes(a).subrange(
            4 * i,
            4 * i + 4,
        ));
        assert(spec_u32_from_be_bytes(spec_u32_to_be_bytes(a[i])) == a[i]);
    }
    assert(spec_parse_acks(b, n) =~= a);
}

/// The bytes of the ack region reassemble from the ack numbers read out
/// of it.
pub proof fn lemma_acks_bytes_of_parse(b: Seq<u8>, n: int)
    requires
        0 <= n,
        b.len() >= 1 + 4 * n,
    ensures
        spec_acks_bytes(spec_parse_acks(b, n)) == b.subrange(b.len() - 1 - 4 * n, b.len() - 1),
{
    let a = spec_parse_acks(b, n);
    let start = b.len() - 1 - 4 * n;
    crate::wire::lemma_u32_be_round_trip();
    lemma_acks_bytes_len(a);
    assert forall|k: int| 0 <= k < 4 * n implies spec_acks_bytes(a)[k] == b[start + k] by {
        vstd::arithmetic::div_mod::lemma_fundamental_div_mod(k, 4);
        let i = k / 4;
        assert(0 <= i < n);
        lemma_acks_bytes_index(a, i);
        assert(a[i] == spec_u32_from_be_bytes(b.subrange(start + 4 * i, start + 4 * i + 4)));
        assert(spec_u32_to_be_bytes(a[i]) =~= b.subrange(start + 4 * i, start + 4 * i + 4));
        assert(spec_acks_bytes(a)[k] == spec_acks_bytes(a).subrange(4 * i, 4 * i + 4)[k - 4 * i]);
    }
    assert(spec_acks_bytes(a) =~= b.subrange(start, b.len() - 1));
}

/// Round trip of the header codec, each frequency tier exercising its
/// own identifier width: however the body bytes run, a well-formed
/// header written before them (and its ack tail after them) reads back
/// with the same identifier, frequency tag, flags, sequence number and
/// acks; `size` comes back as exactly the front's length.
pub proof fn lemma_header_round_trip(hv: HeaderV, body: Seq<u8>)
    requires
        header_v_wf(hv),
    ensures
        spec_parse_header(spec_front_bytes(hv) + body + spec_ack_tail(hv)) == Some(
            HeaderV { size: Some(spec_header_size(hv.frequency)), ..hv },
        ),
{
    let fb = spec_front_bytes(hv);
    let t = spec_ack_tail(hv);
    let b = fb + body + t;
    let size = spec_header_size(hv.frequency);
    lemma_front_bytes_len(hv);
    crate::wire::lemma_u16_be_round_trip();
    crate::wire::lemma_u32_be_round_trip();
    lemma_flags_byte_round_trip(hv, 0);
    assert(b[0] == spec_flags_byte(hv));
    assert(b.subrange(1, 5) =~= spec_u32_to_be_bytes(hv.sequence_number));
    assert(b[5] == 0u8);
    match hv.frequency {
        PacketFrequency::High => {
            assert(b[6] == hv.id as u8);
            assert(spec_parse_id(b) == Some((PacketFrequency::High, hv.id, 7int)));
        },
        PacketFrequency::Medium => {
            assert(b[6] == 0xff && b[7] == hv.id as u8);
            assert(spec_parse_id(b) == Some((PacketFrequency::Medium, hv.id, 8int)));
        },
        PacketFrequency::Low => {
            assert(b[6] == 0xff && b[7] == 0xff);
            assert(b.subrange(8, 10) =~= spec_u16_to_be_bytes(hv.id as u16));
            assert(spec_u16_from_be_bytes(b.subrange(8, 10)) == hv.id as u16);
            assert(spec_parse_id(b) == Some((PacketFrequency::Low, hv.id, 10int)));
        },
    }
    match hv.acks {
        None => {
            assert(spec_parse_header(b) == Some(
                HeaderV { size: Some(size), ..hv },
            ));
        },
        Some(a) => {
            lemma_acks_bytes_len(a);
            assert(t.len() == 4 * a.len() + 1);
            assert(b[b.len() - 1] == t[t.len() - 1]);
            assert(t[t.len() - 1] == a.len() as u8);
            let n = b[b.len() - 1] as int;
            assert(n == a.len());
            assert(b.len() >= size + 1 + 4 * n);
            assert(b.subrange(b.len() - 1 - 4 * n, b.len() - 1) =~= spec_acks_bytes(a));
            lemma_parse_acks_of_bytes(b, a);
            assert(spec_parse_acks(b, n) == a);
            assert(spec_parse_header(b) == Some(
                HeaderV { size: Some(size), ..hv },
            ));
        },
    }
}

/// Size determinism: the `size` a decode computes is exactly the offset
/// the front bytes of such a header occupy — flags, sequence number,
/// the spare byte, and the tier's identifier bytes.
pub proof fn lemma_size_deterministic(b: Seq<u8>, hv: HeaderV)
    requires
        spec_parse_header(b) == Some(hv),
    ensures
        hv.size == Some(spec_header_size(hv.frequency)),
        spec_front_bytes(hv).len() == spec_header_size(hv.frequency),
{
    lemma_front_bytes_len(hv);
}

/// A decoded header re-encodes to the very bytes it came from: the
/// front bytes reassemble before the body and the ack tail reassembles
/// after it, provided the spare extra-header byte was zero (its value
/// is tolerated on decode but not kept).
pub proof fn lemma_header_reencode(b: Seq<u8>, hv: HeaderV)
    requires
        spec_parse_header(b) == Some(hv),
        b[5] == 0,
    ensures
        hv.size == Some(spec_header_size(hv.frequency)),
        spec_header_size(hv.frequency) <= spec_body_end(b, hv) <= b.len(),
        spec_front_bytes(hv) == b.subrange(0, spec_header_size(hv.frequency)),
        spec_ack_tail(hv) == b.subrange(spec_body_end(b, hv), b.len() as int),
        header_v_wf(hv),
{
    let size = spec_header_size(hv.frequency);
    crate::wire::lemma_u16_be_round_trip();
    crate::wire::lemma_u32_be_round_trip();
    lemma_flags_byte_round_trip(hv, b[0]);
    assert(spec_flags_byte(hv) == b[0]);
    assert(spec_u32_to_be_bytes(hv.sequence_number) =~= b.subrange(1, 5));
    match hv.frequency {
        PacketFrequency::High => {
            assert(hv.id == b[6] as u32);
            assert(spec_id_bytes(hv.frequency, hv.id) =~= b.subrange(6, 7));
        },
        PacketFrequency::Medium => {
            assert(hv.id == b[7] as u32);
            assert(spec_id_bytes(hv.frequency, hv.id) =~= b.subrange(6, 8));
        },
        PacketFrequency::Low => {
            assert(hv.id == spec_u16_from_be_bytes(b.subrange(8, 10)) as u32);
            assert(spec_u16_to_be_bytes(hv.id as u16) =~= b.subrange(8, 10));
            assert(spec_id_bytes(hv.frequency, hv.id) =~= b.subrange(6, 10));
        },
    }
    assert(spec_front_bytes(hv) =~= b.subrange(0, size));
    match hv.acks {
        None => {
            assert(spec_ack_tail(hv) =~= b.subrange(spec_body_end(b, hv), b.len() as int));
        },
        Some(a) => {
            let n = b[b.len() - 1] as int;
            assert(a == spec_parse_acks(b, n));
            assert(a.len() == n);
            lemma_acks_bytes_of_parse(b, n);
            assert(spec_acks_bytes(a) == b.subrange(b.len() - 1 - 4 * n, b.len() - 1));
            assert(a.len() as u8 == b[b.len() - 1]);
            assert(spec_ack_tail(hv) =~= b.subrange(spec_body_end(b, hv), b.len() as int));
        },
    }
}

/// Appending one ack extends its byte form at the end.
pub proof fn lemma_acks_bytes_snoc(acks: Seq<u32>, x: u32)
    ensures
        spec_acks_bytes(acks.push(x)) == spec_acks_bytes(acks) + spec_u32_to_be_bytes(x),
    decreases acks.len(),
{
    if acks.len() == 0 {
        let p = acks.push(x);
        assert(p.len() == 1 && p[0] == x);
        assert(p.drop_first() =~= Seq::<u32>::empty());
        assert(spec_acks_bytes(p.drop_first()) =~= Seq::<u8>::empty());
        assert(spec_acks_bytes(p) =~= spec_u32_to_be_bytes(x) + spec_acks_bytes(p.drop_first()));
        assert(spec_acks_bytes(p) =~= spec_u32_to_be_bytes(x));
        assert(spec_acks_bytes(acks) + spec_u32_to_be_bytes(x) =~= spec_u32_to_be_bytes(x));
    } else {
        assert(acks.push(x).drop_first() =~= acks.drop_first().push(x));
        lemma_acks_bytes_snoc(acks.drop_first(), x);
        assert(spec_acks_bytes(acks.push(x)) =~= spec_acks_bytes(acks) + spec_u32_to_be_bytes(x));
    }
}

/// The byte form of an ack list is four bytes per entry.
pub proof fn lemma_acks_bytes_len(acks: Seq<u32>)
    ensures
        spec_acks_bytes(acks).len() == 4 * acks.len(),
    decreases acks.len(),
{
    if acks.len() > 0 {
        lemma_acks_bytes_len(acks.drop_first());
    }
}

/// Each entry of an ack list sits at its own four-byte slot.
pub proof fn lemma_acks_bytes_index(acks: Seq<u32>, i: int)
    requires
        0 <= i < acks.len(),
    ensures
        spec_acks_bytes(acks).subrange(4 * i, 4 * i + 4) == spec_u32_to_be_bytes(acks[i]),
    decreases acks.len(),
{
    lemma_acks_bytes_len(acks);
    if i == 0 {
        assert(spec_acks_bytes(acks).subrange(0, 4) =~= spec_u32_to_be_bytes(acks[0]));
    } else {
        lemma_acks_bytes_index(acks.drop_first(), i - 1);
        lemma_acks_bytes_len(acks.drop_first());
        assert(spec_acks_bytes(acks).subrange(4 * i, 4 * i + 4) =~= spec_acks_bytes(
            acks.drop_first(),
        ).subrange(4 * (i - 1), 4 * (i - 1) + 4));
    }
}

} // verus!
