use crate::errors::PacketError;
use crate::header::{Header, PacketFrequency};
use crate::packet::{Packet, PacketData};
use crate::packet_types::{PacketType, LOGIN_ID};
use crate::wire::write_u32_le;
use vstd::prelude::*;

verus! {

/// The login request carried over the control channel: the credentials
/// and switches the remote authentication call consumes. Text fields are
/// raw UTF-8 bytes; the conversion from user-facing strings happens at
/// the transport edge.
///
/// Wire form: the six text fields in declaration order, each preceded by
/// a four-byte little-endian length, with the two flag bytes (strictly 0
/// or 1) between `channel` and `url`.
#[derive(Clone, Debug)]
pub struct LoginData {
    pub first: Vec<u8>,
    pub last: Vec<u8>,
    pub passwd: Vec<u8>,
    pub start: Vec<u8>,
    pub channel: Vec<u8>,
    pub agree_to_tos: bool,
    pub read_critical: bool,
    pub url: Vec<u8>,
}

/// Mathematical model of a login request.
pub struct LoginV {
    pub first: Seq<u8>,
    pub last: Seq<u8>,
    pub passwd: Seq<u8>,
    pub start: Seq<u8>,
    pub channel: Seq<u8>,
    pub agree_to_tos: bool,
    pub read_critical: bool,
    pub url: Seq<u8>,
}

impl View for LoginData {
    type V = LoginV;

    open spec fn view(&self) -> LoginV {
        LoginV {
            first: self.first@,
            last: self.last@,
            passwd: self.passwd@,
            start: self.start@,
            channel: self.channel@,
            agree_to_tos: self.agree_to_tos,
            read_critical: self.read_critical,
            url: self.url@,
        }
    }
}

/// A length-prefixed field: four bytes little-endian length, then the
/// bytes themselves.
pub open spec fn spec_lp_bytes(f: Seq<u8>) -> Seq<u8>
    recommends
        f.len() <= u32::MAX,
{
    vstd::bytes::spec_u32_to_le_bytes(f.len() as u32) + f
}

/// A flag byte: strictly one for true, zero for false.
pub open spec fn spec_bool_byte(b: bool) -> u8 {
    if b {
        1u8
    } else {
        0u8
    }
}

/// The exact wire form of a login request.
pub open spec fn spec_login_bytes(v: LoginV) -> Seq<u8> {
    spec_lp_bytes(v.first) + spec_lp_bytes(v.last) + spec_lp_bytes(v.passwd) + spec_lp_bytes(
        v.start,
    ) + spec_lp_bytes(v.channel) + seq![
        spec_bool_byte(v.agree_to_tos),
        spec_bool_byte(v.read_critical),
    ] + spec_lp_bytes(v.url)
}

/// Every text field fits its four-byte length prefix.
pub open spec fn spec_login_wf(v: LoginV) -> bool {
    &&& v.first.len() <= u32::MAX
    &&& v.last.len() <= u32::MAX
    &&& v.passwd.len() <= u32::MAX
    &&& v.start.len() <= u32::MAX
    &&& v.channel.len() <= u32::MAX
    &&& v.url.len() <= u32::MAX
}

/// Offset one past the length-prefixed field starting at `off`, or a
/// negative value when the field does not fit the buffer.
pub open spec fn spec_lp_end(b: Seq<u8>, off: int) -> int {
    if 0 <= off && off + 4 <= b.len() {
        let n = vstd::bytes::spec_u32_from_le_bytes(b.subrange(off, off + 4)) as int;
        if off + 4 + n <= b.len() {
            off + 4 + n
        } else {
            -1
        }
    } else {
        -1
    }
}

/// The bytes of the length-prefixed field starting at `off`.
pub open spec fn spec_lp_field(b: Seq<u8>, off: int) -> Seq<u8>
    recommends
        spec_lp_end(b, off) >= 0,
{
    b.subrange(off + 4, spec_lp_end(b, off))
}

/// Offset of the two flag bytes: one past the fifth text field.
pub open spec fn spec_login_flags_off(b: Seq<u8>) -> int {
    spec_lp_end(b, spec_lp_end(b, spec_lp_end(b, spec_lp_end(b, spec_lp_end(b, 0)))))
}

/// Whether the bytes are a complete, exact login body: five text fields,
/// two strict flag bytes, the final text field, and nothing after it.
pub open spec fn spec_login_parse_ok(b: Seq<u8>) -> bool {
    let o5 = spec_login_flags_off(b);
    &&& o5 >= 0
    &&& o5 + 2 <= b.len()
    &&& b[o5] <= 1
    &&& b[o5 + 1] <= 1
    &&& spec_lp_end(b, o5 + 2) == b.len()
}

/// The error for a body that is not a login request: trailing bytes
/// after a complete request are `BodyTooLong`; everything else — a field
/// cut short or an ill-formed flag byte — is `BodyTooShort`.
pub open spec fn spec_login_parse_err(b: Seq<u8>) -> PacketError {
    let o5 = spec_login_flags_off(b);
    if o5 >= 0 && o5 + 2 <= b.len() && b[o5] <= 1 && b[o5 + 1] <= 1 && spec_lp_end(b, o5 + 2) >= 0
        && spec_lp_end(b, o5 + 2) < b.len() {
        PacketError::BodyTooLong
    } else {
        PacketError::BodyTooShort
    }
}

impl PacketData for LoginData {
    open spec fn wire(&self) -> Seq<u8> {
        spec_login_bytes(self@)
    }

    open spec fn wf(&self) -> bool {
        spec_login_wf(self@)
    }

    open spec fn parse_ok(b: Seq<u8>) -> bool {
        spec_login_parse_ok(b)
    }

    open spec fn parse_err(b: Seq<u8>) -> PacketError {
        spec_login_parse_err(b)
    }

    fn from_bytes(bytes: &[u8]) -> (r: Result<Self, PacketError>) {
        let len = bytes.len();
        let (first, o1) = match read_lp(bytes, 0) {
            Some(p) => p,
            None => {
                return Err(PacketError::BodyTooShort);
            },
        };
        let (last, o2) = match read_lp(bytes, o1) {
            Some(p) => p,
            None => {
                return Err(PacketError::BodyTooShort);
            },
        };
        let (passwd, o3) = match read_lp(bytes, o2) {
            Some(p) => p,
            None => {
                return Err(PacketError::BodyTooShort);
            },
        };
        let (start, o4) = match read_lp(bytes, o3) {
            Some(p) => p,
            None => {
                return Err(PacketError::BodyTooShort);
            },
        };
        let (channel, o5) = match read_lp(bytes, o4) {
            Some(p) => p,
            None => {
                return Err(PacketError::BodyTooShort);
            },
        };
        if len - o5 < 2 {
            return Err(PacketError::BodyTooShort);
        }
        let tos_byte = bytes[o5];
        let crit_byte = bytes[o5 + 1];
        if tos_byte > 1 || crit_byte > 1 {
            return Err(PacketError::BodyTooShort);
        }
        let (url, o6) = match read_lp(bytes, o5 + 2) {
            Some(p) => p,
            None => {
                return Err(PacketError::BodyTooShort);
            },
        };
        if o6 < len {
            return Err(PacketError::BodyTooLong);
        }
        let v = LoginData {
            first,
            last,
            passwd,
            start,
            channel,
            agree_to_tos: tos_byte == 1,
            read_critical: crit_byte == 1,
            url,
        };
        proof {
            assert(v.wire() =~= bytes@);
        }
        Ok(v)
    }

    fn to_bytes(&self) -> (r: Vec<u8>) {
        let mut out: Vec<u8> = Vec::new();
        write_lp(&self.first, &mut out);
        write_lp(&self.last, &mut out);
        write_lp(&self.passwd, &mut out);
        write_lp(&self.start, &mut out);
        write_lp(&self.channel, &mut out);
        out.push(if self.agree_to_tos { 1 } else { 0 });
        out.push(if self.read_critical { 1 } else { 0 });
        write_lp(&self.url, &mut out);
        proof {
            assert(out@ =~= self.wire());
        }
        out
    }
}

impl Packet {
    /// A login-request packet as the control channel sends it: the same
    /// framing as the simulator protocol, carried only on the local
    /// channel and intercepted by the bridge, never forwarded.
    pub fn new_login_packet(login: LoginData) -> (r: Packet)
        requires
            spec_login_wf(login@),
        ensures
            r.header.id == LOGIN_ID,
            r.header.frequency == PacketFrequency::Low,
            !r.header.reliable,
            r.header.sequence_number == 0,
            !r.header.appended_acks,
            !r.header.zerocoded,
            !r.header.resent,
            r.header.ack_list is None,
            r.header.size is None,
            r.body == PacketType::Login(login),
            r.wf(),
    {
        Packet {
            header: Header {
                id: LOGIN_ID,
                frequency: PacketFrequency::Low,
                reliable: false,
                sequence_number: 0,
                appended_acks: false,
                zerocoded: false,
                resent: false,
                ack_list: None,
                size: None,
            },
            body: PacketType::Login(login),
        }
    }
}

/// A length-prefixed field written at `off` reads back as itself, and
/// the read stops exactly where the field ends.
proof fn lemma_lp_prefix(b: Seq<u8>, off: int, f: Seq<u8>)
    requires
        f.len() <= u32::MAX,
        0 <= off,
        off + 4 + f.len() <= b.len(),
        b.subrange(off, off + 4 + f.len()) == spec_lp_bytes(f),
    ensures
        spec_lp_end(b, off) == off + 4 + f.len(),
        spec_lp_field(b, off) == f,
{
    vstd::bytes::lemma_auto_spec_u32_to_from_le_bytes();
    assert(b.subrange(off, off + 4) =~= spec_lp_bytes(f).subrange(0, 4));
    assert(spec_lp_bytes(f).subrange(0, 4) =~= vstd::bytes::spec_u32_to_le_bytes(
        f.len() as u32,
    ));
    assert(vstd::bytes::spec_u32_from_le_bytes(b.subrange(off, off + 4)) == f.len() as u32);
    assert(spec_lp_end(b, off) == off + 4 + f.len());
    assert(b.subrange(off + 4, off + 4 + f.len()) =~= spec_lp_bytes(f).subrange(
        4,
        4 + f.len() as int,
    ));
    assert(spec_lp_bytes(f).subrange(4, 4 + f.len() as int) =~= f);
    assert(spec_lp_field(b, off) =~= f);
}

/// A login request's wire form determines it: two encodable requests
/// with the same bytes are the same request, so decoding an encoded
/// request preserves every field exactly.
pub proof fn lemma_login_wire_injective(v: LoginV, w: LoginV)
    requires
        spec_login_wf(v),
        spec_login_wf(w),
        spec_login_bytes(v) == spec_login_bytes(w),
    ensures
        v == w,
{
    let b = spec_login_bytes(v);
    lemma_login_fields_at(v);
    lemma_login_fields_at(w);
    assert(v.first == w.first);
    assert(v.last == w.last);
    assert(v.passwd == w.passwd);
    assert(v.start == w.start);
    assert(v.channel == w.channel);
    let o5 = spec_login_flags_off(b);
    assert(spec_bool_byte(v.agree_to_tos) == spec_bool_byte(w.agree_to_tos));
    assert(spec_bool_byte(v.read_critical) == spec_bool_byte(w.read_critical));
    assert(v.agree_to_tos == w.agree_to_tos && v.read_critical == w.read_critical);
    assert(v.url == w.url);
}

/// Where each field of an encoded login request sits: the wire form
/// parses, and every field reads back from its own slot.
pub proof fn lemma_login_fields_at(v: LoginV)
    requires
        spec_login_wf(v),
    ensures
        spec_login_parse_ok(spec_login_bytes(v)),
        ({
            let b = spec_login_bytes(v);
            let o1 = spec_lp_end(b, 0);
            let o2 = spec_lp_end(b, o1);
            let o3 = spec_lp_end(b, o2);
            let o4 = spec_lp_end(b, o3);
            let o5 = spec_lp_end(b, o4);
            &&& spec_lp_field(b, 0) == v.first
            &&& spec_lp_field(b, o1) == v.last
            &&& spec_lp_field(b, o2) == v.passwd
            &&& spec_lp_field(b, o3) == v.start
            &&& spec_lp_field(b, o4) == v.channel
            &&& o5 == spec_login_flags_off(b)
            &&& b[o5] == spec_bool_byte(v.agree_to_tos)
            &&& b[o5 + 1] == spec_bool_byte(v.read_critical)
            &&& spec_lp_field(b, o5 + 2) == v.url
        }),
{
    let b = spec_login_bytes(v);
    let p1 = spec_lp_bytes(v.first);
    let p2 = spec_lp_bytes(v.last);
    let p3 = spec_lp_bytes(v.passwd);
    let p4 = spec_lp_bytes(v.start);
    let p5 = spec_lp_bytes(v.channel);
    let fl = seq![spec_bool_byte(v.agree_to_tos), spec_bool_byte(v.read_critical)];
    let p6 = spec_lp_bytes(v.url);
    vstd::bytes::lemma_auto_spec_u32_to_from_le_bytes();
    let a1 = 4 + v.first.len() as int;
    let a2 = a1 + 4 + v.last.len();
    let a3 = a2 + 4 + v.passwd.len();
    let a4 = a3 + 4 + v.start.len();
    let a5 = a4 + 4 + v.channel.len();
    let a6 = a5 + 2 + 4 + v.url.len();
    assert(b.len() == a6);
    assert(b.subrange(0, a1) =~= p1);
    lemma_lp_prefix(b, 0, v.first);
    assert(b.subrange(a1, a2) =~= p2);
    lemma_lp_prefix(b, a1, v.last);
    assert(b.subrange(a2, a3) =~= p3);
    lemma_lp_prefix(b, a2, v.passwd);
    assert(b.subrange(a3, a4) =~= p4);
    lemma_lp_prefix(b, a3, v.start);
    assert(b.subrange(a4, a5) =~= p5);
    lemma_lp_prefix(b, a4, v.channel);
    assert(b[a5] == spec_bool_byte(v.agree_to_tos));
    assert(b[a5 + 1] == spec_bool_byte(v.read_critical));
    assert(b.subrange(a5 + 2, a6) =~= p6);
    lemma_lp_prefix(b, a5 + 2, v.url);
    assert(spec_login_flags_off(b) == a5);
    assert(spec_bool_byte(v.agree_to_tos) <= 1 && spec_bool_byte(v.read_critical) <= 1);
}

/// Reads one length-prefixed field; gives the field bytes and the offset
/// one past them.
fn read_lp(bytes: &[u8], off: usize) -> (r: Option<(Vec<u8>, usize)>)
    requires
        off <= bytes@.len(),
    ensures
        match r {
            Some(p) => {
                &&& spec_lp_end(bytes@, off as int) == p.1 as int
                &&& p.0@ == spec_lp_field(bytes@, off as int)
                &&& off + 4 <= p.1 <= bytes@.len()
                &&& spec_lp_bytes(p.0@) == bytes@.subrange(off as int, p.1 as int)
            },
            None => spec_lp_end(bytes@, off as int) < 0,
        },
{
    let len = bytes.len();
    if len - off < 4 {
        return None;
    }
    let n32 = crate::wire::read_u32_le(bytes, off);
    let n = n32 as usize;
    if len - (off + 4) < n {
        return None;
    }
    let part = vstd::slice::slice_subrange(bytes, off + 4, off + 4 + n);
    let field = vstd::slice::slice_to_vec(part);
    proof {
        vstd::bytes::lemma_auto_spec_u32_to_from_le_bytes();
        assert(spec_lp_bytes(field@) =~= bytes@.subrange(off as int, off + 4 + n));
    }
    Some((field, off + 4 + n))
}

/// Appends one length-prefixed field.
fn write_lp(f: &Vec<u8>, out: &mut Vec<u8>)
    requires
        f@.len() <= u32::MAX,
    ensures
        final(out)@ == old(out)@ + spec_lp_bytes(f@),
{
    write_u32_le(f.len() as u32, out);
    let n = f.len();
    let mut j: usize = 0;
    proof {
        assert(out@ =~= old(out)@ + vstd::bytes::spec_u32_to_le_bytes(f@.len() as u32)
            + f@.subrange(0, 0));
    }
    while j < n
        invariant
            j <= n,
            n == f@.len(),
            out@ == old(out)@ + vstd::bytes::spec_u32_to_le_bytes(f@.len() as u32) + f@.subrange(
                0,
                j as int,
            ),
        decreases n - j,
    {
        out.push(f[j]);
        proof {
            assert(f@.subrange(0, j + 1) =~= f@.subrange(0, j as int).push(f@[j as int]));
        }
        j = j + 1;
    }
    proof {
        assert(f@.subrange(0, n as int) =~= f@);
        assert(out@ =~= old(out)@ + spec_lp_bytes(f@));
    }
}

} // verus!
