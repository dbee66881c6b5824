use vstd::prelude::*;

verus! {

// Multi-byte header fields (sequence number, low-frequency identifier,
// appended acknowledgments) travel big-endian; body fields travel
// little-endian (vstd::bytes covers those).

/// Big-endian wire form of a 16-bit value.
pub open spec fn spec_u16_to_be_bytes(x: u16) -> Seq<u8> {
    seq![((x >> 8) & 0xff) as u8, (x & 0xff) as u8]
}

/// The 16-bit value read big-endian from two bytes.
pub open spec fn spec_u16_from_be_bytes(s: Seq<u8>) -> u16
    recommends
        s.len() == 2,
{
    (((s[0] as u16) << 8) | (s[1] as u16)) as u16
}

/// Big-endian wire form of a 32-bit value.
pub open spec fn spec_u32_to_be_bytes(x: u32) -> Seq<u8> {
    seq![
        ((x >> 24) & 0xff) as u8,
        ((x >> 16) & 0xff) as u8,
        ((x >> 8) & 0xff) as u8,
        (x & 0xff) as u8,
    ]
}

/// The 32-bit value read big-endian from four bytes.
pub open spec fn spec_u32_from_be_bytes(s: Seq<u8>) -> u32
    recommends
        s.len() == 4,
{
    (((s[0] as u32) << 24) | ((s[1] as u32) << 16) | ((s[2] as u32) << 8) | (s[3] as u32)) as u32
}

/// Encoding and decoding big-endian 16-bit values invert each other.
pub proof fn lemma_u16_be_round_trip()
    ensures
        forall|x: u16|
            {
                &&& #[trigger] spec_u16_to_be_bytes(x).len() == 2
                &&& spec_u16_from_be_bytes(spec_u16_to_be_bytes(x)) == x
            },
        forall|s: Seq<u8>|
            s.len() == 2 ==> #[trigger] spec_u16_to_be_bytes(spec_u16_from_be_bytes(s)) == s,
{
    assert forall|x: u16|
        {
            &&& #[trigger] spec_u16_to_be_bytes(x).len() == 2
            &&& spec_u16_from_be_bytes(spec_u16_to_be_bytes(x)) == x
        } by {
        assert(((((((x >> 8) & 0xff) as u8) as u16) << 8) | (((x & 0xff) as u8) as u16)) as u16
            == x) by (bit_vector);
    }
    assert forall|s: Seq<u8>| s.len() == 2 implies #[trigger] spec_u16_to_be_bytes(
        spec_u16_from_be_bytes(s),
    ) == s by {
        let a = s[0];
        let b = s[1];
        let x = spec_u16_from_be_bytes(s);
        assert(x == (((a as u16) << 8) | (b as u16)) as u16 ==> ((x >> 8) & 0xff) as u8 == a && (x
            & 0xff) as u8 == b) by (bit_vector);
        assert(spec_u16_to_be_bytes(x) =~= s);
    }
}

/// Encoding and decoding big-endian 32-bit values invert each other.
pub proof fn lemma_u32_be_round_trip()
    ensures
        forall|x: u32|
            {
                &&& #[trigger] spec_u32_to_be_bytes(x).len() == 4
                &&& spec_u32_from_be_bytes(spec_u32_to_be_bytes(x)) == x
            },
        forall|s: Seq<u8>|
            s.len() == 4 ==> #[trigger] spec_u32_to_be_bytes(spec_u32_from_be_bytes(s)) == s,
{
    assert forall|x: u32|
        {
            &&& #[trigger] spec_u32_to_be_bytes(x).len() == 4
            &&& spec_u32_from_be_bytes(spec_u32_to_be_bytes(x)) == x
        } by {
        assert((((((x >> 24) & 0xff) as u8 as u32) << 24) | ((((x >> 16) & 0xff) as u8 as u32)
            << 16) | ((((x >> 8) & 0xff) as u8 as u32) << 8) | ((x & 0xff) as u8 as u32)) as u32
            == x) by (bit_vector);
    }
    assert forall|s: Seq<u8>| s.len() == 4 implies #[trigger] spec_u32_to_be_bytes(
        spec_u32_from_be_bytes(s),
    ) == s by {
        let a = s[0];
        let b = s[1];
        let c = s[2];
        let d = s[3];
        let x = spec_u32_from_be_bytes(s);
        assert(x == (((a as u32) << 24) | ((b as u32) << 16) | ((c as u32) << 8) | (d as u32)) as u32
            ==> ((x >> 24) & 0xff) as u8 == a && ((x >> 16) & 0xff) as u8 == b && ((x >> 8)
            & 0xff) as u8 == c && (x & 0xff) as u8 == d) by (bit_vector);
        assert(spec_u32_to_be_bytes(x) =~= s);
    }
}

/// Reads a big-endian 16-bit value at an offset of a buffer.
pub fn read_u16_be(b: &[u8], off: usize) -> (x: u16)
    requires
        off + 2 <= b@.len(),
    ensures
        x == spec_u16_from_be_bytes(b@.subrange(off as int, off + 2)),
{
    let x = ((b[off] as u16) << 8u16) | (b[off + 1] as u16);
    proof {
        let s = b@.subrange(off as int, off + 2);
        assert(s[0] == b@[off as int] && s[1] == b@[off as int + 1]);
    }
    x
}

/// Reads a big-endian 32-bit value at an offset of a buffer.
pub fn read_u32_be(b: &[u8], off: usize) -> (x: u32)
    requires
        off + 4 <= b@.len(),
    ensures
        x == spec_u32_from_be_bytes(b@.subrange(off as int, off + 4)),
{
    let x = ((b[off] as u32) << 24u32) | ((b[off + 1] as u32) << 16u32) | ((b[off + 2] as u32)
        << 8u32) | (b[off + 3] as u32);
    proof {
        let s = b@.subrange(off as int, off + 4);
        assert(s[0] == b@[off as int] && s[1] == b@[off as int + 1] && s[2] == b@[off as int + 2]
            && s[3] == b@[off as int + 3]);
    }
    x
}

/// Reads a little-endian 32-bit value at an offset of a buffer.
pub fn read_u32_le(b: &[u8], off: usize) -> (x: u32)
    requires
        off + 4 <= b@.len(),
    ensures
        x == vstd::bytes::spec_u32_from_le_bytes(b@.subrange(off as int, off + 4)),
{
    let _bound = b.len();
    let part = vstd::slice::slice_subrange(b, off, off + 4);
    vstd::bytes::u32_from_le_bytes(part)
}

/// Appends a big-endian 16-bit value to an output buffer.
pub fn write_u16_be(x: u16, out: &mut Vec<u8>)
    ensures
        final(out)@ == old(out)@ + spec_u16_to_be_bytes(x),
{
    out.push(((x >> 8u16) & 0xff) as u8);
    out.push((x & 0xff) as u8);
    proof {
        assert(out@ =~= old(out)@ + spec_u16_to_be_bytes(x));
    }
}

/// Appends a big-endian 32-bit value to an output buffer.
pub fn write_u32_be(x: u32, out: &mut Vec<u8>)
    ensures
        final(out)@ == old(out)@ + spec_u32_to_be_bytes(x),
{
    out.push(((x >> 24u32) & 0xff) as u8);
    out.push(((x >> 16u32) & 0xff) as u8);
    out.push(((x >> 8u32) & 0xff) as u8);
    out.push((x & 0xff) as u8);
    proof {
        assert(out@ =~= old(out)@ + spec_u32_to_be_bytes(x));
    }
}

/// Appends a little-endian 32-bit value to an output buffer.
pub fn write_u32_le(x: u32, out: &mut Vec<u8>)
    ensures
        final(out)@ == old(out)@ + vstd::bytes::spec_u32_to_le_bytes(x),
{
    let mut bytes = vstd::bytes::u32_to_le_bytes(x);
    out.append(&mut bytes);
}

} // verus!
