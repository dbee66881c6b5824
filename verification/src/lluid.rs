use vstd::prelude::*;

verus! {

/// A 128-bit identifier (agent id, session id), carried on the wire as its
/// 16 raw bytes; no hyphenated or string encoding ever appears in a packet.
#[derive(Clone, Copy, Debug)]
pub struct Lluid {
    pub bytes: [u8; 16],
}

impl Lluid {
    /// The wire form: exactly the 16 raw bytes.
    pub open spec fn view_bytes(self) -> Seq<u8> {
        self.bytes@
    }

    /// Reads an identifier from 16 consecutive bytes of a buffer.
    pub fn from_slice_at(b: &[u8], off: usize) -> (r: Lluid)
        requires
            off + 16 <= b@.len(),
        ensures
            r.view_bytes() == b@.subrange(off as int, off + 16),
    {
        let bytes: [u8; 16] = [
            b[off],
            b[off + 1],
            b[off + 2],
            b[off + 3],
            b[off + 4],
            b[off + 5],
            b[off + 6],
            b[off + 7],
            b[off + 8],
            b[off + 9],
            b[off + 10],
            b[off + 11],
            b[off + 12],
            b[off + 13],
            b[off + 14],
            b[off + 15],
        ];
        proof {
            assert(bytes@ =~= b@.subrange(off as int, off + 16));
        }
        Lluid { bytes }
    }

    /// Appends the 16 raw bytes to an output buffer.
    pub fn write_to(&self, out: &mut Vec<u8>)
        ensures
            final(out)@ == old(out)@ + self.view_bytes(),
    {
        let mut i: usize = 0;
        while i < 16
            invariant
                i <= 16,
                out@ == old(out)@ + self.bytes@.subrange(0, i as int),
            decreases 16 - i,
        {
            out.push(self.bytes[i]);
            proof {
                assert(self.bytes@.subrange(0, i + 1) =~= self.bytes@.subrange(0, i as int).push(
                    self.bytes@[i as int],
                ));
            }
            i = i + 1;
        }
        proof {
            assert(self.bytes@.subrange(0, 16) =~= self.bytes@);
        }
    }

    /// Equality of two identifiers, byte for byte.
    pub fn same_as(&self, other: &Lluid) -> (r: bool)
        ensures
            r <==> self.view_bytes() == other.view_bytes(),
    {
        let mut i: usize = 0;
        while i < 16
            invariant
                i <= 16,
                forall|j: int| 0 <= j < i ==> self.bytes@[j] == other.bytes@[j],
            decreases 16 - i,
        {
            if self.bytes[i] != other.bytes[i] {
                proof {
                    assert(self.view_bytes() != other.view_bytes()) by {
                        assert(self.view_bytes()[i as int] != other.view_bytes()[i as int]);
                    }
                }
                return false;
            }
            i = i + 1;
        }
        proof {
            assert(self.view_bytes() =~= other.view_bytes());
        }
        true
    }
}

} // verus!
