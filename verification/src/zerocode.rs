use vstd::prelude::*;

verus! {

/// Meaning of a zero-coded byte stream: a zero byte is a run marker whose
/// following byte counts the zeros it stands for; every other byte stands
/// for itself. A marker cut off by the end of the stream expands to
/// nothing.
pub open spec fn spec_zero_expand(b: Seq<u8>) -> Seq<u8>
    decreases b.len(),
{
    if b.len() == 0 {
        Seq::empty()
    } else if b[0] == 0 {
        if b.len() == 1 {
            Seq::empty()
        } else {
            Seq::new(b[1] as nat, |i: int| 0u8) + spec_zero_expand(b.skip(2))
        }
    } else {
        seq![b[0]] + spec_zero_expand(b.skip(1))
    }
}

/// Expands a zero-coded body before it is handed to the type registry.
/// Expansion is a preprocessing stage of its own: header decode never
/// needs it, because the header only locates boundaries.
pub fn zero_expand(b: &[u8]) -> (r: Vec<u8>)
    ensures
        r@ == spec_zero_expand(b@),
{
    let len = b.len();
    let mut out: Vec<u8> = Vec::new();
    let mut i: usize = 0;
    proof {
        assert(b@.skip(0) =~= b@);
        assert(out@ + spec_zero_expand(b@.skip(0)) =~= spec_zero_expand(b@));
    }
    while i < len
        invariant
            i <= len,
            len == b@.len(),
            spec_zero_expand(b@) == out@ + spec_zero_expand(b@.skip(i as int)),
        decreases len - i,
    {
        let ghost pre = out@;
        let ghost rest = b@.skip(i as int);
        proof {
            assert(rest[0] == b@[i as int]);
        }
        if b[i] == 0 {
            if i + 1 == len {
                proof {
                    assert(rest.len() == 1);
                    assert(spec_zero_expand(rest) =~= Seq::<u8>::empty());
                    assert(b@.skip(len as int) =~= Seq::<u8>::empty());
                    assert(out@ + spec_zero_expand(b@.skip(len as int)) =~= out@);
                }
                i = len;
            } else {
                let count = b[i + 1];
                proof {
                    assert(rest[1] == b@[i + 1]);
                    assert(rest.skip(2) =~= b@.skip(i + 2));
                }
                let mut k: usize = 0;
                while k < count as usize
                    invariant
                        k <= count as usize,
                        out@ == pre + Seq::new(k as nat, |j: int| 0u8),
                    decreases count as usize - k,
                {
                    out.push(0u8);
                    proof {
                        assert(Seq::new((k + 1) as nat, |j: int| 0u8) =~= Seq::new(
                            k as nat,
                            |j: int| 0u8,
                        ).push(0u8));
                    }
                    k = k + 1;
                }
                proof {
                    assert(spec_zero_expand(rest) == Seq::new(count as nat, |j: int| 0u8)
                        + spec_zero_expand(b@.skip(i + 2)));
                    assert(out@ + spec_zero_expand(b@.skip(i + 2)) =~= pre + spec_zero_expand(
                        rest,
                    ));
                }
                i = i + 2;
            }
        } else {
            out.push(b[i]);
            proof {
                assert(rest.skip(1) =~= b@.skip(i + 1));
                assert(out@ + spec_zero_expand(b@.skip(i + 1)) =~= pre + spec_zero_expand(rest));
            }
            i = i + 1;
        }
    }
    proof {
        assert(b@.skip(len as int) =~= Seq::<u8>::empty());
        assert(out@ + spec_zero_expand(b@.skip(len as int)) =~= out@);
    }
    out
}

} // verus!
