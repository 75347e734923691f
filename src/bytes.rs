//! Byte-level helpers shared by the record codec.

use crate::address::Address;
use vstd::prelude::*;

verus! {

/// Appends `b` to `out`.
pub(crate) fn append_bytes(out: &mut Vec<u8>, b: &[u8])
    ensures
        final(out)@ == old(out)@ + b@,
{
    let mut i: usize = 0;
    while i < b.len()
        invariant
            0 <= i <= b@.len(),
            out@ == old(out)@ + b@.subrange(0, i as int),
        decreases b@.len() - i,
    {
        out.push(b[i]);
        i = i + 1;
        proof {
            assert(b@.subrange(0, i as int) =~= b@.subrange(0, i - 1) + seq![b@[i - 1]]);
        }
    }
    proof {
        assert(b@.subrange(0, b@.len() as int) =~= b@);
    }
}

/// The bytes of `data` from `from` up to `to`, as a vector.
pub(crate) fn copy_range(data: &[u8], from: usize, to: usize) -> (r: Vec<u8>)
    requires
        from <= to <= data@.len(),
    ensures
        r@ == data@.subrange(from as int, to as int),
{
    let mut r: Vec<u8> = Vec::new();
    let mut i: usize = from;
    while i < to
        invariant
            from <= i <= to,
            to <= data@.len(),
            r@ == data@.subrange(from as int, i as int),
        decreases to - i,
    {
        r.push(data[i]);
        i = i + 1;
        proof {
            assert(data@.subrange(from as int, i as int) =~= data@.subrange(from as int, i - 1)
                + seq![data@[i - 1]]);
        }
    }
    r
}

/// The 32 bytes of `data` that start at `at`, as an address.
pub(crate) fn read_address(data: &[u8], at: usize) -> (r: Address)
    requires
        at + 32 <= data@.len(),
    ensures
        r@ == data@.subrange(at as int, at + 32),
{
    let n = data.len();
    let mut bytes: [u8; 32] = [0u8; 32];
    let mut i: usize = 0;
    while i < 32
        invariant
            0 <= i <= 32,
            n == data@.len(),
            at + 32 <= data@.len(),
            forall|j: int| 0 <= j < i ==> bytes@[j] == data@[at + j],
        decreases 32 - i,
    {
        bytes[i] = data[at + i];
        i = i + 1;
    }
    let r = Address { bytes };
    proof {
        assert(r@ =~= data@.subrange(at as int, at + 32));
    }
    r
}

/// Whether the eight bytes of `data` at the start equal `tag`.
pub(crate) fn starts_with_tag(data: &[u8], tag: &[u8; 8]) -> (r: bool)
    requires
        8 <= data@.len(),
    ensures
        r == (data@.subrange(0, 8) == tag@),
{
    let mut i: usize = 0;
    while i < 8
        invariant
            0 <= i <= 8,
            8 <= data@.len(),
            forall|j: int| 0 <= j < i ==> data@[j] == tag@[j],
        decreases 8 - i,
    {
        if data[i] != tag[i] {
            proof {
                assert(data@.subrange(0, 8)[i as int] != tag@[i as int]);
            }
            return false;
        }
        i = i + 1;
    }
    proof {
        assert(data@.subrange(0, 8) =~= tag@);
    }
    true
}

} // verus!
