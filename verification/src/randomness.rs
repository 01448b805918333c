use vstd::prelude::*;
use crate::types::Randomness;

verus! {

/// The canonical form of 32-byte randomness: the top two bits of the
/// final byte cleared, so the value is a valid element of the proof
/// system's scalar field. All other bytes are unchanged.
pub open spec fn masked(s: Seq<u8>) -> Seq<u8>
    recommends
        s.len() == 32,
{
    s.update(31, (s[31] & 0x3f) as u8)
}

/// Copies a byte buffer.
pub fn copy_bytes(v: &Vec<u8>) -> (r: Vec<u8>)
    ensures
        r@ == v@,
{
    let mut out: Vec<u8> = Vec::new();
    let mut i: usize = 0;
    while i < v.len()
        invariant
            i <= v@.len(),
            out@ == v@.subrange(0, i as int),
        decreases v@.len() - i,
    {
        out.push(v[i]);
        i = i + 1;
        proof {
            assert(out@ =~= v@.subrange(0, i as int));
        }
    }
    proof {
        assert(out@ =~= v@);
    }
    out
}

/// Canonicalizes raw randomness by masking the final byte with 0x3f.
/// The masking is applied unconditionally, to a private copy: the
/// caller's buffer is never changed.
pub fn canonicalize_randomness(raw: &Randomness) -> (r: Randomness)
    requires
        raw.0@.len() == 32,
    ensures
        r.0@ == masked(raw.0@),
{
    let mut v = copy_bytes(&raw.0);
    let b: u8 = v[31] & 0x3f;
    v.set(31, b);
    proof {
        assert(v@ =~= masked(raw.0@));
    }
    Randomness(v)
}

} // verus!
