use vstd::prelude::*;
use vstd::arithmetic::div_mod::lemma_multiply_divide_lt;
use vstd::arithmetic::power::pow;

verus! {

/// Unsigned varint encoding of a number: little-endian base-128 groups,
/// with the high bit of every byte but the last set as a continuation
/// marker. This is the canonical address payload of a numeric actor id.
pub open spec fn varint(n: nat) -> Seq<u8>
    decreases n,
{
    if n < 128 {
        seq![n as u8]
    } else {
        seq![((n % 128) + 128) as u8].add(varint(n / 128))
    }
}

/// A varint of a number below 128^k takes at most k bytes.
pub proof fn lemma_varint_len(n: nat, k: nat)
    requires
        1 <= k,
        n < pow(128, k),
    ensures
        varint(n).len() <= k,
    decreases k,
{
    reveal_with_fuel(pow, 3);
    if n < 128 {
    } else {
        assert(pow(128, 1) == 128 * pow(128, 0));
        if k == 1 {
            assert(false);
        }
        assert(pow(128, k) == 128 * pow(128, (k - 1) as nat));
        lemma_multiply_divide_lt(n as int, 128, pow(128, (k - 1) as nat) as int);
        lemma_varint_len(n / 128, (k - 1) as nat);
    }
}

/// A varint of a 64-bit number takes at most 10 bytes.
pub proof fn lemma_varint_len_u64(n: nat)
    requires
        n < 0x10000000000000000,
    ensures
        varint(n).len() <= 10,
{
    assert(pow(128, 10) == 0x400000000000000000) by {
        reveal_with_fuel(pow, 11);
    }
    lemma_varint_len(n, 10);
}

/// The prover identity bytes of an actor id: its varint address payload,
/// left-aligned in a zero-filled 32-byte buffer.
pub open spec fn prover_id_bytes(id: u64) -> Seq<u8> {
    varint(id as nat).add(Seq::new((32 - varint(id as nat).len()) as nat, |i: int| 0u8))
}

/// The prover identity's final byte is always zero: the varint payload
/// of a 64-bit id takes at most 10 bytes, and the rest is zero fill. So
/// the identity is always a canonical scalar-field element.
pub proof fn lemma_prover_id_high_byte(id: u64)
    ensures
        prover_id_bytes(id).len() == 32,
        prover_id_bytes(id)[31] == 0,
{
    lemma_varint_len_u64(id as nat);
}

/// Derives the fixed-size prover identity from a numeric actor id. The
/// numeric-id address payload always encodes, so this cannot fail.
pub fn prover_id_from_u64(id: u64) -> (r: Vec<u8>)
    ensures
        r@ == prover_id_bytes(id),
        r@.len() == 32,
{
    proof {
        lemma_varint_len_u64(id as nat);
    }
    let mut out: Vec<u8> = Vec::new();
    let mut n: u64 = id;
    proof {
        assert(out@.add(varint(n as nat)) =~= varint(id as nat));
    }
    while n >= 128
        invariant
            out@.add(varint(n as nat)) == varint(id as nat),
        decreases n,
    {
        let ghost pre_out = out@;
        let ghost pre_n = n as nat;
        proof {
            assert(varint(pre_n) =~= seq![((pre_n % 128) + 128) as u8].add(varint(pre_n / 128)));
        }
        let b: u8 = (n % 128 + 128) as u8;
        out.push(b);
        n = n / 128;
        proof {
            assert(b == ((pre_n % 128) + 128) as u8);
            assert(n as nat == pre_n / 128);
            assert(out@.add(varint(n as nat)) =~= pre_out.add(varint(pre_n)));
        }
    }
    let ghost tail_out = out@;
    let ghost tail_n = n as nat;
    out.push(n as u8);
    proof {
        assert(varint(tail_n) =~= seq![tail_n as u8]);
        assert(out@ =~= tail_out.add(varint(tail_n)));
        assert(out@ =~= varint(id as nat));
        assert(out@.subrange(0, out@.len() as int) =~= out@);
    }
    while out.len() < 32
        invariant
            varint(id as nat).len() <= out@.len(),
            out@.len() <= 32,
            out@.subrange(0, varint(id as nat).len() as int) == varint(id as nat),
            forall|j: int| varint(id as nat).len() <= j < out@.len() ==> out@[j] == 0u8,
        decreases 32 - out@.len(),
    {
        let ghost pre_pad = out@;
        out.push(0u8);
        proof {
            assert(out@.subrange(0, varint(id as nat).len() as int) =~= pre_pad.subrange(
                0,
                varint(id as nat).len() as int,
            ));
        }
    }
    proof {
        assert(out@ =~= prover_id_bytes(id));
    }
    out
}

} // verus!
