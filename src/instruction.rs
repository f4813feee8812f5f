use vstd::prelude::*;
use crate::settlement::SwapOrder;

verus! {

/// Tag of the exchange's swap-with-exact-input instruction.
pub const SWAP_BASE_IN_TAG: u8 = 9;

/// The `n` low bytes of `x`, least significant first.
pub open spec fn le_bytes(x: nat, n: nat) -> Seq<u8>
    decreases n,
{
    if n == 0 {
        seq![]
    } else {
        seq![(x % 256) as u8] + le_bytes(x / 256, (n - 1) as nat)
    }
}

/// Instruction data of a swap with exact input: the tag, then the input
/// amount and the minimum output, each as eight little-endian bytes.
pub open spec fn swap_base_in_bytes(order: SwapOrder) -> Seq<u8> {
    seq![SWAP_BASE_IN_TAG] + le_bytes(order.amount_in as nat, 8) + le_bytes(order.minimum_amount_out as nat, 8)
}

fn push_le_u64(out: &mut Vec<u8>, x: u64)
    ensures
        final(out)@ == old(out)@ + le_bytes(x as nat, 8),
{
    let ghost start = out@;
    let mut v: u64 = x;
    let mut i: usize = 0;
    while i < 8
        invariant
            0 <= i <= 8,
            out@ + le_bytes(v as nat, (8 - i) as nat) == start + le_bytes(x as nat, 8),
        decreases 8 - i,
    {
        let ghost before = out@;
        assert(le_bytes(v as nat, (8 - i) as nat) == seq![(v % 256) as u8] + le_bytes(
            (v / 256) as nat,
            (8 - i - 1) as nat,
        ));
        out.push((v % 256) as u8);
        assert(out@ + le_bytes((v / 256) as nat, (8 - i - 1) as nat) =~= before + le_bytes(
            v as nat,
            (8 - i) as nat,
        ));
        v = v / 256;
        i = i + 1;
    }
    assert(le_bytes(v as nat, 0) =~= Seq::<u8>::empty());
    assert(out@ =~= out@ + le_bytes(v as nat, 0));
}

/// Encodes the data of the exchange instruction that carries out `order`.
pub fn swap_base_in_data(order: SwapOrder) -> (r: Vec<u8>)
    ensures
        r@ == swap_base_in_bytes(order),
        r@.len() == 17,
{
    let mut out: Vec<u8> = Vec::new();
    out.push(SWAP_BASE_IN_TAG);
    push_le_u64(&mut out, order.amount_in);
    push_le_u64(&mut out, order.minimum_amount_out);
    assert(out@ =~= swap_base_in_bytes(order));
    proof {
        reveal_with_fuel(le_bytes, 9);
    }
    out
}

} // verus!
