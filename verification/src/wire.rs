//! Little-endian byte encoding of the integers that cross the device boundary.

use vstd::prelude::*;

verus! {

/// The `n` least significant bytes of `x`, least significant first.
pub open spec fn le_bytes(x: nat, n: nat) -> Seq<u8>
    decreases n,
{
    if n == 0 {
        Seq::empty()
    } else {
        seq![(x % 256) as u8] + le_bytes(x / 256, (n - 1) as nat)
    }
}

/// The value that `bytes` spells when read least significant byte first.
pub open spec fn le_value(bytes: Seq<u8>) -> nat
    decreases bytes.len(),
{
    if bytes.len() == 0 {
        0
    } else {
        bytes[0] as nat + 256 * le_value(bytes.drop_first())
    }
}

/// 256 to the power `n`.
pub open spec fn radix_pow(n: nat) -> nat
    decreases n,
{
    if n == 0 {
        1
    } else {
        256 * radix_pow((n - 1) as nat)
    }
}

/// An encoding of width `n` has exactly `n` bytes.
pub proof fn lemma_le_bytes_len(x: nat, n: nat)
    ensures
        le_bytes(x, n).len() == n,
    decreases n,
{
    if n > 0 {
        lemma_le_bytes_len(x / 256, (n - 1) as nat);
    }
}

/// Encoding loses nothing: a value that fits in `n` bytes is read back
/// unchanged from its encoding.
pub proof fn lemma_le_round_trip(x: nat, n: nat)
    requires
        x < radix_pow(n),
    ensures
        le_value(le_bytes(x, n)) == x,
    decreases n,
{
    if n > 0 {
        let rest = le_bytes(x / 256, (n - 1) as nat);
        let all = le_bytes(x, n);
        assert(all.drop_first() =~= rest);
        assert(x / 256 < radix_pow((n - 1) as nat)) by (nonlinear_arith)
            requires
                x < 256 * radix_pow((n - 1) as nat),
        ;
        lemma_le_round_trip(x / 256, (n - 1) as nat);
    }
}

/// Appends the `n` least significant bytes of `x` to `out`, least
/// significant first.
pub fn put_le(out: &mut Vec<u8>, x: u64, n: usize)
    ensures
        final(out)@ == old(out)@ + le_bytes(x as nat, n as nat),
{
    let mut rest: u64 = x;
    let mut i: usize = 0;
    while i < n
        invariant
            i <= n,
            out@ + le_bytes(rest as nat, (n - i) as nat) == old(out)@ + le_bytes(
                x as nat,
                n as nat,
            ),
        decreases n - i,
    {
        let ghost before = out@;
        out.push((rest % 256) as u8);
        proof {
            let tail = le_bytes((rest / 256) as nat, (n - i - 1) as nat);
            assert(le_bytes(rest as nat, (n - i) as nat) == seq![(rest % 256) as u8] + tail);
            assert(out@ + tail =~= before + (seq![(rest % 256) as u8] + tail));
        }
        rest = rest / 256;
        i += 1;
    }
    assert(out@ + le_bytes(rest as nat, 0) =~= out@);
}

} // verus!
