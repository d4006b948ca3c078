//! Little-endian integers as they stand in the rollup's wire formats.
//!
//! The model is arithmetic: a run of bytes spells the number
//! `b0 + 256 * b1 + 256^2 * b2 + ...`. Readers and writers are proved against
//! that model, and a lemma says that reading what was written gives the number
//! back.
use vstd::prelude::*;

verus! {

/// 256 to the power `n`.
pub open spec fn pow256(n: nat) -> nat
    decreases n,
{
    if n == 0 {
        1
    } else {
        256 * pow256((n - 1) as nat)
    }
}

/// The number that the bytes of `s` spell, least significant byte first.
pub open spec fn le_value(s: Seq<u8>) -> nat
    decreases s.len(),
{
    if s.len() == 0 {
        0
    } else {
        s[0] as nat + 256 * le_value(s.drop_first())
    }
}

/// The `width` low bytes of `value`, least significant byte first.
pub open spec fn le_bytes(value: nat, width: nat) -> Seq<u8>
    decreases width,
{
    if width == 0 {
        Seq::<u8>::empty()
    } else {
        seq![(value % 256) as u8] + le_bytes(value / 256, (width - 1) as nat)
    }
}

/// The powers of 256 at the widths of the machine integers.
pub proof fn lemma_pow256_widths()
    ensures
        pow256(0) == 1,
        pow256(1) == 0x100,
        pow256(4) == 0x1_0000_0000,
        pow256(8) == 0x1_0000_0000_0000_0000,
        pow256(16) == 0x1_0000_0000_0000_0000_0000_0000_0000_0000,
{
    reveal_with_fuel(pow256, 5);
    assert(pow256(4) == 0x1_0000_0000);
    assert(pow256(8) == 0x1_0000_0000 * pow256(4));
    assert(pow256(12) == 0x1_0000_0000 * pow256(8));
    assert(pow256(16) == 0x1_0000_0000 * pow256(12));
}

/// `pow256` never shrinks as the exponent grows.
pub proof fn lemma_pow256_monotonic(a: nat, b: nat)
    requires
        a <= b,
    ensures
        1 <= pow256(a) <= pow256(b),
    decreases b,
{
    if b == 0 {
    } else if a == b {
        lemma_pow256_monotonic((a - 1) as nat, (b - 1) as nat);
    } else {
        lemma_pow256_monotonic(a, (b - 1) as nat);
    }
}

/// `le_bytes` yields exactly `width` bytes.
pub proof fn lemma_le_bytes_len(value: nat, width: nat)
    ensures
        le_bytes(value, width).len() == width,
    decreases width,
{
    if width > 0 {
        lemma_le_bytes_len(value / 256, (width - 1) as nat);
    }
}

/// Writing a number that fits in `width` bytes and reading the bytes back gives
/// the number again.
pub proof fn lemma_le_value_of_bytes(value: nat, width: nat)
    requires
        value < pow256(width),
    ensures
        le_value(le_bytes(value, width)) == value,
    decreases width,
{
    if width > 0 {
        let rest = le_bytes(value / 256, (width - 1) as nat);
        let all = le_bytes(value, width);
        assert(all.drop_first() =~= rest);
        lemma_le_value_of_bytes(value / 256, (width - 1) as nat);
    }
}

/// Reads the `width` bytes of `data` that start at `at` as one number.
pub fn read_le(data: &[u8], at: usize, width: usize) -> (v: u128)
    requires
        width <= 16,
        at + width <= data@.len(),
    ensures
        v as nat == le_value(data@.subrange(at as int, at + width)),
        (v as nat) < pow256(width as nat),
{
    let total = data.len();
    let mut v: u128 = 0;
    let mut k: usize = width;
    proof {
        lemma_pow256_widths();
    }
    while k > 0
        invariant
            k <= width <= 16,
            at + width <= total == data@.len(),
            v as nat == le_value(data@.subrange(at + k, at + width)),
            (v as nat) < pow256((width - k) as nat),
        decreases k,
    {
        k -= 1;
        proof {
            let seen = data@.subrange(at + k + 1, at + width);
            let grown = data@.subrange(at + k, at + width);
            assert(grown.drop_first() =~= seen);
            lemma_pow256_monotonic((width - k - 1) as nat, 15);
            lemma_pow256_widths();
            assert(pow256(16) == 256 * pow256(15));
        }
        v = v * 256 + data[at + k] as u128;
    }
    v
}

/// Reads a 32-bit number at `at`.
pub fn read_u32_le(data: &[u8], at: usize) -> (v: u32)
    requires
        at + 4 <= data@.len(),
    ensures
        v as nat == le_value(data@.subrange(at as int, at + 4)),
{
    let wide = read_le(data, at, 4);
    proof {
        lemma_pow256_widths();
    }
    wide as u32
}

/// Reads a 64-bit number at `at`.
pub fn read_u64_le(data: &[u8], at: usize) -> (v: u64)
    requires
        at + 8 <= data@.len(),
    ensures
        v as nat == le_value(data@.subrange(at as int, at + 8)),
{
    let wide = read_le(data, at, 8);
    proof {
        lemma_pow256_widths();
    }
    wide as u64
}

/// Reads a 128-bit number at `at`.
pub fn read_u128_le(data: &[u8], at: usize) -> (v: u128)
    requires
        at + 16 <= data@.len(),
    ensures
        v as nat == le_value(data@.subrange(at as int, at + 16)),
{
    read_le(data, at, 16)
}

/// Appends the `width` low bytes of `value` to `out`, least significant first.
pub fn push_le(out: &mut Vec<u8>, value: u128, width: usize)
    ensures
        final(out)@ == old(out)@ + le_bytes(value as nat, width as nat),
{
    let mut rest: u128 = value;
    let mut done: usize = 0;
    assert(out@ + le_bytes(rest as nat, (width - done) as nat) =~= old(out)@ + le_bytes(
        value as nat,
        width as nat,
    ));
    while done < width
        invariant
            done <= width,
            out@ + le_bytes(rest as nat, (width - done) as nat) == old(out)@ + le_bytes(
                value as nat,
                width as nat,
            ),
        decreases width - done,
    {
        let ghost before = out@;
        let low: u8 = (rest % 256) as u8;
        out.push(low);
        proof {
            let tail = le_bytes((rest / 256) as nat, (width - done - 1) as nat);
            assert(le_bytes(rest as nat, (width - done) as nat) =~= seq![low] + tail);
            assert(out@ + tail =~= before + (seq![low] + tail));
        }
        rest = rest / 256;
        done += 1;
    }
    assert(le_bytes(rest as nat, 0) =~= Seq::<u8>::empty());
    assert(out@ + Seq::<u8>::empty() =~= out@);
}

} // verus!
