//! Big-endian byte strings and the numbers they stand for.
//!
//! Addresses and call words travel as bytes, most significant byte first.
//! This module says which number a byte string denotes, which byte string of
//! a given length denotes a number, and reads and writes both.

use vstd::prelude::*;

verus! {

/// 256 to the power `n`: the number of byte strings of length `n`.
pub open spec fn pow256(n: nat) -> nat
    decreases n,
{
    if n == 0 {
        1
    } else {
        256 * pow256((n - 1) as nat)
    }
}

/// The number that `s` denotes, read most significant byte first.
pub open spec fn be_nat(s: Seq<u8>) -> nat
    decreases s.len(),
{
    if s.len() == 0 {
        0
    } else {
        be_nat(s.drop_last()) * 256 + s.last() as nat
    }
}

/// The `len` low bytes of `v`, most significant first.
pub open spec fn be_bytes(v: nat, len: nat) -> Seq<u8>
    decreases len,
{
    if len == 0 {
        Seq::empty()
    } else {
        be_bytes(v / 256, (len - 1) as nat).push((v % 256) as u8)
    }
}

/// The powers of 256 at the widths this library uses.
pub proof fn lemma_pow256_values()
    ensures
        pow256(0) == 1,
        pow256(1) == 0x100,
        pow256(4) == 0x1_0000_0000,
        pow256(8) == 0x1_0000_0000_0000_0000,
        pow256(16) == 0x1_0000_0000_0000_0000_0000_0000_0000_0000,
{
    reveal_with_fuel(pow256, 17);
}

/// Every power of 256 is positive.
pub proof fn lemma_pow256_positive(n: nat)
    ensures
        pow256(n) > 0,
    decreases n,
{
    if n > 0 {
        lemma_pow256_positive((n - 1) as nat);
    }
}

/// The power of a sum is the product of the powers.
pub proof fn lemma_pow256_adds(a: nat, b: nat)
    ensures
        pow256(a + b) == pow256(a) * pow256(b),
    decreases b,
{
    if b == 0 {
        assert(pow256(a) * 1 == pow256(a));
    } else {
        lemma_pow256_adds(a, (b - 1) as nat);
        assert(pow256(a + b) == 256 * pow256((a + b - 1) as nat));
        assert(256 * (pow256(a) * pow256((b - 1) as nat)) == pow256(a) * (256 * pow256(
            (b - 1) as nat,
        ))) by (nonlinear_arith);
    }
}

/// A number written at a length has that many bytes.
pub proof fn lemma_be_bytes_len(v: nat, len: nat)
    ensures
        be_bytes(v, len).len() == len,
    decreases len,
{
    if len > 0 {
        lemma_be_bytes_len(v / 256, (len - 1) as nat);
    }
}

/// A byte string of length `n` denotes a number below `256^n`.
pub proof fn lemma_be_nat_bound(s: Seq<u8>)
    ensures
        be_nat(s) < pow256(s.len()),
    decreases s.len(),
{
    if s.len() > 0 {
        lemma_be_nat_bound(s.drop_last());
        let p = pow256((s.len() - 1) as nat);
        let h = be_nat(s.drop_last());
        assert(h * 256 + 255 < 256 * p) by (nonlinear_arith)
            requires
                h < p,
        ;
    }
}

/// Writing a number that fits into `len` bytes and reading it back gives the
/// number.
pub proof fn lemma_be_nat_of_bytes(v: nat, len: nat)
    requires
        v < pow256(len),
    ensures
        be_nat(be_bytes(v, len)) == v,
    decreases len,
{
    if len > 0 {
        let p = pow256((len - 1) as nat);
        assert(v / 256 < p) by (nonlinear_arith)
            requires
                v < 256 * p,
        ;
        lemma_be_nat_of_bytes(v / 256, (len - 1) as nat);
        let head = be_bytes(v / 256, (len - 1) as nat);
        assert(be_bytes(v, len).drop_last() =~= head);
        assert(be_bytes(v, len).last() == (v % 256) as u8);
        assert((v / 256) * 256 + v % 256 == v) by (nonlinear_arith);
    }
}

/// Reading a byte string and writing the number at the same length gives the
/// byte string.
pub proof fn lemma_be_bytes_of_nat(s: Seq<u8>)
    ensures
        be_bytes(be_nat(s), s.len()) == s,
    decreases s.len(),
{
    if s.len() > 0 {
        lemma_be_bytes_of_nat(s.drop_last());
        let h = be_nat(s.drop_last());
        let l = s.last() as nat;
        assert((h * 256 + l) / 256 == h && (h * 256 + l) % 256 == l) by (nonlinear_arith)
            requires
                l < 256,
        ;
        assert(be_bytes(be_nat(s), s.len()) =~= s);
    } else {
        assert(be_bytes(be_nat(s), s.len()) =~= s);
    }
}

/// The bytes of a number split at any width: the high part, then the low part.
pub proof fn lemma_be_bytes_split(v: nat, high: nat, low: nat)
    ensures
        be_bytes(v, high + low) == be_bytes(v / pow256(low), high) + be_bytes(v, low),
    decreases low,
{
    if low == 0 {
        assert(v / 1 == v);
        assert(be_bytes(v / pow256(low), high) + be_bytes(v, low) =~= be_bytes(v, high));
    } else {
        let l = (low - 1) as nat;
        lemma_be_bytes_split(v / 256, high, l);
        lemma_pow256_positive(l);
        let p = pow256(l);
        assert((v / 256) / p == v / (256 * p)) by (nonlinear_arith)
            requires
                p > 0,
        ;
        assert(be_bytes(v, high + low) =~= be_bytes(v / pow256(low), high) + be_bytes(v, low));
    }
}

/// Reads the `width` bytes of `bytes` that start at `start` as one number.
pub(crate) fn read_be(bytes: &[u8], start: usize, width: usize) -> (r: u128)
    requires
        width <= 16,
        start + width <= bytes@.len(),
    ensures
        r == be_nat(bytes@.subrange(start as int, start + width)),
{
    let mut acc: u128 = 0;
    let mut i: usize = 0;
    let len = bytes.len();
    proof {
        lemma_pow256_values();
        assert(bytes@.subrange(start as int, start as int) =~= Seq::<u8>::empty());
    }
    while i < width
        invariant
            i <= width <= 16,
            start + width <= bytes@.len(),
            bytes@.len() == len,
            acc == be_nat(bytes@.subrange(start as int, start + i)),
        decreases width - i,
    {
        let ghost prefix = bytes@.subrange(start as int, start + i);
        let ghost next = bytes@.subrange(start as int, start + i + 1);
        proof {
            lemma_be_nat_bound(prefix);
            lemma_pow256_adds(i as nat, (15 - i) as nat);
            lemma_pow256_positive((15 - i) as nat);
            lemma_pow256_values();
            lemma_pow256_adds(15, 1);
            let p = pow256(i as nat);
            let q = pow256((15 - i) as nat);
            assert(p <= pow256(15)) by (nonlinear_arith)
                requires
                    p * q == pow256(15),
                    q >= 1,
                    p >= 0,
            ;
            assert(next.drop_last() =~= prefix);
            assert(next.last() == bytes@[start + i]);
        }
        acc = acc * 256 + bytes[start + i] as u128;
        i = i + 1;
    }
    acc
}

/// Appends the `width` low bytes of `v` to `out`, most significant first.
pub(crate) fn write_be(out: &mut Vec<u8>, v: u128, width: usize)
    requires
        width <= 16,
    ensures
        final(out)@ == old(out)@ + be_bytes(v as nat, width as nat),
{
    let mut i: usize = 0;
    proof {
        lemma_be_bytes_len(v as nat / pow256(width as nat), 0);
        assert(out@ =~= old(out)@ + be_bytes(v as nat / pow256(width as nat), 0));
    }
    while i < width
        invariant
            i <= width <= 16,
            out@ == old(out)@ + be_bytes(v as nat / pow256((width - i) as nat), i as nat),
        decreases width - i,
    {
        let shift: u32 = (8 * (width - i - 1)) as u32;
        assert((v >> shift) & 0xff < 0x100) by (bit_vector);
        let byte: u8 = ((v >> shift) & 0xff) as u8;
        proof {
            let k = (width - i - 1) as nat;
            lemma_shift_is_division(v, k);
            lemma_pow256_positive(k);
            let p = pow256(k);
            let vn = v as nat;
            assert(pow256(k + 1) == 256 * p);
            assert((vn / p) / 256 == vn / (256 * p)) by (nonlinear_arith)
                requires
                    p > 0,
            ;
            assert(be_bytes(vn / p, (i + 1) as nat) =~= be_bytes(vn / pow256(k + 1), i as nat).push(
                byte,
            ));
        }
        out.push(byte);
        i = i + 1;
    }
    proof {
        assert(v as nat / 1 == v as nat);
    }
}

/// Shifting right by `k` bytes divides by `256^k`; masking keeps the lowest
/// byte of the quotient.
proof fn lemma_shift_is_division(v: u128, k: nat)
    requires
        k < 16,
    ensures
        ((v >> ((8 * k) as u32)) & 0xff) as nat == (v as nat / pow256(k)) % 256,
{
    let s = (8 * k) as u32;
    assert((v >> s) & 0xff == (v >> s) % 256) by (bit_vector);
    lemma_shift_right(v, k);
}

/// Shifting right by `k` bytes divides by `256^k`.
proof fn lemma_shift_right(v: u128, k: nat)
    requires
        k < 16,
    ensures
        (v >> ((8 * k) as u32)) as nat == v as nat / pow256(k),
    decreases k,
{
    if k == 0 {
        assert(v >> 0u32 == v) by (bit_vector);
        assert(v as nat / 1 == v as nat);
    } else {
        let s = (8 * (k - 1)) as u32;
        let t = (8 * k) as u32;
        lemma_shift_right(v, (k - 1) as nat);
        assert(v >> t == (v >> s) / 256) by (bit_vector)
            requires
                t == s + 8,
                s < 120,
        ;
        lemma_pow256_positive((k - 1) as nat);
        let p = pow256((k - 1) as nat);
        let vn = v as nat;
        assert((vn / p) / 256 == vn / (256 * p)) by (nonlinear_arith)
            requires
                p > 0,
        ;
    }
}

} // verus!
