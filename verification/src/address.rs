//! Twenty-byte addresses.

use crate::bytes::{
    be_bytes, be_nat, lemma_be_bytes_len, lemma_be_bytes_of_nat, lemma_be_bytes_split,
    lemma_be_nat_bound, lemma_be_nat_of_bytes, lemma_pow256_values, read_be, write_be,
};
use vstd::prelude::*;

verus! {

/// A twenty-byte address, the key by which calls are routed.
///
/// The address is held as the big-endian number that its bytes denote: `hi`
/// is the first four bytes, `lo` the last sixteen. Two addresses are equal
/// exactly when their bytes are.
#[derive(Clone, Copy, Debug, PartialEq, Eq, Hash, Structural)]
pub struct Address {
    pub hi: u32,
    pub lo: u128,
}

impl Address {
    /// The twenty bytes of the address.
    pub open spec fn bytes(self) -> Seq<u8> {
        be_bytes(self.hi as nat, 4) + be_bytes(self.lo as nat, 16)
    }

    /// The address with the given bytes.
    pub fn from_bytes(bytes: &[u8; 20]) -> (r: Address)
        ensures
            r.bytes() == bytes@,
            r.hi == be_nat(bytes@.subrange(0, 4)),
            r.lo == be_nat(bytes@.subrange(4, 20)),
    {
        let slice = bytes.as_slice();
        let hi = read_be(slice, 0, 4);
        let lo = read_be(slice, 4, 16);
        proof {
            let head = bytes@.subrange(0, 4);
            let tail = bytes@.subrange(4, 20);
            lemma_be_nat_bound(head);
            lemma_pow256_values();
            lemma_be_bytes_of_nat(head);
            lemma_be_bytes_of_nat(tail);
            assert(head + tail =~= bytes@);
        }
        Address { hi: hi as u32, lo }
    }

    /// The address with the given bytes, if there are twenty of them.
    pub fn from_slice(bytes: &[u8]) -> (r: Option<Address>)
        ensures
            r is Some <==> bytes@.len() == 20,
            r matches Some(a) ==> a.bytes() == bytes@,
    {
        if bytes.len() != 20 {
            return None;
        }
        let hi = read_be(bytes, 0, 4);
        let lo = read_be(bytes, 4, 16);
        proof {
            let head = bytes@.subrange(0, 4);
            let tail = bytes@.subrange(4, 20);
            lemma_be_nat_bound(head);
            lemma_pow256_values();
            lemma_be_bytes_of_nat(head);
            lemma_be_bytes_of_nat(tail);
            assert(head + tail =~= bytes@);
        }
        Some(Address { hi: hi as u32, lo })
    }

    /// The twenty bytes of the address, first byte first.
    pub fn to_bytes(&self) -> (r: Vec<u8>)
        ensures
            r@ == self.bytes(),
            r@.len() == 20,
    {
        let mut out: Vec<u8> = Vec::new();
        write_be(&mut out, self.hi as u128, 4);
        write_be(&mut out, self.lo, 16);
        proof {
            lemma_be_bytes_len(self.hi as nat, 4);
            lemma_be_bytes_len(self.lo as nat, 16);
            assert(out@ =~= self.bytes());
        }
        out
    }

    /// Addresses with the same bytes are the same address.
    pub proof fn lemma_bytes_injective(a: Address, b: Address)
        requires
            a.bytes() == b.bytes(),
        ensures
            a == b,
    {
        lemma_sides(a.hi as nat, a.lo as nat);
        lemma_sides(b.hi as nat, b.lo as nat);
        lemma_pow256_values();
        lemma_be_nat_of_bytes(a.hi as nat, 4);
        lemma_be_nat_of_bytes(b.hi as nat, 4);
        lemma_be_nat_of_bytes(a.lo as nat, 16);
        lemma_be_nat_of_bytes(b.lo as nat, 16);
    }
}

/// The two parts of a twenty-byte string written as four bytes, then sixteen.
proof fn lemma_sides(hi: nat, lo: nat)
    ensures
        (be_bytes(hi, 4) + be_bytes(lo, 16)).subrange(0, 4) == be_bytes(hi, 4),
        (be_bytes(hi, 4) + be_bytes(lo, 16)).subrange(4, 20) == be_bytes(lo, 16),
        (be_bytes(hi, 4) + be_bytes(lo, 16)).len() == 20,
{
    lemma_be_bytes_len(hi, 4);
    lemma_be_bytes_len(lo, 16);
    let whole = be_bytes(hi, 4) + be_bytes(lo, 16);
    assert(whole.subrange(0, 4) =~= be_bytes(hi, 4));
    assert(whole.subrange(4, 20) =~= be_bytes(lo, 16));
}

/// `H160::from_low_u64_be` of `sp_core`: the twenty-byte value whose bytes
/// are the big-endian bytes of `a`, zeros before them. Believed, not proved.
#[verifier::external_body]
fn low_u64_be(a: u64) -> (r: [u8; 20])
    ensures
        r@ == be_bytes(a as nat, 20),
{
    sp_core::H160::from_low_u64_be(a).to_fixed_bytes()
}

/// The address whose number is `a`: twelve zero bytes, then the eight bytes
/// of `a`, most significant first.
pub fn hash(a: u64) -> (r: Address)
    ensures
        r == (Address { hi: 0, lo: a as u128 }),
{
    let bytes = low_u64_be(a);
    let r = Address::from_bytes(&bytes);
    proof {
        let v = a as nat;
        lemma_pow256_values();
        lemma_be_bytes_split(v, 4, 16);
        assert(v / 0x1_0000_0000_0000_0000_0000_0000_0000_0000nat == 0);
        lemma_sides(0, v);
        lemma_be_nat_of_bytes(0, 4);
        lemma_be_nat_of_bytes(v, 16);
    }
    r
}

} // verus!
