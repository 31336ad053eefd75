//! Thirty-two-byte call words.
//!
//! Arguments and return values cross the call boundary as words of
//! thirty-two bytes, each the big-endian form of an unsigned number.

use crate::address::Address;
use crate::bytes::{
    be_bytes, be_nat, lemma_be_bytes_len, lemma_be_bytes_of_nat, lemma_be_bytes_split,
    lemma_be_nat_of_bytes, lemma_pow256_values, read_be, write_be,
};
use vstd::prelude::*;

verus! {

/// A word of thirty-two bytes, held as the number that the bytes denote:
/// `hi` is the first sixteen bytes, `lo` the last sixteen.
#[derive(Clone, Copy, Debug, PartialEq, Eq, Hash, Structural)]
pub struct Word {
    pub hi: u128,
    pub lo: u128,
}

impl Word {
    /// The thirty-two bytes of the word.
    pub open spec fn bytes(self) -> Seq<u8> {
        be_bytes(self.hi as nat, 16) + be_bytes(self.lo as nat, 16)
    }

    /// The word of the number zero.
    pub fn zero() -> (r: Word)
        ensures
            r == (Word { hi: 0, lo: 0 }),
    {
        Word { hi: 0, lo: 0 }
    }

    /// Whether every byte of the word is zero.
    pub fn is_zero(&self) -> (r: bool)
        ensures
            r == (*self == Word { hi: 0, lo: 0 }),
    {
        self.hi == 0 && self.lo == 0
    }

    /// The word of a number that fits in sixteen bytes.
    pub fn from_u128(v: u128) -> (r: Word)
        ensures
            r == (Word { hi: 0, lo: v }),
    {
        Word { hi: 0, lo: v }
    }

    /// The number of the word, if it fits in sixteen bytes.
    pub fn to_u128(&self) -> (r: Option<u128>)
        ensures
            r == (if self.hi == 0 {
                Some(self.lo)
            } else {
                None
            }),
    {
        if self.hi == 0 {
            Some(self.lo)
        } else {
            None
        }
    }

    /// The word of a truth value: one for `true`, zero for `false`.
    pub fn from_bool(b: bool) -> (r: Word)
        ensures
            r == (Word { hi: 0, lo: if b { 1 } else { 0 } }),
    {
        Word { hi: 0, lo: if b { 1 } else { 0 } }
    }

    /// The word that carries an address: twelve zero bytes, then the address.
    pub fn from_address(a: Address) -> (r: Word)
        ensures
            r == (Word { hi: a.hi as u128, lo: a.lo }),
    {
        Word { hi: a.hi as u128, lo: a.lo }
    }

    /// The address that the word carries, if its first twelve bytes are zero.
    pub fn to_address(&self) -> (r: Option<Address>)
        ensures
            r == (if self.hi <= u32::MAX {
                Some(Address { hi: self.hi as u32, lo: self.lo })
            } else {
                None
            }),
    {
        if self.hi <= u32::MAX as u128 {
            Some(Address { hi: self.hi as u32, lo: self.lo })
        } else {
            None
        }
    }

    /// The word that starts at `start` in `bytes`.
    pub(crate) fn read(bytes: &[u8], start: usize) -> (r: Word)
        requires
            start + 32 <= bytes@.len(),
        ensures
            r.bytes() == bytes@.subrange(start as int, start + 32),
            r.hi == be_nat(bytes@.subrange(start as int, start + 16)),
            r.lo == be_nat(bytes@.subrange(start + 16, start + 32)),
    {
        let len = bytes.len();
        assert(start + 32 <= len);
        let hi = read_be(bytes, start, 16);
        let lo = read_be(bytes, start + 16, 16);
        proof {
            let head = bytes@.subrange(start as int, start + 16);
            let tail = bytes@.subrange(start + 16, start + 32);
            lemma_be_bytes_of_nat(head);
            lemma_be_bytes_of_nat(tail);
            assert(head + tail =~= bytes@.subrange(start as int, start + 32));
        }
        Word { hi, lo }
    }

    /// The word with the given bytes, if there are thirty-two of them.
    pub fn from_slice(bytes: &[u8]) -> (r: Option<Word>)
        ensures
            r is Some <==> bytes@.len() == 32,
            r matches Some(w) ==> w.bytes() == bytes@,
    {
        if bytes.len() != 32 {
            return None;
        }
        let w = Word::read(bytes, 0);
        proof {
            assert(bytes@.subrange(0, 32) =~= bytes@);
        }
        Some(w)
    }

    /// Appends the thirty-two bytes of the word to `out`.
    pub fn write(&self, out: &mut Vec<u8>)
        ensures
            final(out)@ == old(out)@ + self.bytes(),
    {
        write_be(out, self.hi, 16);
        write_be(out, self.lo, 16);
        proof {
            assert(out@ =~= old(out)@ + self.bytes());
        }
    }

    /// The thirty-two bytes of the word, first byte first.
    pub fn to_bytes(&self) -> (r: Vec<u8>)
        ensures
            r@ == self.bytes(),
            r@.len() == 32,
    {
        let mut out: Vec<u8> = Vec::new();
        self.write(&mut out);
        proof {
            Word::lemma_bytes_len(*self);
            assert(out@ =~= self.bytes());
        }
        out
    }

    /// A word has thirty-two bytes.
    pub proof fn lemma_bytes_len(w: Word)
        ensures
            w.bytes().len() == 32,
    {
        lemma_be_bytes_len(w.hi as nat, 16);
        lemma_be_bytes_len(w.lo as nat, 16);
    }

    /// Words with the same bytes are the same word.
    pub proof fn lemma_bytes_injective(a: Word, b: Word)
        requires
            a.bytes() == b.bytes(),
        ensures
            a == b,
    {
        lemma_halves(a);
        lemma_halves(b);
        lemma_pow256_values();
        lemma_be_nat_of_bytes(a.hi as nat, 16);
        lemma_be_nat_of_bytes(b.hi as nat, 16);
        lemma_be_nat_of_bytes(a.lo as nat, 16);
        lemma_be_nat_of_bytes(b.lo as nat, 16);
    }

    /// The word of an address is twelve zero bytes followed by the bytes of
    /// the address.
    pub proof fn lemma_address_bytes(a: Address)
        ensures
            (Word { hi: a.hi as u128, lo: a.lo }).bytes() == Seq::new(12, |i: int| 0u8)
                + a.bytes(),
    {
        let hi = a.hi as nat;
        lemma_pow256_values();
        lemma_be_bytes_split(hi, 12, 4);
        assert(hi / 0x1_0000_0000nat == 0);
        lemma_zero_bytes(12);
        assert(be_bytes(hi, 16) =~= Seq::new(12, |i: int| 0u8) + be_bytes(hi, 4));
        assert((Word { hi: a.hi as u128, lo: a.lo }).bytes() =~= Seq::new(12, |i: int| 0u8)
            + a.bytes());
    }
}

/// The two halves of the bytes of a word.
proof fn lemma_halves(w: Word)
    ensures
        w.bytes().subrange(0, 16) == be_bytes(w.hi as nat, 16),
        w.bytes().subrange(16, 32) == be_bytes(w.lo as nat, 16),
{
    lemma_be_bytes_len(w.hi as nat, 16);
    lemma_be_bytes_len(w.lo as nat, 16);
    assert(w.bytes().subrange(0, 16) =~= be_bytes(w.hi as nat, 16));
    assert(w.bytes().subrange(16, 32) =~= be_bytes(w.lo as nat, 16));
}

/// The bytes of zero are all zero.
proof fn lemma_zero_bytes(len: nat)
    ensures
        be_bytes(0, len) == Seq::new(len, |i: int| 0u8),
    decreases len,
{
    if len > 0 {
        lemma_zero_bytes((len - 1) as nat);
        lemma_be_bytes_len(0, (len - 1) as nat);
    }
    lemma_be_bytes_len(0, len);
    assert(be_bytes(0, len) =~= Seq::new(len, |i: int| 0u8));
}

} // verus!
