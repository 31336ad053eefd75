//! The layout of a call to the asset bridge.
//!
//! A call is four bytes that select an operation, followed by the
//! operation's arguments, each a word of thirty-two bytes: first the asset
//! id, then the accounts and the amount. Every call has exactly one form:
//! a call of any other length, or with an argument outside the range of its
//! type, is turned down.

use crate::bytes::{
    be_bytes, be_nat, lemma_be_bytes_len, lemma_be_bytes_of_nat, lemma_be_nat_bound,
    lemma_be_nat_of_bytes, lemma_pow256_values, read_be, write_be,
};
use crate::context::BridgeError;
use crate::native::{AccountId, AssetId, Balance, Operation, Query};
use crate::word::Word;
use vstd::prelude::*;

verus! {

/// The operations of the bridge. The code of each is the first four bytes of
/// the Keccak-256 hash of its signature.
#[derive(Clone, Copy, Debug, PartialEq, Eq, Hash, Structural)]
pub enum Selector {
    /// `balanceOf(uint32,address)`
    BalanceOf,
    /// `allowance(uint32,address,address)`
    Allowance,
    /// `transfer(uint32,address,uint256)`
    Transfer,
    /// `approve(uint32,address,uint256)`
    Approve,
    /// `mint(uint32,address,uint256)`
    Mint,
    /// `burn(uint32,address,uint256)`
    Burn,
}

impl Selector {
    /// The four bytes that select the operation, as one number.
    pub open spec fn code(self) -> u32 {
        match self {
            Selector::BalanceOf => 0x94c8_9b2c,
            Selector::Allowance => 0xcc67_ecc2,
            Selector::Transfer => 0xd09a_e45b,
            Selector::Approve => 0xf674_e563,
            Selector::Mint => 0x79d9_b87b,
            Selector::Burn => 0xc3ec_6016,
        }
    }

    /// The operation that `code` selects, if it selects one.
    pub open spec fn of_code(code: u32) -> Option<Selector> {
        if code == 0x94c8_9b2c {
            Some(Selector::BalanceOf)
        } else if code == 0xcc67_ecc2 {
            Some(Selector::Allowance)
        } else if code == 0xd09a_e45b {
            Some(Selector::Transfer)
        } else if code == 0xf674_e563 {
            Some(Selector::Approve)
        } else if code == 0x79d9_b87b {
            Some(Selector::Mint)
        } else if code == 0xc3ec_6016 {
            Some(Selector::Burn)
        } else {
            None
        }
    }

    /// The number of argument words that the operation takes.
    pub open spec fn arity(self) -> nat {
        match self {
            Selector::BalanceOf => 2,
            _ => 3,
        }
    }

    /// Whether the operation changes the ledger.
    pub open spec fn mutates(self) -> bool {
        match self {
            Selector::BalanceOf | Selector::Allowance => false,
            _ => true,
        }
    }

    /// The four bytes that select the operation, as one number.
    pub fn to_code(&self) -> (r: u32)
        ensures
            r == self.code(),
    {
        match self {
            Selector::BalanceOf => 0x94c8_9b2c,
            Selector::Allowance => 0xcc67_ecc2,
            Selector::Transfer => 0xd09a_e45b,
            Selector::Approve => 0xf674_e563,
            Selector::Mint => 0x79d9_b87b,
            Selector::Burn => 0xc3ec_6016,
        }
    }

    /// The operation that `code` selects, if it selects one.
    pub fn from_code(code: u32) -> (r: Option<Selector>)
        ensures
            r == Self::of_code(code),
    {
        if code == 0x94c8_9b2c {
            Some(Selector::BalanceOf)
        } else if code == 0xcc67_ecc2 {
            Some(Selector::Allowance)
        } else if code == 0xd09a_e45b {
            Some(Selector::Transfer)
        } else if code == 0xf674_e563 {
            Some(Selector::Approve)
        } else if code == 0x79d9_b87b {
            Some(Selector::Mint)
        } else if code == 0xc3ec_6016 {
            Some(Selector::Burn)
        } else {
            None
        }
    }

    /// The number of argument words that the operation takes.
    pub fn arguments(&self) -> (r: usize)
        ensures
            r == self.arity(),
    {
        match self {
            Selector::BalanceOf => 2,
            _ => 3,
        }
    }

    /// Whether the operation changes the ledger.
    pub fn is_mutating(&self) -> (r: bool)
        ensures
            r == self.mutates(),
    {
        match self {
            Selector::BalanceOf | Selector::Allowance => false,
            _ => true,
        }
    }

    /// No two operations share a code.
    pub proof fn lemma_code_injective(selector: Selector)
        ensures
            Self::of_code(selector.code()) == Some(selector),
    {
    }
}

/// A call to the bridge, taken apart.
#[derive(Clone, Copy, Debug, PartialEq, Eq, Hash, Structural)]
pub enum BridgeCall {
    /// A call that reads the ledger.
    Read(Query),
    /// A call that changes the ledger.
    Write(Operation),
}

impl BridgeCall {
    /// The operation that the call selects.
    pub open spec fn selector(self) -> Selector {
        match self {
            BridgeCall::Read(Query::Balance { .. }) => Selector::BalanceOf,
            BridgeCall::Read(Query::Allowance { .. }) => Selector::Allowance,
            BridgeCall::Write(Operation::Transfer { .. }) => Selector::Transfer,
            BridgeCall::Write(Operation::Approve { .. }) => Selector::Approve,
            BridgeCall::Write(Operation::Mint { .. }) => Selector::Mint,
            BridgeCall::Write(Operation::Burn { .. }) => Selector::Burn,
        }
    }

    /// The asset that the call is about.
    pub open spec fn asset(self) -> AssetId {
        match self {
            BridgeCall::Read(Query::Balance { asset, .. }) => asset,
            BridgeCall::Read(Query::Allowance { asset, .. }) => asset,
            BridgeCall::Write(Operation::Transfer { asset, .. }) => asset,
            BridgeCall::Write(Operation::Approve { asset, .. }) => asset,
            BridgeCall::Write(Operation::Mint { asset, .. }) => asset,
            BridgeCall::Write(Operation::Burn { asset, .. }) => asset,
        }
    }

    /// The argument words of the call, in their order.
    pub open spec fn words(self) -> Seq<Word> {
        match self {
            BridgeCall::Read(Query::Balance { asset, who }) => seq![asset.word(), who.word()],
            BridgeCall::Read(Query::Allowance { asset, owner, spender }) => seq![
                asset.word(),
                owner.word(),
                spender.word(),
            ],
            BridgeCall::Write(Operation::Transfer { asset, to, amount }) => seq![
                asset.word(),
                to.word(),
                amount.word(),
            ],
            BridgeCall::Write(Operation::Approve { asset, spender, amount }) => seq![
                asset.word(),
                spender.word(),
                amount.word(),
            ],
            BridgeCall::Write(Operation::Mint { asset, to, amount }) => seq![
                asset.word(),
                to.word(),
                amount.word(),
            ],
            BridgeCall::Write(Operation::Burn { asset, from, amount }) => seq![
                asset.word(),
                from.word(),
                amount.word(),
            ],
        }
    }
}

/// The number of the first four bytes of `input`.
pub open spec fn selector_code(input: Seq<u8>) -> u32 {
    be_nat(input.subrange(0, 4)) as u32
}

/// The argument word of `input` at position `k`, counted from zero.
pub open spec fn word_at(input: Seq<u8>, k: int) -> Word {
    Word {
        hi: be_nat(input.subrange(4 + 32 * k, 20 + 32 * k)) as u128,
        lo: be_nat(input.subrange(20 + 32 * k, 36 + 32 * k)) as u128,
    }
}

/// The call that `selector` makes of three argument words. The first word
/// is the asset id and the second an account, whatever the operation; a
/// word outside the range of its type turns the call down, the earlier
/// word first. An operation of two arguments does not look at `w2`.
pub open spec fn assembled(selector: Selector, w0: Word, w1: Word, w2: Word) -> Result<
    BridgeCall,
    BridgeError,
> {
    match AssetId::of_word(w0) {
        None => Err(BridgeError::AssetIdOutOfRange),
        Some(asset) => match AccountId::of_word(w1) {
            None => Err(BridgeError::AddressOutOfRange),
            Some(account) => match selector {
                Selector::BalanceOf => Ok(BridgeCall::Read(Query::Balance { asset, who: account })),
                Selector::Allowance => match AccountId::of_word(w2) {
                    None => Err(BridgeError::AddressOutOfRange),
                    Some(spender) => Ok(
                        BridgeCall::Read(Query::Allowance { asset, owner: account, spender }),
                    ),
                },
                Selector::Transfer => match Balance::of_word(w2) {
                    None => Err(BridgeError::AmountOutOfRange),
                    Some(amount) => Ok(
                        BridgeCall::Write(Operation::Transfer { asset, to: account, amount }),
                    ),
                },
                Selector::Approve => match Balance::of_word(w2) {
                    None => Err(BridgeError::AmountOutOfRange),
                    Some(amount) => Ok(
                        BridgeCall::Write(Operation::Approve { asset, spender: account, amount }),
                    ),
                },
                Selector::Mint => match Balance::of_word(w2) {
                    None => Err(BridgeError::AmountOutOfRange),
                    Some(amount) => Ok(
                        BridgeCall::Write(Operation::Mint { asset, to: account, amount }),
                    ),
                },
                Selector::Burn => match Balance::of_word(w2) {
                    None => Err(BridgeError::AmountOutOfRange),
                    Some(amount) => Ok(
                        BridgeCall::Write(Operation::Burn { asset, from: account, amount }),
                    ),
                },
            },
        },
    }
}

/// The call that `input` holds, or the reason for which it holds none.
pub open spec fn decoded(input: Seq<u8>) -> Result<BridgeCall, BridgeError> {
    if input.len() < 4 {
        Err(BridgeError::MalformedInput)
    } else {
        match Selector::of_code(selector_code(input)) {
            None => Err(BridgeError::UnknownSelector),
            Some(selector) => if input.len() != 4 + 32 * selector.arity() {
                Err(BridgeError::MalformedInput)
            } else {
                assembled(selector, word_at(input, 0), word_at(input, 1), word_at(input, 2))
            },
        }
    }
}

/// The bytes of a sequence of words, one word after the other.
pub open spec fn bytes_of(words: Seq<Word>) -> Seq<u8>
    decreases words.len(),
{
    if words.len() == 0 {
        Seq::empty()
    } else {
        bytes_of(words.drop_last()) + words.last().bytes()
    }
}

/// The input that holds `call`.
pub open spec fn encoded(call: BridgeCall) -> Seq<u8> {
    be_bytes(call.selector().code() as nat, 4) + bytes_of(call.words())
}

/// Takes `input` apart.
pub fn decode(input: &[u8]) -> (r: Result<BridgeCall, BridgeError>)
    ensures
        r == decoded(input@),
{
    let len = input.len();
    if len < 4 {
        return Err(BridgeError::MalformedInput);
    }
    let code = read_be(input, 0, 4);
    proof {
        lemma_be_nat_bound(input@.subrange(0, 4));
        lemma_pow256_values();
    }
    let selector = match Selector::from_code(code as u32) {
        Some(selector) => selector,
        None => {
            return Err(BridgeError::UnknownSelector);
        },
    };
    if len != 4 + 32 * selector.arguments() {
        return Err(BridgeError::MalformedInput);
    }
    let w0 = Word::read(input, 4);
    let w1 = Word::read(input, 36);
    let asset = match AssetId::from_word(w0) {
        Some(asset) => asset,
        None => {
            return Err(BridgeError::AssetIdOutOfRange);
        },
    };
    let account = match AccountId::from_word(w1) {
        Some(account) => account,
        None => {
            return Err(BridgeError::AddressOutOfRange);
        },
    };
    match selector {
        Selector::BalanceOf => Ok(BridgeCall::Read(Query::Balance { asset, who: account })),
        Selector::Allowance => {
            let w2 = Word::read(input, 68);
            match AccountId::from_word(w2) {
                Some(spender) => Ok(
                    BridgeCall::Read(Query::Allowance { asset, owner: account, spender }),
                ),
                None => Err(BridgeError::AddressOutOfRange),
            }
        },
        Selector::Transfer => {
            let w2 = Word::read(input, 68);
            match Balance::from_word(w2) {
                Some(amount) => Ok(
                    BridgeCall::Write(Operation::Transfer { asset, to: account, amount }),
                ),
                None => Err(BridgeError::AmountOutOfRange),
            }
        },
        Selector::Approve => {
            let w2 = Word::read(input, 68);
            match Balance::from_word(w2) {
                Some(amount) => Ok(
                    BridgeCall::Write(Operation::Approve { asset, spender: account, amount }),
                ),
                None => Err(BridgeError::AmountOutOfRange),
            }
        },
        Selector::Mint => {
            let w2 = Word::read(input, 68);
            match Balance::from_word(w2) {
                Some(amount) => Ok(BridgeCall::Write(Operation::Mint { asset, to: account, amount })),
                None => Err(BridgeError::AmountOutOfRange),
            }
        },
        Selector::Burn => {
            let w2 = Word::read(input, 68);
            match Balance::from_word(w2) {
                Some(amount) => Ok(
                    BridgeCall::Write(Operation::Burn { asset, from: account, amount }),
                ),
                None => Err(BridgeError::AmountOutOfRange),
            }
        },
    }
}

/// The selector of a call that was taken apart.
pub fn selector_of(call: &BridgeCall) -> (r: Selector)
    ensures
        r == call.selector(),
{
    match call {
        BridgeCall::Read(Query::Balance { .. }) => Selector::BalanceOf,
        BridgeCall::Read(Query::Allowance { .. }) => Selector::Allowance,
        BridgeCall::Write(Operation::Transfer { .. }) => Selector::Transfer,
        BridgeCall::Write(Operation::Approve { .. }) => Selector::Approve,
        BridgeCall::Write(Operation::Mint { .. }) => Selector::Mint,
        BridgeCall::Write(Operation::Burn { .. }) => Selector::Burn,
    }
}

/// Puts `call` together: the input that holds it.
pub fn encode(call: &BridgeCall) -> (r: Vec<u8>)
    ensures
        r@ == encoded(*call),
{
    let mut out: Vec<u8> = Vec::new();
    write_be(&mut out, selector_of(call).to_code() as u128, 4);
    let ghost head = out@;
    let (w0, w1, w2): (Word, Word, Option<Word>) = match call {
        BridgeCall::Read(Query::Balance { asset, who }) => (asset.to_word(), who.to_word(), None),
        BridgeCall::Read(Query::Allowance { asset, owner, spender }) => (
            asset.to_word(),
            owner.to_word(),
            Some(spender.to_word()),
        ),
        BridgeCall::Write(Operation::Transfer { asset, to, amount }) => (
            asset.to_word(),
            to.to_word(),
            Some(amount.to_word()),
        ),
        BridgeCall::Write(Operation::Approve { asset, spender, amount }) => (
            asset.to_word(),
            spender.to_word(),
            Some(amount.to_word()),
        ),
        BridgeCall::Write(Operation::Mint { asset, to, amount }) => (
            asset.to_word(),
            to.to_word(),
            Some(amount.to_word()),
        ),
        BridgeCall::Write(Operation::Burn { asset, from, amount }) => (
            asset.to_word(),
            from.to_word(),
            Some(amount.to_word()),
        ),
    };
    w0.write(&mut out);
    w1.write(&mut out);
    match w2 {
        Some(w) => {
            w.write(&mut out);
            proof {
                lemma_bytes_of_three(w0, w1, w);
                assert(call.words() =~= seq![w0, w1, w]);
                assert(out@ =~= head + bytes_of(seq![w0, w1, w]));
            }
        },
        None => {
            proof {
                lemma_bytes_of_two(w0, w1);
                assert(call.words() =~= seq![w0, w1]);
                assert(out@ =~= head + bytes_of(seq![w0, w1]));
            }
        },
    }
    out
}

/// The bytes of two words.
proof fn lemma_bytes_of_two(w0: Word, w1: Word)
    ensures
        bytes_of(seq![w0, w1]) == w0.bytes() + w1.bytes(),
{
    let s = seq![w0, w1];
    assert(s.drop_last() =~= seq![w0]);
    assert(seq![w0].drop_last() =~= Seq::<Word>::empty());
    reveal_with_fuel(bytes_of, 3);
    assert(bytes_of(seq![w0]) =~= w0.bytes());
}

/// The bytes of three words.
proof fn lemma_bytes_of_three(w0: Word, w1: Word, w2: Word)
    ensures
        bytes_of(seq![w0, w1, w2]) == w0.bytes() + w1.bytes() + w2.bytes(),
{
    let s = seq![w0, w1, w2];
    assert(s.drop_last() =~= seq![w0, w1]);
    lemma_bytes_of_two(w0, w1);
}

/// The parts of an input made of a selector and three words. With two words
/// the same holds of the first two.
proof fn lemma_parts(code: u32, w0: Word, w1: Word, rest: Seq<u8>)
    ensures
        ({
            let input = be_bytes(code as nat, 4) + w0.bytes() + w1.bytes() + rest;
            &&& input.len() == 68 + rest.len()
            &&& selector_code(input) == code
            &&& word_at(input, 0) == w0
            &&& word_at(input, 1) == w1
        }),
{
    let input = be_bytes(code as nat, 4) + w0.bytes() + w1.bytes() + rest;
    lemma_be_bytes_len(code as nat, 4);
    Word::lemma_bytes_len(w0);
    Word::lemma_bytes_len(w1);
    lemma_pow256_values();
    assert(input.subrange(0, 4) =~= be_bytes(code as nat, 4));
    lemma_be_nat_of_bytes(code as nat, 4);
    assert(input.subrange(4, 36) =~= w0.bytes());
    assert(input.subrange(36, 68) =~= w1.bytes());
    lemma_word_inside(input, 4, w0);
    lemma_word_inside(input, 36, w1);
}

/// A word whose bytes stand in `input` from `start` on is read back there.
proof fn lemma_word_inside(input: Seq<u8>, start: int, w: Word)
    requires
        0 <= start,
        start + 32 <= input.len(),
        input.subrange(start, start + 32) == w.bytes(),
    ensures
        be_nat(input.subrange(start, start + 16)) == w.hi,
        be_nat(input.subrange(start + 16, start + 32)) == w.lo,
{
    lemma_be_bytes_len(w.hi as nat, 16);
    lemma_be_bytes_len(w.lo as nat, 16);
    lemma_pow256_values();
    lemma_be_nat_of_bytes(w.hi as nat, 16);
    lemma_be_nat_of_bytes(w.lo as nat, 16);
    let whole = input.subrange(start, start + 32);
    assert(input.subrange(start, start + 16) =~= whole.subrange(0, 16));
    assert(input.subrange(start + 16, start + 32) =~= whole.subrange(16, 32));
    assert(whole.subrange(0, 16) =~= be_bytes(w.hi as nat, 16));
    assert(whole.subrange(16, 32) =~= be_bytes(w.lo as nat, 16));
}

/// A call put together and taken apart is the same call.
pub proof fn lemma_decode_encode(call: BridgeCall)
    ensures
        decoded(encoded(call)) == Ok::<BridgeCall, BridgeError>(call),
{
    let words = call.words();
    let code = call.selector().code();
    let w0 = words[0];
    let w1 = words[1];
    if call.selector().arity() == 2 {
        assert(words =~= seq![w0, w1]);
        lemma_bytes_of_two(w0, w1);
        let input = be_bytes(code as nat, 4) + w0.bytes() + w1.bytes() + Seq::<u8>::empty();
        assert(encoded(call) =~= input);
        lemma_parts(code, w0, w1, Seq::<u8>::empty());
    } else {
        let w2 = words[2];
        assert(words =~= seq![w0, w1, w2]);
        lemma_bytes_of_three(w0, w1, w2);
        let input = be_bytes(code as nat, 4) + w0.bytes() + w1.bytes() + w2.bytes();
        assert(encoded(call) =~= input);
        lemma_parts(code, w0, w1, w2.bytes());
        Word::lemma_bytes_len(w2);
        assert(input.subrange(68, 100) =~= w2.bytes());
        lemma_word_inside(input, 68, w2);
    }
}

/// An input holds a call only if it is the input that the call is put
/// together to: every call has one form.
pub proof fn lemma_encode_decode(input: Seq<u8>, call: BridgeCall)
    requires
        decoded(input) == Ok::<BridgeCall, BridgeError>(call),
    ensures
        input == encoded(call),
{
    let selector = Selector::of_code(selector_code(input))->0;
    let head = input.subrange(0, 4);
    lemma_be_nat_bound(head);
    lemma_pow256_values();
    lemma_be_bytes_of_nat(head);
    let w0 = word_at(input, 0);
    let w1 = word_at(input, 1);
    lemma_word_outside(input, 4);
    lemma_word_outside(input, 36);
    let words = call.words();
    if selector.arity() == 2 {
        assert(words =~= seq![w0, w1]);
        lemma_bytes_of_two(w0, w1);
        assert(input =~= head + input.subrange(4, 36) + input.subrange(36, 68));
        assert(encoded(call) =~= head + w0.bytes() + w1.bytes());
    } else {
        let w2 = word_at(input, 2);
        lemma_word_outside(input, 68);
        assert(words =~= seq![w0, w1, w2]);
        lemma_bytes_of_three(w0, w1, w2);
        assert(input =~= head + input.subrange(4, 36) + input.subrange(36, 68) + input.subrange(
            68,
            100,
        ));
        assert(encoded(call) =~= head + w0.bytes() + w1.bytes() + w2.bytes());
    }
}

/// The word read at `start` has the bytes that stand there.
proof fn lemma_word_outside(input: Seq<u8>, start: int)
    requires
        0 <= start,
        start + 32 <= input.len(),
    ensures
        (Word {
            hi: be_nat(input.subrange(start, start + 16)) as u128,
            lo: be_nat(input.subrange(start + 16, start + 32)) as u128,
        }).bytes() == input.subrange(start, start + 32),
{
    let a = input.subrange(start, start + 16);
    let b = input.subrange(start + 16, start + 32);
    lemma_be_nat_bound(a);
    lemma_be_nat_bound(b);
    lemma_pow256_values();
    lemma_be_bytes_of_nat(a);
    lemma_be_bytes_of_nat(b);
    assert(a + b =~= input.subrange(start, start + 32));
}

} // verus!
