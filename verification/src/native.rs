//! The ledger's own types, their forms as call words, and the operations
//! that the bridge asks of the ledger.

use crate::address::Address;
use crate::context::BridgeError;
use crate::word::Word;
use vstd::prelude::*;

verus! {

/// The identifier of a fungible asset. As a call word it is the number
/// itself; words above the largest id stand for no asset id.
#[derive(Clone, Copy, Debug, PartialEq, Eq, Hash, Structural)]
pub struct AssetId(pub u32);

impl AssetId {
    /// The call word of the id.
    pub open spec fn word(self) -> Word {
        Word { hi: 0, lo: self.0 as u128 }
    }

    /// The id that `w` stands for, if it stands for one.
    pub open spec fn of_word(w: Word) -> Option<AssetId> {
        if w.hi == 0 && w.lo <= u32::MAX {
            Some(AssetId(w.lo as u32))
        } else {
            None
        }
    }

    /// The call word of the id.
    pub fn to_word(&self) -> (r: Word)
        ensures
            r == self.word(),
    {
        Word { hi: 0, lo: self.0 as u128 }
    }

    /// The id that `w` stands for; `None` where the number of `w` is above
    /// the largest id.
    pub fn from_word(w: Word) -> (r: Option<AssetId>)
        ensures
            r == Self::of_word(w),
    {
        if w.hi == 0 && w.lo <= u32::MAX as u128 {
            Some(AssetId(w.lo as u32))
        } else {
            None
        }
    }

    /// An id turned into a word and back is the same id, and a word stands
    /// for an id only if it is that id's word: nothing is cut off.
    pub proof fn lemma_word_round_trip(id: AssetId, w: Word)
        ensures
            Self::of_word(id.word()) == Some(id),
            Self::of_word(w) matches Some(found) ==> found.word() == w,
            Self::of_word(w) is None <==> w.hi != 0 || w.lo > u32::MAX,
    {
    }
}

/// An amount of an asset. As a call word it is the number itself; words
/// above the largest amount stand for no amount.
#[derive(Clone, Copy, Debug, PartialEq, Eq, Hash, Structural)]
pub struct Balance(pub u128);

impl Balance {
    /// The call word of the amount.
    pub open spec fn word(self) -> Word {
        Word { hi: 0, lo: self.0 }
    }

    /// The amount that `w` stands for, if it stands for one.
    pub open spec fn of_word(w: Word) -> Option<Balance> {
        if w.hi == 0 {
            Some(Balance(w.lo))
        } else {
            None
        }
    }

    /// The call word of the amount.
    pub fn to_word(&self) -> (r: Word)
        ensures
            r == self.word(),
    {
        Word { hi: 0, lo: self.0 }
    }

    /// The amount that `w` stands for; `None` where the number of `w` is
    /// above the largest amount.
    pub fn from_word(w: Word) -> (r: Option<Balance>)
        ensures
            r == Self::of_word(w),
    {
        if w.hi == 0 {
            Some(Balance(w.lo))
        } else {
            None
        }
    }

    /// An amount turned into a word and back is the same amount, and a word
    /// stands for an amount only if it is that amount's word.
    pub proof fn lemma_word_round_trip(amount: Balance, w: Word)
        ensures
            Self::of_word(amount.word()) == Some(amount),
            Self::of_word(w) matches Some(found) ==> found.word() == w,
    {
    }
}

/// An account of the ledger. Accounts are twenty bytes wide: the account of
/// an address holds the bytes of the address.
#[derive(Clone, Copy, Debug, PartialEq, Eq, Hash, Structural)]
pub struct AccountId(pub Address);

impl AccountId {
    /// The account of `address`.
    pub open spec fn of_address(address: Address) -> AccountId {
        AccountId(address)
    }

    /// The call word of the account: twelve zero bytes, then its bytes.
    pub open spec fn word(self) -> Word {
        Word { hi: self.0.hi as u128, lo: self.0.lo }
    }

    /// The account that `w` stands for, if it stands for one.
    pub open spec fn of_word(w: Word) -> Option<AccountId> {
        if w.hi <= u32::MAX {
            Some(AccountId(Address { hi: w.hi as u32, lo: w.lo }))
        } else {
            None
        }
    }

    /// The account of `address`.
    pub fn from_address(address: Address) -> (r: AccountId)
        ensures
            r == Self::of_address(address),
    {
        AccountId(address)
    }

    /// The call word of the account.
    pub fn to_word(&self) -> (r: Word)
        ensures
            r == self.word(),
    {
        Word::from_address(self.0)
    }

    /// The account that `w` stands for; `None` where one of the first twelve
    /// bytes of `w` is not zero.
    pub fn from_word(w: Word) -> (r: Option<AccountId>)
        ensures
            r == Self::of_word(w),
    {
        match w.to_address() {
            Some(address) => Some(AccountId(address)),
            None => None,
        }
    }

    /// Distinct addresses have distinct accounts.
    pub proof fn lemma_of_address_injective(a: Address, b: Address)
        requires
            Self::of_address(a) == Self::of_address(b),
        ensures
            a == b,
    {
    }

    /// An account turned into a word and back is the same account, and a
    /// word stands for an account only if it is that account's word.
    pub proof fn lemma_word_round_trip(account: AccountId, w: Word)
        ensures
            Self::of_word(account.word()) == Some(account),
            Self::of_word(w) matches Some(found) ==> found.word() == w,
    {
    }
}

/// The authority under which an operation runs on the ledger: the account
/// that signs for it.
#[derive(Clone, Copy, Debug, PartialEq, Eq, Hash, Structural)]
pub struct Origin {
    pub account: AccountId,
}

impl Origin {
    /// The origin of a call made by `caller`.
    pub open spec fn of_caller(caller: Address) -> Origin {
        Origin { account: AccountId::of_address(caller) }
    }

    /// The origin of a call made by `caller`: the caller's own account, and
    /// nothing that the call's input says.
    pub fn from_caller(caller: Address) -> (r: Origin)
        ensures
            r == Self::of_caller(caller),
    {
        Origin { account: AccountId::from_address(caller) }
    }
}

/// What can be read off the ledger without changing it.
#[derive(Clone, Copy, Debug, PartialEq, Eq, Hash, Structural)]
pub enum Query {
    /// The amount of `asset` that `who` holds.
    Balance { asset: AssetId, who: AccountId },
    /// The amount of `asset` that `owner` lets `spender` dispose of.
    Allowance { asset: AssetId, owner: AccountId, spender: AccountId },
}

/// An operation that changes the ledger. The account that acts is the
/// origin under which the operation is dispatched.
#[derive(Clone, Copy, Debug, PartialEq, Eq, Hash, Structural)]
pub enum Operation {
    /// Move `amount` of `asset` from the origin to `to`.
    Transfer { asset: AssetId, to: AccountId, amount: Balance },
    /// Let `spender` dispose of `amount` of the origin's `asset`.
    Approve { asset: AssetId, spender: AccountId, amount: Balance },
    /// Create `amount` of `asset` in the hands of `to`.
    Mint { asset: AssetId, to: AccountId, amount: Balance },
    /// Destroy `amount` of `asset` in the hands of `from`.
    Burn { asset: AssetId, from: AccountId, amount: Balance },
}

/// Weight that one unit of gas pays for.
pub const WEIGHT_PER_GAS: u64 = 20_000;

/// The gas that reading the ledger costs, whatever is read.
pub const READ_GAS: u64 = 1_250;

/// The weight of a transfer.
pub const TRANSFER_WEIGHT: u64 = 250_000_000;

/// The weight of an approval.
pub const APPROVE_WEIGHT: u64 = 125_000_000;

/// The weight of a mint.
pub const MINT_WEIGHT: u64 = 250_000_000;

/// The weight of a burn.
pub const BURN_WEIGHT: u64 = 250_000_000;

/// The gas that pays for `weight`: the weight divided by the weight that
/// one unit of gas pays for, the remainder left out.
pub open spec fn gas_of_weight(weight: u64) -> u64 {
    weight / WEIGHT_PER_GAS
}

/// The gas that pays for `weight`.
pub fn weight_to_gas(weight: u64) -> (r: u64)
    ensures
        r == gas_of_weight(weight),
{
    weight / WEIGHT_PER_GAS
}

impl Operation {
    /// The weight that the operation declares before it runs.
    pub open spec fn declared_weight(self) -> u64 {
        match self {
            Operation::Transfer { .. } => TRANSFER_WEIGHT,
            Operation::Approve { .. } => APPROVE_WEIGHT,
            Operation::Mint { .. } => MINT_WEIGHT,
            Operation::Burn { .. } => BURN_WEIGHT,
        }
    }

    /// The weight that the operation declares before it runs.
    pub fn weight(&self) -> (r: u64)
        ensures
            r == self.declared_weight(),
    {
        match self {
            Operation::Transfer { .. } => TRANSFER_WEIGHT,
            Operation::Approve { .. } => APPROVE_WEIGHT,
            Operation::Mint { .. } => MINT_WEIGHT,
            Operation::Burn { .. } => BURN_WEIGHT,
        }
    }
}

/// An error of the ledger, as the ledger names it.
#[derive(Clone, Copy, Debug, PartialEq, Eq, Hash, Structural)]
pub enum NativeError {
    /// There is no asset with the given id.
    UnknownAsset,
    /// The balance to draw on holds less than the amount.
    BalanceLow,
    /// The origin may not perform the operation.
    NoPermission,
    /// A balance or the supply would pass the largest amount.
    Overflow,
    /// The supply would fall below zero.
    Underflow,
    /// Any other error, by its code.
    Other(u32),
}

impl NativeError {
    /// The reason that a caller is given for the error. The ledger's own
    /// codes stay behind.
    pub open spec fn told_as(self) -> BridgeError {
        match self {
            NativeError::UnknownAsset => BridgeError::AssetNotFound,
            NativeError::BalanceLow => BridgeError::InsufficientBalance,
            NativeError::NoPermission => BridgeError::NoPermission,
            NativeError::Overflow => BridgeError::Overflow,
            NativeError::Underflow => BridgeError::BridgeError,
            NativeError::Other(_) => BridgeError::BridgeError,
        }
    }

    /// The reason that a caller is given for the error.
    pub fn reason(&self) -> (r: BridgeError)
        ensures
            r == self.told_as(),
    {
        match self {
            NativeError::UnknownAsset => BridgeError::AssetNotFound,
            NativeError::BalanceLow => BridgeError::InsufficientBalance,
            NativeError::NoPermission => BridgeError::NoPermission,
            NativeError::Overflow => BridgeError::Overflow,
            NativeError::Underflow => BridgeError::BridgeError,
            NativeError::Other(_) => BridgeError::BridgeError,
        }
    }
}

/// What the ledger reports of a dispatched operation: the weight that it
/// consumed, and the error if it failed. A failed operation has changed
/// nothing.
#[derive(Clone, Copy, Debug, PartialEq, Eq, Hash, Structural)]
pub struct DispatchOutcome {
    pub consumed_weight: u64,
    pub error: Option<NativeError>,
}

} // verus!
