//! A ledger of fungible assets held in memory.
//!
//! The ledger answers the bridge as a chain's own asset ledger would: an
//! operation is applied whole or not at all, and reports the weight that it
//! consumed. It stands where no chain is at hand, and it is the model over
//! which the laws of the bridge are stated.

use crate::holdings::{
    held, lemma_held_covers_two, lemma_held_insert, lemma_held_of_none,
};
use crate::native::{
    AccountId, AssetId, Balance, DispatchOutcome, NativeError, Operation, Origin, Query,
};
use crate::table::{Key, Table};
use vstd::prelude::*;

verus! {

/// What the ledger keeps of an asset: who may mint and burn it, and how much
/// of it there is.
#[derive(Clone, Copy, Debug, PartialEq, Eq, Hash, Structural)]
pub struct AssetInfo {
    pub owner: AccountId,
    pub supply: u128,
}

/// The place of a balance: an account's holding of an asset.
#[derive(Clone, Copy, Debug, PartialEq, Eq, Hash, Structural)]
pub struct Holder {
    pub asset: AssetId,
    pub who: AccountId,
}

/// The place of an allowance: what an owner lets a spender dispose of.
#[derive(Clone, Copy, Debug, PartialEq, Eq, Hash, Structural)]
pub struct Grant {
    pub asset: AssetId,
    pub owner: AccountId,
    pub spender: AccountId,
}

impl Key for AssetId {
    fn same(&self, other: &Self) -> (r: bool) {
        *self == *other
    }
}

impl Key for Holder {
    fn same(&self, other: &Self) -> (r: bool) {
        *self == *other
    }
}

impl Key for Grant {
    fn same(&self, other: &Self) -> (r: bool) {
        *self == *other
    }
}

/// The state of a ledger.
pub struct LedgerView {
    /// The assets that exist.
    pub assets: Map<AssetId, AssetInfo>,
    /// The balances that were ever written. A balance that is not here is
    /// zero.
    pub balances: Map<Holder, u128>,
    /// The allowances that were ever written. An allowance that is not here
    /// is zero.
    pub allowances: Map<Grant, u128>,
}

impl LedgerView {
    /// Whether the asset exists.
    pub open spec fn has_asset(self, asset: AssetId) -> bool {
        self.assets.contains_key(asset)
    }

    /// The amount of `asset` that `who` holds.
    pub open spec fn balance(self, asset: AssetId, who: AccountId) -> u128 {
        if self.balances.contains_key(Holder { asset, who }) {
            self.balances[Holder { asset, who }]
        } else {
            0
        }
    }

    /// The amount of `asset` that `owner` lets `spender` dispose of.
    pub open spec fn allowance(self, asset: AssetId, owner: AccountId, spender: AccountId) -> u128 {
        if self.allowances.contains_key(Grant { asset, owner, spender }) {
            self.allowances[Grant { asset, owner, spender }]
        } else {
            0
        }
    }

    /// The amount of `asset` that there is.
    pub open spec fn supply(self, asset: AssetId) -> u128 {
        if self.has_asset(asset) {
            self.assets[asset].supply
        } else {
            0
        }
    }

    /// The answer to a query: `None` where the asset does not exist.
    pub open spec fn answer(self, query: Query) -> Option<Balance> {
        match query {
            Query::Balance { asset, who } => if self.has_asset(asset) {
                Some(Balance(self.balance(asset, who)))
            } else {
                None
            },
            Query::Allowance { asset, owner, spender } => if self.has_asset(asset) {
                Some(Balance(self.allowance(asset, owner, spender)))
            } else {
                None
            },
        }
    }

    /// The error with which the operation fails under `origin`; `None` where
    /// it succeeds.
    pub open spec fn error_of(self, operation: Operation, origin: Origin) -> Option<NativeError> {
        let actor = origin.account;
        match operation {
            Operation::Transfer { asset, to, amount } => if !self.has_asset(asset) {
                Some(NativeError::UnknownAsset)
            } else if self.balance(asset, actor) < amount.0 {
                Some(NativeError::BalanceLow)
            } else if actor != to && self.balance(asset, to) + amount.0 > u128::MAX {
                Some(NativeError::Overflow)
            } else {
                None
            },
            Operation::Approve { asset, spender, amount } => if !self.has_asset(asset) {
                Some(NativeError::UnknownAsset)
            } else {
                None
            },
            Operation::Mint { asset, to, amount } => if !self.has_asset(asset) {
                Some(NativeError::UnknownAsset)
            } else if self.assets[asset].owner != actor {
                Some(NativeError::NoPermission)
            } else if self.supply(asset) + amount.0 > u128::MAX {
                Some(NativeError::Overflow)
            } else if self.balance(asset, to) + amount.0 > u128::MAX {
                Some(NativeError::Overflow)
            } else {
                None
            },
            Operation::Burn { asset, from, amount } => if !self.has_asset(asset) {
                Some(NativeError::UnknownAsset)
            } else if self.assets[asset].owner != actor {
                Some(NativeError::NoPermission)
            } else if self.balance(asset, from) < amount.0 {
                Some(NativeError::BalanceLow)
            } else if self.supply(asset) < amount.0 {
                Some(NativeError::Underflow)
            } else {
                None
            },
        }
    }

    /// The state after the operation has run under `origin`, where it
    /// succeeds.
    pub open spec fn after(self, operation: Operation, origin: Origin) -> LedgerView {
        let actor = origin.account;
        match operation {
            Operation::Transfer { asset, to, amount } => if actor == to {
                self
            } else {
                LedgerView {
                    balances: self.balances.insert(
                        Holder { asset, who: actor },
                        (self.balance(asset, actor) - amount.0) as u128,
                    ).insert(
                        Holder { asset, who: to },
                        (self.balance(asset, to) + amount.0) as u128,
                    ),
                    ..self
                }
            },
            Operation::Approve { asset, spender, amount } => LedgerView {
                allowances: self.allowances.insert(Grant { asset, owner: actor, spender }, amount.0),
                ..self
            },
            Operation::Mint { asset, to, amount } => LedgerView {
                assets: self.assets.insert(
                    asset,
                    AssetInfo {
                        owner: self.assets[asset].owner,
                        supply: (self.supply(asset) + amount.0) as u128,
                    },
                ),
                balances: self.balances.insert(
                    Holder { asset, who: to },
                    (self.balance(asset, to) + amount.0) as u128,
                ),
                ..self
            },
            Operation::Burn { asset, from, amount } => LedgerView {
                assets: self.assets.insert(
                    asset,
                    AssetInfo {
                        owner: self.assets[asset].owner,
                        supply: (self.supply(asset) - amount.0) as u128,
                    },
                ),
                balances: self.balances.insert(
                    Holder { asset, who: from },
                    (self.balance(asset, from) - amount.0) as u128,
                ),
                ..self
            },
        }
    }

    /// The state after the operation was dispatched under `origin`, and what
    /// the ledger reports of it. A failed operation leaves the state as it
    /// was. The weight consumed is the weight declared, either way.
    pub open spec fn dispatched(self, operation: Operation, origin: Origin) -> (
        LedgerView,
        DispatchOutcome,
    ) {
        let error = self.error_of(operation, origin);
        (
            if error is None {
                self.after(operation, origin)
            } else {
                self
            },
            DispatchOutcome { consumed_weight: operation.declared_weight(), error },
        )
    }

    /// The state with the new asset `asset`, owned by `owner`, none of it in
    /// being.
    pub open spec fn with_asset(self, asset: AssetId, owner: AccountId) -> LedgerView {
        LedgerView { assets: self.assets.insert(asset, AssetInfo { owner, supply: 0 }), ..self }
    }

    /// The books balance: only assets that exist are held, and the supply of
    /// each asset is what all accounts together hold of it.
    pub open spec fn sound(self) -> bool {
        &&& self.balances.dom().finite()
        &&& forall|h: Holder| #[trigger] self.balances.contains_key(h) ==> self.has_asset(h.asset)
        &&& forall|asset: AssetId| #[trigger]
            self.assets.contains_key(asset) ==> self.assets[asset].supply == held(
                self.balances,
                asset,
            )
    }

    /// A ledger without assets balances.
    pub proof fn lemma_empty_is_sound()
        ensures
            (LedgerView {
                assets: Map::empty(),
                balances: Map::empty(),
                allowances: Map::empty(),
            }).sound(),
    {
    }

    /// A new asset keeps the books balanced.
    pub proof fn lemma_with_asset_keeps_sound(self, asset: AssetId, owner: AccountId)
        requires
            self.sound(),
            !self.has_asset(asset),
        ensures
            self.with_asset(asset, owner).sound(),
    {
        lemma_held_of_none(self.balances, asset);
    }

    /// Where the books balance, a receiver always has room for what a sender
    /// holds: a transfer cannot pass the largest amount.
    pub proof fn lemma_transfer_has_room(self, asset: AssetId, from: AccountId, to: AccountId)
        requires
            self.sound(),
            self.has_asset(asset),
            from != to,
        ensures
            self.balance(asset, from) + self.balance(asset, to) <= self.supply(asset),
            self.balance(asset, from) + self.balance(asset, to) <= u128::MAX,
    {
        lemma_held_covers_two(
            self.balances,
            asset,
            Holder { asset, who: from },
            Holder { asset, who: to },
        );
    }

    /// Where the books balance, no transfer fails for want of room and no
    /// burn for want of supply.
    pub proof fn lemma_books_leave_room(self, operation: Operation, origin: Origin)
        requires
            self.sound(),
        ensures
            operation is Transfer ==> self.error_of(operation, origin) != Some(
                NativeError::Overflow,
            ),
            self.error_of(operation, origin) != Some(NativeError::Underflow),
    {
        match operation {
            Operation::Transfer { asset, to, amount } => {
                if self.has_asset(asset) && origin.account != to {
                    self.lemma_transfer_has_room(asset, origin.account, to);
                }
            },
            Operation::Burn { asset, from, amount } => {
                if self.has_asset(asset) {
                    lemma_held_insert(self.balances, asset, Holder { asset, who: from }, 0);
                }
            },
            _ => {},
        }
    }

    /// A dispatched operation keeps the books balanced, whether it runs or
    /// fails.
    pub proof fn lemma_dispatched_keeps_sound(self, operation: Operation, origin: Origin)
        requires
            self.sound(),
        ensures
            self.dispatched(operation, origin).0.sound(),
    {
        if self.error_of(operation, origin) is None {
            let after = self.after(operation, origin);
            let actor = origin.account;
            match operation {
                Operation::Transfer { asset, to, amount } => {
                    if actor != to {
                        let from_key = Holder { asset, who: actor };
                        let to_key = Holder { asset, who: to };
                        let taken = (self.balance(asset, actor) - amount.0) as u128;
                        let given = (self.balance(asset, to) + amount.0) as u128;
                        let between = self.balances.insert(from_key, taken);
                        assert(after.balances == between.insert(to_key, given));
                        assert forall|other: AssetId| #[trigger]
                            after.assets.contains_key(other) implies after.assets[other].supply
                            == held(after.balances, other) by {
                            lemma_held_insert(self.balances, other, from_key, taken);
                            lemma_held_insert(between, other, to_key, given);
                        }
                        lemma_held_insert(self.balances, asset, from_key, taken);
                    }
                },
                Operation::Approve { asset, spender, amount } => {},
                Operation::Mint { asset, to, amount } => {
                    let key = Holder { asset, who: to };
                    let given = (self.balance(asset, to) + amount.0) as u128;
                    assert forall|other: AssetId| #[trigger]
                        after.assets.contains_key(other) implies after.assets[other].supply
                        == held(after.balances, other) by {
                        lemma_held_insert(self.balances, other, key, given);
                    }
                },
                Operation::Burn { asset, from, amount } => {
                    let key = Holder { asset, who: from };
                    let left = (self.balance(asset, from) - amount.0) as u128;
                    assert forall|other: AssetId| #[trigger]
                        after.assets.contains_key(other) implies after.assets[other].supply
                        == held(after.balances, other) by {
                        lemma_held_insert(self.balances, other, key, left);
                    }
                },
            }
        }
    }
}

/// A ledger of fungible assets held in memory.
pub struct Ledger {
    assets: Table<AssetId, AssetInfo>,
    balances: Table<Holder, u128>,
    allowances: Table<Grant, u128>,
}

impl View for Ledger {
    type V = LedgerView;

    closed spec fn view(&self) -> LedgerView {
        LedgerView {
            assets: self.assets@,
            balances: self.balances@,
            allowances: self.allowances@,
        }
    }
}

impl Ledger {
    /// The ledger is in order: each of its tables is, and its books balance.
    pub closed spec fn wf(&self) -> bool {
        &&& self.assets.wf()
        &&& self.balances.wf()
        &&& self.allowances.wf()
        &&& self@.sound()
    }

    /// The books of a ledger in order balance.
    pub proof fn lemma_wf_is_sound(&self)
        requires
            self.wf(),
        ensures
            self@.sound(),
    {
    }

    /// A ledger without assets.
    pub fn new() -> (r: Ledger)
        ensures
            r.wf(),
            r@ == (LedgerView {
                assets: Map::empty(),
                balances: Map::empty(),
                allowances: Map::empty(),
            }),
    {
        Ledger { assets: Table::new(), balances: Table::new(), allowances: Table::new() }
    }

    /// Brings the asset `asset` into being, owned by `owner`, with a supply
    /// of zero. Does nothing and says `false` where the asset exists.
    pub fn create_asset(&mut self, asset: AssetId, owner: AccountId) -> (r: bool)
        requires
            old(self).wf(),
        ensures
            final(self).wf(),
            r == !old(self)@.has_asset(asset),
            final(self)@ == (if r {
                old(self)@.with_asset(asset, owner)
            } else {
                old(self)@
            }),
    {
        match self.assets.get(asset) {
            Some(_) => false,
            None => {
                proof {
                    self@.lemma_with_asset_keeps_sound(asset, owner);
                }
                self.assets.set(asset, AssetInfo { owner, supply: 0 });
                true
            },
        }
    }

    /// What the ledger keeps of `asset`, if the asset exists.
    pub fn asset(&self, asset: AssetId) -> (r: Option<AssetInfo>)
        requires
            self.wf(),
        ensures
            r == (if self@.has_asset(asset) {
                Some(self@.assets[asset])
            } else {
                None
            }),
    {
        self.assets.get(asset)
    }

    /// The amount of `asset` that there is; `None` where the asset does not
    /// exist.
    pub fn total_supply(&self, asset: AssetId) -> (r: Option<Balance>)
        requires
            self.wf(),
        ensures
            r == (if self@.has_asset(asset) {
                Some(Balance(self@.supply(asset)))
            } else {
                None
            }),
    {
        match self.assets.get(asset) {
            Some(info) => Some(Balance(info.supply)),
            None => None,
        }
    }

    /// The amount of `asset` that `who` holds, whether or not the asset
    /// exists.
    fn held(&self, asset: AssetId, who: AccountId) -> (r: u128)
        requires
            self.wf(),
        ensures
            r == self@.balance(asset, who),
    {
        match self.balances.get(Holder { asset, who }) {
            Some(amount) => amount,
            None => 0,
        }
    }

    /// The amount of `asset` that `who` holds; `None` where the asset does
    /// not exist.
    pub fn balance(&self, asset: AssetId, who: AccountId) -> (r: Option<Balance>)
        requires
            self.wf(),
        ensures
            r == self@.answer(Query::Balance { asset, who }),
    {
        match self.assets.get(asset) {
            Some(_) => Some(Balance(self.held(asset, who))),
            None => None,
        }
    }

    /// The amount of `asset` that `owner` lets `spender` dispose of; `None`
    /// where the asset does not exist.
    pub fn allowance(&self, asset: AssetId, owner: AccountId, spender: AccountId) -> (r: Option<
        Balance,
    >)
        requires
            self.wf(),
        ensures
            r == self@.answer(Query::Allowance { asset, owner, spender }),
    {
        match self.assets.get(asset) {
            Some(_) => match self.allowances.get(Grant { asset, owner, spender }) {
                Some(amount) => Some(Balance(amount)),
                None => Some(Balance(0)),
            },
            None => None,
        }
    }

    /// Answers a query; `None` where the asset does not exist.
    pub fn read(&self, query: &Query) -> (r: Option<Balance>)
        requires
            self.wf(),
        ensures
            r == self@.answer(*query),
    {
        match query {
            Query::Balance { asset, who } => self.balance(*asset, *who),
            Query::Allowance { asset, owner, spender } => self.allowance(*asset, *owner, *spender),
        }
    }

    /// The error with which the operation would fail under `origin`; `None`
    /// where it would succeed.
    pub fn check(&self, operation: &Operation, origin: &Origin) -> (r: Option<NativeError>)
        requires
            self.wf(),
        ensures
            r == self@.error_of(*operation, *origin),
    {
        let actor = origin.account;
        match operation {
            Operation::Transfer { asset, to, amount } => {
                if self.assets.get(*asset).is_none() {
                    Some(NativeError::UnknownAsset)
                } else if self.held(*asset, actor) < amount.0 {
                    Some(NativeError::BalanceLow)
                } else if actor != *to && amount.0 > u128::MAX - self.held(*asset, *to) {
                    Some(NativeError::Overflow)
                } else {
                    None
                }
            },
            Operation::Approve { asset, spender, amount } => {
                if self.assets.get(*asset).is_none() {
                    Some(NativeError::UnknownAsset)
                } else {
                    None
                }
            },
            Operation::Mint { asset, to, amount } => {
                match self.assets.get(*asset) {
                    None => Some(NativeError::UnknownAsset),
                    Some(info) => {
                        if info.owner != actor {
                            Some(NativeError::NoPermission)
                        } else if amount.0 > u128::MAX - info.supply {
                            Some(NativeError::Overflow)
                        } else if amount.0 > u128::MAX - self.held(*asset, *to) {
                            Some(NativeError::Overflow)
                        } else {
                            None
                        }
                    },
                }
            },
            Operation::Burn { asset, from, amount } => {
                match self.assets.get(*asset) {
                    None => Some(NativeError::UnknownAsset),
                    Some(info) => {
                        if info.owner != actor {
                            Some(NativeError::NoPermission)
                        } else if self.held(*asset, *from) < amount.0 {
                            Some(NativeError::BalanceLow)
                        } else if info.supply < amount.0 {
                            Some(NativeError::Underflow)
                        } else {
                            None
                        }
                    },
                }
            },
        }
    }

    /// Runs an operation that `check` has passed.
    fn apply(&mut self, operation: &Operation, origin: &Origin)
        requires
            old(self).wf(),
            old(self)@.error_of(*operation, *origin) is None,
        ensures
            final(self).wf(),
            final(self)@ == old(self)@.after(*operation, *origin),
    {
        let actor = origin.account;
        proof {
            old(self)@.lemma_dispatched_keeps_sound(*operation, *origin);
        }
        match operation {
            Operation::Transfer { asset, to, amount } => {
                if actor != *to {
                    let from_balance = self.held(*asset, actor);
                    let to_balance = self.held(*asset, *to);
                    self.balances.set(Holder { asset: *asset, who: actor }, from_balance - amount.0);
                    self.balances.set(Holder { asset: *asset, who: *to }, to_balance + amount.0);
                }
            },
            Operation::Approve { asset, spender, amount } => {
                self.allowances.set(
                    Grant { asset: *asset, owner: actor, spender: *spender },
                    amount.0,
                );
            },
            Operation::Mint { asset, to, amount } => {
                let info = self.assets.get(*asset).unwrap();
                let balance = self.held(*asset, *to);
                self.assets.set(
                    *asset,
                    AssetInfo { owner: info.owner, supply: info.supply + amount.0 },
                );
                self.balances.set(Holder { asset: *asset, who: *to }, balance + amount.0);
            },
            Operation::Burn { asset, from, amount } => {
                let info = self.assets.get(*asset).unwrap();
                let balance = self.held(*asset, *from);
                self.assets.set(
                    *asset,
                    AssetInfo { owner: info.owner, supply: info.supply - amount.0 },
                );
                self.balances.set(Holder { asset: *asset, who: *from }, balance - amount.0);
            },
        }
    }

    /// Dispatches an operation under `origin`: runs it whole where it can
    /// succeed, leaves the ledger as it was where it cannot, and reports the
    /// weight consumed and the error.
    pub fn dispatch(&mut self, operation: &Operation, origin: &Origin) -> (r: DispatchOutcome)
        requires
            old(self).wf(),
        ensures
            final(self).wf(),
            (final(self)@, r) == old(self)@.dispatched(*operation, *origin),
    {
        let error = self.check(operation, origin);
        if error.is_none() {
            self.apply(operation, origin);
        }
        DispatchOutcome { consumed_weight: operation.weight(), error }
    }
}

} // verus!
