//! The sum of what all accounts hold of an asset.

use crate::ledger::Holder;
use crate::native::AssetId;
use vstd::prelude::*;

verus! {

/// Adds to `sum` what `h` holds, where `h` is a holding of `asset`.
pub open spec fn counted(balances: Map<Holder, u128>, asset: AssetId) -> spec_fn(nat, Holder) -> nat {
    |sum: nat, h: Holder|
        if h.asset == asset && balances.contains_key(h) {
            sum + balances[h] as nat
        } else {
            sum
        }
}

/// What all accounts together hold of `asset`.
pub open spec fn held(balances: Map<Holder, u128>, asset: AssetId) -> nat {
    balances.dom().fold(0nat, counted(balances, asset))
}

/// What `h` adds to the sum for `asset`.
pub open spec fn share(balances: Map<Holder, u128>, asset: AssetId, h: Holder) -> nat {
    if h.asset == asset && balances.contains_key(h) {
        balances[h] as nat
    } else {
        0
    }
}

/// The order in which holdings are counted does not matter.
proof fn lemma_counted_commutes(balances: Map<Holder, u128>, asset: AssetId)
    ensures
        vstd::set::fold::is_fun_commutative(counted(balances, asset)),
{
    let f = counted(balances, asset);
    assert forall|a1: Holder, a2: Holder, b: nat| #[trigger] f(f(b, a2), a1) == f(f(b, a1), a2) by {}
}

/// Two ways of counting that agree on every member of a set add up to the
/// same over the set.
proof fn lemma_fold_agrees(s: Set<Holder>, f: spec_fn(nat, Holder) -> nat, g: spec_fn(nat, Holder) -> nat)
    requires
        s.finite(),
        vstd::set::fold::is_fun_commutative(f),
        vstd::set::fold::is_fun_commutative(g),
        forall|b: nat, h: Holder| s.contains(h) ==> #[trigger] f(b, h) == g(b, h),
    ensures
        s.fold(0nat, f) == s.fold(0nat, g),
    decreases s.len(),
{
    if s.is_empty() {
        assert(s =~= Set::<Holder>::empty());
        vstd::set::fold::lemma_fold_empty(0nat, f);
        vstd::set::fold::lemma_fold_empty(0nat, g);
    } else {
        let h = s.choose();
        let t = s.remove(h);
        assert(t.len() < s.len());
        lemma_fold_agrees(t, f, g);
        vstd::set::fold::lemma_fold_insert(t, 0nat, f, h);
        vstd::set::fold::lemma_fold_insert(t, 0nat, g, h);
        assert(t.insert(h) =~= s);
    }
}

/// Writing `v` for `k` changes the sum for `asset` by what `k` adds to it
/// after the writing, less what it added before.
pub proof fn lemma_held_insert(balances: Map<Holder, u128>, asset: AssetId, k: Holder, v: u128)
    requires
        balances.dom().finite(),
    ensures
        held(balances.insert(k, v), asset) == held(balances, asset) - share(balances, asset, k) + (
        if k.asset == asset {
            v as nat
        } else {
            0
        }),
        balances.insert(k, v).dom().finite(),
{
    let after = balances.insert(k, v);
    let f = counted(balances, asset);
    let g = counted(after, asset);
    let rest = balances.dom().remove(k);
    lemma_counted_commutes(balances, asset);
    lemma_counted_commutes(after, asset);
    assert(after.dom() =~= rest.insert(k));
    vstd::set::fold::lemma_fold_insert(rest, 0nat, g, k);
    lemma_fold_agrees(rest, f, g);
    if balances.contains_key(k) {
        assert(balances.dom() =~= rest.insert(k));
        vstd::set::fold::lemma_fold_insert(rest, 0nat, f, k);
    } else {
        assert(balances.dom() =~= rest);
    }
}

/// Where no account holds any of `asset`, the sum is zero.
pub proof fn lemma_held_of_none(balances: Map<Holder, u128>, asset: AssetId)
    requires
        balances.dom().finite(),
        forall|h: Holder| balances.contains_key(h) ==> h.asset != asset,
    ensures
        held(balances, asset) == 0,
{
    lemma_counted_commutes(balances, asset);
    lemma_fold_of_nothing(balances.dom(), counted(balances, asset));
}

/// A way of counting that adds nothing for any member of a set adds up to
/// nothing over the set.
proof fn lemma_fold_of_nothing(s: Set<Holder>, f: spec_fn(nat, Holder) -> nat)
    requires
        s.finite(),
        vstd::set::fold::is_fun_commutative(f),
        forall|b: nat, h: Holder| s.contains(h) ==> #[trigger] f(b, h) == b,
    ensures
        s.fold(0nat, f) == 0,
    decreases s.len(),
{
    if s.is_empty() {
        assert(s =~= Set::<Holder>::empty());
        vstd::set::fold::lemma_fold_empty(0nat, f);
    } else {
        let h = s.choose();
        let t = s.remove(h);
        assert(t.len() < s.len());
        lemma_fold_of_nothing(t, f);
        vstd::set::fold::lemma_fold_insert(t, 0nat, f, h);
        assert(t.insert(h) =~= s);
    }
}

/// What two accounts hold of an asset is together no more than what all
/// accounts hold of it.
pub proof fn lemma_held_covers_two(balances: Map<Holder, u128>, asset: AssetId, a: Holder, b: Holder)
    requires
        balances.dom().finite(),
        a != b,
    ensures
        share(balances, asset, a) + share(balances, asset, b) <= held(balances, asset),
{
    lemma_held_insert(balances, asset, a, 0);
    lemma_held_insert(balances.insert(a, 0), asset, b, 0);
}

} // verus!
