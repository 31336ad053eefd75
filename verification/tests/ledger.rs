use precompiles::address::Address;
use precompiles::ledger::{AssetInfo, Grant, Holder, Ledger};
use precompiles::native::{
    AccountId, AssetId, Balance, DispatchOutcome, NativeError, Operation, Origin, Query,
    APPROVE_WEIGHT, BURN_WEIGHT, MINT_WEIGHT, TRANSFER_WEIGHT,
};
use precompiles::table::{Key, Table};

const OWNER: AccountId = AccountId(Address { hi: 9, lo: 9 });
const X: AccountId = AccountId(Address { hi: 1, lo: 0 });
const Y: AccountId = AccountId(Address { hi: 0, lo: 1 });
const A: AssetId = AssetId(7);

fn by(account: AccountId) -> Origin {
    Origin { account }
}

fn ok(weight: u64) -> DispatchOutcome {
    DispatchOutcome { consumed_weight: weight, error: None }
}

fn failed(weight: u64, error: NativeError) -> DispatchOutcome {
    DispatchOutcome { consumed_weight: weight, error: Some(error) }
}

/// Asset 7 of OWNER, of which X holds 500.
fn ledger() -> Ledger {
    let mut ledger = Ledger::new();
    assert!(ledger.create_asset(A, OWNER));
    assert_eq!(
        ledger.dispatch(&Operation::Mint { asset: A, to: X, amount: Balance(500) }, &by(OWNER)),
        ok(MINT_WEIGHT)
    );
    ledger
}

#[test]
fn a_new_ledger_has_no_assets() {
    let ledger = Ledger::new();
    assert_eq!(ledger.asset(A), None);
    assert_eq!(ledger.total_supply(A), None);
    assert_eq!(ledger.balance(A, X), None);
    assert_eq!(ledger.allowance(A, X, Y), None);
    assert_eq!(ledger.read(&Query::Balance { asset: A, who: X }), None);
}

#[test]
fn an_asset_is_created_once() {
    let mut ledger = Ledger::new();
    assert!(ledger.create_asset(A, OWNER));
    assert_eq!(ledger.asset(A), Some(AssetInfo { owner: OWNER, supply: 0 }));
    assert_eq!(ledger.total_supply(A), Some(Balance(0)));
    assert_eq!(ledger.balance(A, X), Some(Balance(0)));
    assert!(!ledger.create_asset(A, X));
    assert_eq!(ledger.asset(A), Some(AssetInfo { owner: OWNER, supply: 0 }));
    assert!(ledger.create_asset(AssetId(8), X));
    assert_eq!(ledger.asset(AssetId(8)), Some(AssetInfo { owner: X, supply: 0 }));
}

#[test]
fn mint_raises_balance_and_supply() {
    let mut ledger = ledger();
    assert_eq!(ledger.balance(A, X), Some(Balance(500)));
    assert_eq!(ledger.total_supply(A), Some(Balance(500)));
    assert_eq!(
        ledger.dispatch(&Operation::Mint { asset: A, to: Y, amount: Balance(1) }, &by(OWNER)),
        ok(MINT_WEIGHT)
    );
    assert_eq!(ledger.balance(A, Y), Some(Balance(1)));
    assert_eq!(ledger.total_supply(A), Some(Balance(501)));
}

#[test]
fn transfer_moves_between_accounts() {
    let mut ledger = ledger();
    let op = Operation::Transfer { asset: A, to: Y, amount: Balance(120) };
    assert_eq!(ledger.check(&op, &by(X)), None);
    assert_eq!(ledger.dispatch(&op, &by(X)), ok(TRANSFER_WEIGHT));
    assert_eq!(ledger.balance(A, X), Some(Balance(380)));
    assert_eq!(ledger.balance(A, Y), Some(Balance(120)));
    assert_eq!(ledger.total_supply(A), Some(Balance(500)));
    assert_eq!(ledger.read(&Query::Balance { asset: A, who: Y }), Some(Balance(120)));
}

#[test]
fn a_failed_operation_changes_nothing() {
    let mut ledger = ledger();
    let cases = [
        (
            Operation::Transfer { asset: A, to: Y, amount: Balance(501) },
            X,
            failed(TRANSFER_WEIGHT, NativeError::BalanceLow),
        ),
        (
            Operation::Transfer { asset: A, to: X, amount: Balance(1) },
            Y,
            failed(TRANSFER_WEIGHT, NativeError::BalanceLow),
        ),
        (
            Operation::Transfer { asset: A, to: X, amount: Balance(501) },
            X,
            failed(TRANSFER_WEIGHT, NativeError::BalanceLow),
        ),
        (
            Operation::Transfer { asset: AssetId(8), to: Y, amount: Balance(0) },
            X,
            failed(TRANSFER_WEIGHT, NativeError::UnknownAsset),
        ),
        (
            Operation::Approve { asset: AssetId(8), spender: Y, amount: Balance(1) },
            X,
            failed(APPROVE_WEIGHT, NativeError::UnknownAsset),
        ),
        (
            Operation::Mint { asset: AssetId(8), to: Y, amount: Balance(1) },
            OWNER,
            failed(MINT_WEIGHT, NativeError::UnknownAsset),
        ),
        (
            Operation::Mint { asset: A, to: Y, amount: Balance(1) },
            X,
            failed(MINT_WEIGHT, NativeError::NoPermission),
        ),
        (
            Operation::Mint { asset: A, to: Y, amount: Balance(u128::MAX - 499) },
            OWNER,
            failed(MINT_WEIGHT, NativeError::Overflow),
        ),
        (
            Operation::Burn { asset: AssetId(8), from: X, amount: Balance(1) },
            OWNER,
            failed(BURN_WEIGHT, NativeError::UnknownAsset),
        ),
        (
            Operation::Burn { asset: A, from: X, amount: Balance(1) },
            X,
            failed(BURN_WEIGHT, NativeError::NoPermission),
        ),
        (
            Operation::Burn { asset: A, from: X, amount: Balance(501) },
            OWNER,
            failed(BURN_WEIGHT, NativeError::BalanceLow),
        ),
    ];
    for (operation, actor, outcome) in cases {
        assert_eq!(ledger.check(&operation, &by(actor)), outcome.error);
        assert_eq!(ledger.dispatch(&operation, &by(actor)), outcome);
        assert_eq!(ledger.balance(A, X), Some(Balance(500)));
        assert_eq!(ledger.balance(A, Y), Some(Balance(0)));
        assert_eq!(ledger.allowance(A, X, Y), Some(Balance(0)));
        assert_eq!(ledger.total_supply(A), Some(Balance(500)));
        assert_eq!(ledger.asset(AssetId(8)), None);
    }
}

#[test]
fn a_transfer_to_oneself_is_a_success_that_changes_nothing() {
    let mut ledger = ledger();
    let op = Operation::Transfer { asset: A, to: X, amount: Balance(500) };
    assert_eq!(ledger.dispatch(&op, &by(X)), ok(TRANSFER_WEIGHT));
    assert_eq!(ledger.balance(A, X), Some(Balance(500)));
    assert_eq!(ledger.total_supply(A), Some(Balance(500)));
}

#[test]
fn burn_lowers_balance_and_supply() {
    let mut ledger = ledger();
    assert_eq!(
        ledger.dispatch(&Operation::Burn { asset: A, from: X, amount: Balance(499) }, &by(OWNER)),
        ok(BURN_WEIGHT)
    );
    assert_eq!(ledger.balance(A, X), Some(Balance(1)));
    assert_eq!(ledger.total_supply(A), Some(Balance(1)));
}

#[test]
fn approve_is_kept_for_owner_and_spender() {
    let mut ledger = ledger();
    let op = Operation::Approve { asset: A, spender: Y, amount: Balance(33) };
    assert_eq!(ledger.dispatch(&op, &by(X)), ok(APPROVE_WEIGHT));
    assert_eq!(ledger.allowance(A, X, Y), Some(Balance(33)));
    assert_eq!(ledger.allowance(A, Y, X), Some(Balance(0)));
    assert_eq!(
        ledger.read(&Query::Allowance { asset: A, owner: X, spender: Y }),
        Some(Balance(33))
    );
    let op = Operation::Approve { asset: A, spender: Y, amount: Balance(0) };
    assert_eq!(ledger.dispatch(&op, &by(X)), ok(APPROVE_WEIGHT));
    assert_eq!(ledger.allowance(A, X, Y), Some(Balance(0)));
    assert_eq!(ledger.balance(A, X), Some(Balance(500)));
}

#[test]
fn assets_are_kept_apart() {
    let mut ledger = ledger();
    assert!(ledger.create_asset(AssetId(8), X));
    assert_eq!(
        ledger.dispatch(&Operation::Mint { asset: AssetId(8), to: X, amount: Balance(5) }, &by(X)),
        ok(MINT_WEIGHT)
    );
    assert_eq!(ledger.balance(A, X), Some(Balance(500)));
    assert_eq!(ledger.balance(AssetId(8), X), Some(Balance(5)));
    assert_eq!(ledger.total_supply(A), Some(Balance(500)));
    assert_eq!(ledger.total_supply(AssetId(8)), Some(Balance(5)));
}

#[test]
fn operations_declare_their_weights() {
    assert_eq!(Operation::Transfer { asset: A, to: Y, amount: Balance(1) }.weight(), 250_000_000);
    assert_eq!(Operation::Approve { asset: A, spender: Y, amount: Balance(1) }.weight(), 125_000_000);
    assert_eq!(Operation::Mint { asset: A, to: Y, amount: Balance(1) }.weight(), 250_000_000);
    assert_eq!(Operation::Burn { asset: A, from: Y, amount: Balance(1) }.weight(), 250_000_000);
}

#[test]
fn a_table_holds_the_last_value_set() {
    let mut table: Table<AssetId, u128> = Table::new();
    assert_eq!(table.get(AssetId(1)), None);
    table.set(AssetId(1), 10);
    table.set(AssetId(2), 20);
    table.set(AssetId(1), 11);
    assert_eq!(table.get(AssetId(1)), Some(11));
    assert_eq!(table.get(AssetId(2)), Some(20));
    assert_eq!(table.get(AssetId(3)), None);
}

#[test]
fn keys_are_the_same_when_all_their_parts_are() {
    assert!(AssetId(1).same(&AssetId(1)));
    assert!(!AssetId(1).same(&AssetId(2)));
    let h = Holder { asset: A, who: X };
    assert!(h.same(&Holder { asset: A, who: X }));
    assert!(!h.same(&Holder { asset: A, who: Y }));
    assert!(!h.same(&Holder { asset: AssetId(8), who: X }));
    let g = Grant { asset: A, owner: X, spender: Y };
    assert!(g.same(&Grant { asset: A, owner: X, spender: Y }));
    assert!(!g.same(&Grant { asset: A, owner: Y, spender: X }));
}

#[test]
fn the_supply_is_what_all_accounts_hold() {
    let z = AccountId(Address { hi: 3, lo: 3 });
    let mut ledger = ledger();
    let steps = [
        (Operation::Transfer { asset: A, to: Y, amount: Balance(120) }, X),
        (Operation::Mint { asset: A, to: z, amount: Balance(77) }, OWNER),
        (Operation::Transfer { asset: A, to: z, amount: Balance(20) }, Y),
        (Operation::Burn { asset: A, from: X, amount: Balance(80) }, OWNER),
        (Operation::Transfer { asset: A, to: X, amount: Balance(97) }, z),
        (Operation::Transfer { asset: A, to: X, amount: Balance(1) }, z),
        (Operation::Approve { asset: A, spender: Y, amount: Balance(5) }, X),
        (Operation::Mint { asset: A, to: OWNER, amount: Balance(3) }, OWNER),
    ];
    for (operation, actor) in steps {
        ledger.dispatch(&operation, &by(actor));
        let mut sum = 0u128;
        for who in [OWNER, X, Y, z] {
            sum += ledger.balance(A, who).unwrap().0;
        }
        assert_eq!(Some(Balance(sum)), ledger.total_supply(A));
    }
    assert_eq!(ledger.total_supply(A), Some(Balance(500)));
    assert_eq!(ledger.balance(A, X), Some(Balance(397)));
    assert_eq!(ledger.balance(A, Y), Some(Balance(100)));
    assert_eq!(ledger.balance(A, z), Some(Balance(0)));
    assert_eq!(ledger.balance(A, OWNER), Some(Balance(3)));
}
