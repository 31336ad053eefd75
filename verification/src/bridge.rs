//! The bridge from calls to the ledger's fungible assets.
//!
//! A call is answered in two steps, with the ledger's work between them.
//! `plan` takes the call apart and decides what is asked of the ledger, if
//! anything; `settle_read` and `settle_dispatch` turn the ledger's answer
//! into the result of the call. `execute` runs both steps against a ledger
//! held in memory.

use crate::abi::{
    decode, decoded, encoded, lemma_decode_encode, selector_code, word_at, BridgeCall, Selector,
};
use crate::address::Address;
use crate::context::{
    BridgeError, CallContext, CallView, FatalError, Outcome, PrecompileResult, Reason,
    RevertReason,
};
use crate::ledger::{Ledger, LedgerView};
use crate::native::{
    gas_of_weight, weight_to_gas, AccountId, AssetId, Balance, DispatchOutcome, Operation, Origin, Query,
    READ_GAS, TRANSFER_WEIGHT,
};
use crate::word::Word;
use vstd::prelude::*;

verus! {

/// What a call asks for, once it is taken apart.
#[derive(Clone, Copy, Debug, PartialEq, Eq, Hash, Structural)]
pub enum Step {
    /// The call is turned down; nothing is asked of the ledger.
    Reject(BridgeError),
    /// The gas of the call does not cover the work; nothing is asked of the
    /// ledger, and all the gas counts as used.
    OutOfGas,
    /// The ledger is to be read. The gas for it is recorded.
    Read(Query),
    /// The operation is to be dispatched under `origin`. The gas of the call
    /// covers the weight that the operation declares.
    Dispatch { operation: Operation, origin: Origin },
}

/// What `call` asks for, and the call with the gas recorded so far.
///
/// The input is taken apart first, and a call whose input holds no call is
/// turned down for that. Then a call that would change the ledger is turned
/// down if it is static, and any call if value comes with it. What is left is
/// metered: a read at its flat cost, an operation at its declared weight. The
/// origin is the caller's own account.
pub open spec fn planned(call: CallView) -> (Step, CallView) {
    match decoded(call.input) {
        Err(error) => (Step::Reject(error), call),
        Ok(BridgeCall::Write(_)) if call.is_static => (Step::Reject(BridgeError::StaticCall), call),
        Ok(_) if call.carries_value() => (Step::Reject(BridgeError::UnexpectedValue), call),
        Ok(BridgeCall::Read(query)) => if READ_GAS <= call.remaining() {
            (Step::Read(query), call.charged(READ_GAS))
        } else {
            (Step::OutOfGas, call.exhausted())
        },
        Ok(BridgeCall::Write(operation)) => if gas_of_weight(operation.declared_weight())
            <= call.remaining() {
            (Step::Dispatch { operation, origin: Origin::of_caller(call.caller) }, call)
        } else {
            (Step::OutOfGas, call.exhausted())
        },
    }
}

/// Takes the call apart and decides what is asked of the ledger.
pub fn plan(call: &mut CallContext) -> (r: Step)
    ensures
        (r, final(call)@) == planned(old(call)@),
{
    let parsed = decode(call.input());
    match parsed {
        Err(error) => Step::Reject(error),
        Ok(request) => {
            let writes = match request {
                BridgeCall::Write(_) => true,
                BridgeCall::Read(_) => false,
            };
            if writes && call.is_static() {
                Step::Reject(BridgeError::StaticCall)
            } else if call.carries_value() {
                Step::Reject(BridgeError::UnexpectedValue)
            } else {
                match request {
                    BridgeCall::Read(query) => match call.record_cost(READ_GAS) {
                        Ok(()) => Step::Read(query),
                        Err(_) => Step::OutOfGas,
                    },
                    BridgeCall::Write(operation) => {
                        if weight_to_gas(operation.weight()) <= call.remaining_gas() {
                            Step::Dispatch { operation, origin: Origin::from_caller(call.caller()) }
                        } else {
                            call.exhaust();
                            Step::OutOfGas
                        }
                    },
                }
            }
        },
    }
}

/// The result of a call that is turned down for `error`.
pub open spec fn rejected(call: CallView, error: BridgeError) -> Outcome {
    Outcome::Revert { reason: Reason::Bridge(error), gas_used: call.gas_used }
}

/// The result of a call that is turned down for `error`.
pub fn reject(call: &CallContext, error: BridgeError) -> (r: PrecompileResult)
    ensures
        r@ == rejected(call@, error),
{
    PrecompileResult::Revert { reason: RevertReason::Bridge(error), gas_used: call.gas_used() }
}

/// The result of a call whose gas is out.
pub open spec fn halted() -> Outcome {
    Outcome::Fatal { error: FatalError::OutOfGas }
}

/// The result of a read that the ledger answered with `answer`: the amount
/// as one word, or a revert where the asset does not exist.
pub open spec fn settled_read(call: CallView, answer: Option<Balance>) -> Outcome {
    match answer {
        Some(amount) => Outcome::Success {
            output: amount.word().bytes(),
            gas_used: call.gas_used,
        },
        None => rejected(call, BridgeError::AssetNotFound),
    }
}

/// Turns the ledger's answer to a read into the result of the call.
pub fn settle_read(call: &CallContext, answer: Option<Balance>) -> (r: PrecompileResult)
    ensures
        r@ == settled_read(call@, answer),
{
    match answer {
        Some(amount) => PrecompileResult::Success {
            output: amount.to_word().to_bytes(),
            gas_used: call.gas_used(),
        },
        None => reject(call, BridgeError::AssetNotFound),
    }
}

/// The result of a call whose operation the ledger has dispatched, and the
/// call with the gas recorded: the gas that pays for the weight consumed;
/// success with the word of `true` where the operation ran, a revert with
/// the reason that stands for the ledger's error where it failed; a halt
/// where the gas of the call does not cover the weight.
pub open spec fn settled_dispatch(call: CallView, outcome: DispatchOutcome) -> (Outcome, CallView) {
    let gas = gas_of_weight(outcome.consumed_weight);
    if gas <= call.remaining() {
        let after = call.charged(gas);
        match outcome.error {
            None => (
                Outcome::Success {
                    output: (Word { hi: 0, lo: 1 }).bytes(),
                    gas_used: after.gas_used,
                },
                after,
            ),
            Some(error) => (rejected(after, error.told_as()), after),
        }
    } else {
        (halted(), call.exhausted())
    }
}

/// Turns the ledger's report of a dispatched operation into the result of
/// the call, and records the gas.
pub fn settle_dispatch(call: &mut CallContext, outcome: DispatchOutcome) -> (r: PrecompileResult)
    ensures
        (r@, final(call)@) == settled_dispatch(old(call)@, outcome),
{
    match call.record_cost(weight_to_gas(outcome.consumed_weight)) {
        Err(error) => PrecompileResult::Fatal { error },
        Ok(()) => match outcome.error {
            None => PrecompileResult::Success {
                output: Word::from_bool(true).to_bytes(),
                gas_used: call.gas_used(),
            },
            Some(error) => reject(call, error.reason()),
        },
    }
}

/// The result of `call` on `ledger`, the call with the gas recorded, and the
/// ledger after the call.
pub open spec fn bridged(call: CallView, ledger: LedgerView) -> (Outcome, CallView, LedgerView) {
    let (step, metered) = planned(call);
    match step {
        Step::Reject(error) => (rejected(metered, error), metered, ledger),
        Step::OutOfGas => (halted(), metered, ledger),
        Step::Read(query) => (settled_read(metered, ledger.answer(query)), metered, ledger),
        Step::Dispatch { operation, origin } => {
            let (after, outcome) = ledger.dispatched(operation, origin);
            let (result, charged) = settled_dispatch(metered, outcome);
            (result, charged, after)
        },
    }
}

/// Answers `call` on `ledger`.
pub fn execute(call: &mut CallContext, ledger: &mut Ledger) -> (r: PrecompileResult)
    requires
        old(ledger).wf(),
    ensures
        final(ledger).wf(),
        (r@, final(call)@, final(ledger)@) == bridged(old(call)@, old(ledger)@),
{
    match plan(call) {
        Step::Reject(error) => reject(call, error),
        Step::OutOfGas => PrecompileResult::Fatal { error: FatalError::OutOfGas },
        Step::Read(query) => {
            let answer = ledger.read(&query);
            settle_read(call, answer)
        },
        Step::Dispatch { operation, origin } => {
            let outcome = ledger.dispatch(&operation, &origin);
            settle_dispatch(call, outcome)
        },
    }
}

/// A call as it reaches the bridge from `caller`: not static, without value,
/// no gas used yet.
pub open spec fn fresh_call(target: Address, caller: Address, request: BridgeCall, gas_limit: u64) -> CallView {
    CallView {
        target,
        caller,
        input: encoded(request),
        value: None,
        gas_limit,
        gas_used: 0,
        is_static: false,
        depth: 0,
    }
}

/// The bridge never uses more gas than the call has and never gives gas
/// back; the gas that the result reports is the gas that the call has used;
/// and nothing of the call changes but the gas used.
pub proof fn lemma_bridged_within_gas(call: CallView, ledger: LedgerView)
    requires
        call.gas_used <= call.gas_limit,
    ensures
        call.gas_used <= bridged(call, ledger).1.gas_used <= call.gas_limit,
        bridged(call, ledger).0.gas(call.gas_limit) == bridged(call, ledger).1.gas_used,
        bridged(call, ledger).1 == (CallView { gas_used: bridged(call, ledger).1.gas_used, ..call }),
{
}

/// A call that does not succeed leaves the ledger as it was.
pub proof fn lemma_failure_changes_nothing(call: CallView, ledger: LedgerView)
    requires
        call.gas_used <= call.gas_limit,
        !(bridged(call, ledger).0 is Success),
    ensures
        bridged(call, ledger).2 == ledger,
{
}

/// A static call that selects an operation which changes the ledger is
/// reverted, whatever else it holds, and changes neither the ledger nor the
/// gas used. Where its input holds a call, the reason is the static call.
pub proof fn lemma_static_call_changes_nothing(call: CallView, ledger: LedgerView)
    requires
        call.is_static,
        call.input.len() >= 4,
        Selector::of_code(selector_code(call.input)) matches Some(selector) && selector.mutates(),
    ensures
        bridged(call, ledger).0 is Revert,
        bridged(call, ledger).1 == call,
        bridged(call, ledger).2 == ledger,
        decoded(call.input) is Ok ==> bridged(call, ledger).0 == rejected(
            call,
            BridgeError::StaticCall,
        ),
{
}

/// A call whose asset-id argument is above the largest asset id is
/// reverted for that, whatever its other arguments: the argument is not cut
/// down to an id. Neither ledger nor gas changes.
pub proof fn lemma_wide_asset_id_reverts(call: CallView, ledger: LedgerView)
    requires
        call.input.len() >= 4,
        Selector::of_code(selector_code(call.input)) matches Some(selector) && call.input.len()
            == 4 + 32 * selector.arity(),
        AssetId::of_word(word_at(call.input, 0)) is None,
    ensures
        bridged(call, ledger) == (rejected(call, BridgeError::AssetIdOutOfRange), call, ledger),
{
}

/// Whatever the call, the books of the ledger balance after it if they did
/// before.
pub proof fn lemma_bridged_keeps_sound(call: CallView, ledger: LedgerView)
    requires
        ledger.sound(),
    ensures
        bridged(call, ledger).2.sound(),
{
    match planned(call).0 {
        Step::Dispatch { operation, origin } => {
            ledger.lemma_dispatched_keeps_sound(operation, origin);
        },
        _ => {},
    }
}

/// A transfer of an amount that the sender holds, to another account,
/// succeeds; afterwards a query of the sender's balance tells the balance
/// less the amount, a query of the receiver's balance the balance plus the
/// amount, and the supply is what it was.
pub proof fn lemma_transfer_moves_amount(
    ledger: LedgerView,
    bridge: Address,
    asset: AssetId,
    sender: Address,
    receiver: Address,
    amount: u128,
    gas_limit: u64,
)
    requires
        ledger.sound(),
        ledger.has_asset(asset),
        sender != receiver,
        ledger.balance(asset, AccountId(sender)) >= amount,
        gas_limit >= gas_of_weight(TRANSFER_WEIGHT),
        gas_limit >= READ_GAS,
    ensures
        ({
            let transfer = fresh_call(
                bridge,
                sender,
                BridgeCall::Write(
                    Operation::Transfer {
                        asset,
                        to: AccountId(receiver),
                        amount: Balance(amount),
                    },
                ),
                gas_limit,
            );
            let (result, _, after) = bridged(transfer, ledger);
            let of_sender = fresh_call(
                bridge,
                receiver,
                BridgeCall::Read(Query::Balance { asset, who: AccountId(sender) }),
                gas_limit,
            );
            let of_receiver = fresh_call(
                bridge,
                sender,
                BridgeCall::Read(Query::Balance { asset, who: AccountId(receiver) }),
                gas_limit,
            );
            &&& result == Outcome::Success {
                output: (Word { hi: 0, lo: 1 }).bytes(),
                gas_used: gas_of_weight(TRANSFER_WEIGHT),
            }
            &&& bridged(of_sender, after).0 == Outcome::Success {
                output: Balance(
                    (ledger.balance(asset, AccountId(sender)) - amount) as u128,
                ).word().bytes(),
                gas_used: READ_GAS,
            }
            &&& bridged(of_receiver, after).0 == Outcome::Success {
                output: Balance(
                    (ledger.balance(asset, AccountId(receiver)) + amount) as u128,
                ).word().bytes(),
                gas_used: READ_GAS,
            }
            &&& after.supply(asset) == ledger.supply(asset)
            &&& after.assets == ledger.assets
            &&& after.sound()
        }),
{
    let operation = Operation::Transfer { asset, to: AccountId(receiver), amount: Balance(amount) };
    ledger.lemma_transfer_has_room(asset, AccountId(sender), AccountId(receiver));
    ledger.lemma_dispatched_keeps_sound(operation, Origin::of_caller(sender));
    lemma_decode_encode(BridgeCall::Write(operation));
    lemma_decode_encode(BridgeCall::Read(Query::Balance { asset, who: AccountId(sender) }));
    lemma_decode_encode(BridgeCall::Read(Query::Balance { asset, who: AccountId(receiver) }));
}

/// A transfer of more than the sender holds is reverted for the balance,
/// and leaves the ledger as it was.
pub proof fn lemma_overdrawn_transfer_reverts(
    ledger: LedgerView,
    bridge: Address,
    asset: AssetId,
    sender: Address,
    receiver: Address,
    amount: u128,
    gas_limit: u64,
)
    requires
        ledger.has_asset(asset),
        ledger.balance(asset, AccountId(sender)) < amount,
        gas_limit >= gas_of_weight(TRANSFER_WEIGHT),
    ensures
        ({
            let transfer = fresh_call(
                bridge,
                sender,
                BridgeCall::Write(
                    Operation::Transfer {
                        asset,
                        to: AccountId(receiver),
                        amount: Balance(amount),
                    },
                ),
                gas_limit,
            );
            let (result, _, after) = bridged(transfer, ledger);
            &&& result == Outcome::Revert {
                reason: Reason::Bridge(BridgeError::InsufficientBalance),
                gas_used: gas_of_weight(TRANSFER_WEIGHT),
            }
            &&& after == ledger
        }),
{
    let operation = Operation::Transfer { asset, to: AccountId(receiver), amount: Balance(amount) };
    lemma_decode_encode(BridgeCall::Write(operation));
}

/// A call about an asset that does not exist is reverted for that, whether
/// it reads or writes, and leaves the ledger as it was.
pub proof fn lemma_unknown_asset_reverts(
    ledger: LedgerView,
    bridge: Address,
    caller: Address,
    request: BridgeCall,
    gas_limit: u64,
)
    requires
        !ledger.has_asset(request.asset()),
        gas_limit >= gas_of_weight(TRANSFER_WEIGHT),
        gas_limit >= READ_GAS,
    ensures
        ({
            let (result, _, after) = bridged(fresh_call(bridge, caller, request, gas_limit), ledger);
            &&& result matches Outcome::Revert { reason, .. } && reason == Reason::Bridge(
                BridgeError::AssetNotFound,
            )
            &&& after == ledger
        }),
{
    lemma_decode_encode(request);
}

} // verus!
