//! The capabilities that compute on a call's input alone: the hashes, the
//! identity, the signature recoveries and modular exponentiation.
//!
//! The computations themselves are those of the `pallet-evm-precompile-*`
//! crates. This module meters them: it hands each the gas that is left to
//! the call, and turns what comes back into the result of the call.

use crate::context::{CallContext, CallView, FatalError, Outcome, PrecompileResult, Reason, RevertReason};
use crate::registry::Capability;
use crate::word::Word;
use evm::{Context, ExitError};
use fp_evm::Precompile;
use pallet_evm_precompile_modexp::Modexp;
use pallet_evm_precompile_sha3fips::Sha3FIPS256;
use pallet_evm_precompile_simple::{ECRecover, ECRecoverPublicKey, Identity, Ripemd160, Sha256};
use sp_core::{H160, U256};
use vstd::prelude::*;

verus! {

/// What a capability hands back.
#[derive(Clone, Debug, PartialEq, Eq)]
pub enum CapabilityOutput {
    /// The work was done: its output and what it cost.
    Done { output: Vec<u8>, cost: u64 },
    /// The gas on offer does not cover the cost; no work was done.
    OutOfGas,
    /// The capability could not work on the input; the words are its own.
    Failed { reason: String },
}

/// What a capability hands back, as contracts see it.
pub enum CapabilityOutcome {
    Done { output: Seq<u8>, cost: u64 },
    OutOfGas,
    Failed { reason: Seq<char> },
}

impl View for CapabilityOutput {
    type V = CapabilityOutcome;

    open spec fn view(&self) -> CapabilityOutcome {
        match self {
            CapabilityOutput::Done { output, cost } => CapabilityOutcome::Done {
                output: output@,
                cost: *cost,
            },
            CapabilityOutput::OutOfGas => CapabilityOutcome::OutOfGas,
            CapabilityOutput::Failed { reason } => CapabilityOutcome::Failed { reason: reason@ },
        }
    }
}

/// The number of thirty-two-byte words that an input of `len` bytes takes,
/// the last one counted whole.
pub open spec fn word_count(len: nat) -> nat {
    (if len + 31 > u64::MAX {
        u64::MAX as nat
    } else {
        len + 31
    }) / 32
}

/// The cost of work on `len` bytes at `base` for the call and `word` for
/// each word of input.
pub open spec fn linear_cost(base: nat, word: nat, len: nat) -> nat {
    base + word * word_count(len)
}

/// The cost of each capability for the call.
pub open spec fn base_cost(capability: Capability) -> nat {
    match capability {
        Capability::EcRecover => 3000,
        Capability::Sha256 => 60,
        Capability::Ripemd160 => 600,
        Capability::Identity => 15,
        Capability::Modexp => 15,
        Capability::Sha3Fips256 => 60,
        Capability::EcRecoverPublicKey => 3000,
    }
}

/// The cost of each capability for each word of input.
pub open spec fn word_cost(capability: Capability) -> nat {
    match capability {
        Capability::EcRecover => 0,
        Capability::Sha256 => 12,
        Capability::Ripemd160 => 120,
        Capability::Identity => 3,
        Capability::Modexp => 3,
        Capability::Sha3Fips256 => 12,
        Capability::EcRecoverPublicKey => 0,
    }
}

/// The cost of `capability` on an input of `len` bytes.
pub open spec fn cost_of(capability: Capability, len: nat) -> nat {
    linear_cost(base_cost(capability), word_cost(capability), len)
}

/// What metered work hands back: nothing is done where the cost passes the
/// gas on offer; else the work's own result, with the cost where it is an
/// output.
pub open spec fn metered(
    base: nat,
    word: nat,
    len: nat,
    target_gas: u64,
    work: Result<Seq<u8>, Seq<char>>,
) -> CapabilityOutcome {
    let cost = linear_cost(base, word, len);
    if cost > target_gas {
        CapabilityOutcome::OutOfGas
    } else {
        match work {
            Ok(output) => CapabilityOutcome::Done { output, cost: cost as u64 },
            Err(reason) => CapabilityOutcome::Failed { reason },
        }
    }
}

/// The SHA-256 digest of `input`.
pub uninterp spec fn sha256_digest(input: Seq<u8>) -> Seq<u8>;

/// The RIPEMD-160 digest of `input`, after twelve zero bytes.
pub uninterp spec fn ripemd160_padded(input: Seq<u8>) -> Seq<u8>;

/// The SHA3-256 digest of `input`.
pub uninterp spec fn sha3_256_digest(input: Seq<u8>) -> Seq<u8>;

/// The address of the signer of the message in `input`, after twelve zero
/// bytes; `None` where no key can be recovered.
pub uninterp spec fn recovered_address(input: Seq<u8>) -> Option<Seq<u8>>;

/// The public key of the signer of the message in `input`; `None` where no
/// key can be recovered.
pub uninterp spec fn recovered_key(input: Seq<u8>) -> Option<Seq<u8>>;

/// The modular power that `input` asks for, or the words in which the input
/// is turned down.
pub uninterp spec fn modular_power(input: Seq<u8>) -> Result<Seq<u8>, Seq<char>>;

/// The words in which modular exponentiation turns down an input that is too
/// short to hold the lengths of its three numbers.
pub open spec fn too_short() -> Seq<char> {
    "input must contain at least 96 bytes"@
}

/// Whether `input` is too short for `capability` to work on.
pub open spec fn undersized(capability: Capability, input: Seq<u8>) -> bool {
    capability == Capability::Modexp && input.len() < 96
}

/// The result of a recovery: the key or address, or the one failure there is.
pub open spec fn recovery(found: Option<Seq<u8>>) -> Result<Seq<u8>, Seq<char>> {
    match found {
        Some(output) => Ok(output),
        None => Err("Public key recover failed"@),
    }
}

/// The work of `capability` on `input`, apart from its cost.
pub open spec fn work_of(capability: Capability, input: Seq<u8>) -> Result<Seq<u8>, Seq<char>> {
    match capability {
        Capability::EcRecover => recovery(recovered_address(input)),
        Capability::Sha256 => Ok(sha256_digest(input)),
        Capability::Ripemd160 => Ok(ripemd160_padded(input)),
        Capability::Identity => Ok(input),
        Capability::Modexp => modular_power(input),
        Capability::Sha3Fips256 => Ok(sha3_256_digest(input)),
        Capability::EcRecoverPublicKey => recovery(recovered_key(input)),
    }
}

/// What `capability` hands back on `input` when `target_gas` is on offer.
pub open spec fn outcome_of(capability: Capability, input: Seq<u8>, target_gas: u64) -> CapabilityOutcome {
    metered(
        base_cost(capability),
        word_cost(capability),
        input.len(),
        target_gas,
        work_of(capability, input),
    )
}

/// `Context` of `evm`: who calls whom with which value. It is carried to the
/// capabilities and never read here.
#[verifier::external_type_specification]
#[verifier::external_body]
pub struct ExContext(evm::Context);

/// The `Context` of `evm` with the given target, caller and value, made with
/// `H160::from_slice` and `U256::from_big_endian` of `sp_core` from the bytes
/// of each. Nothing is claimed of it: the capabilities do not read it.
#[verifier::external_body]
fn frame(target: &[u8], caller: &[u8], value: &[u8]) -> (r: Context)
    requires
        target@.len() == 20,
        caller@.len() == 20,
        value@.len() == 32,
{
    Context {
        address: H160::from_slice(target),
        caller: H160::from_slice(caller),
        apparent_value: U256::from_big_endian(value),
    }
}

/// `ECRecover` of `pallet_evm_precompile_simple`, through `Precompile::execute`
/// of `fp_evm`: costs 3000; the output is thirty-two bytes, the first twelve
/// zero, and a function of the input; where no key can be recovered it fails
/// with the words given. Believed, not proved.
#[verifier::external_body]
fn ec_recover(input: &[u8], target_gas: u64, context: &Context) -> (r: CapabilityOutput)
    ensures
        r@ == metered(3000, 0, input@.len(), target_gas, recovery(recovered_address(input@))),
        r@ matches CapabilityOutcome::Done { output, .. } ==> output.len() == 32 && forall|i: int|
            0 <= i < 12 ==> output[i] == 0,
{
    match <ECRecover as Precompile>::execute(input, Some(target_gas), context) {
        Ok((_, output, cost)) => CapabilityOutput::Done { output, cost },
        Err(ExitError::OutOfGas) => CapabilityOutput::OutOfGas,
        Err(ExitError::Other(text)) => CapabilityOutput::Failed { reason: text.into_owned() },
        Err(other) => CapabilityOutput::Failed { reason: format!("{:?}", other) },
    }
}

/// `Sha256` of `pallet_evm_precompile_simple`, through `Precompile::execute`
/// of `fp_evm`: costs 60 and 12 for each word; the output is thirty-two
/// bytes and a function of the input. Believed, not proved.
#[verifier::external_body]
fn sha256(input: &[u8], target_gas: u64, context: &Context) -> (r: CapabilityOutput)
    ensures
        r@ == metered(60, 12, input@.len(), target_gas, Ok(sha256_digest(input@))),
        r@ matches CapabilityOutcome::Done { output, .. } ==> output.len() == 32,
{
    match <Sha256 as Precompile>::execute(input, Some(target_gas), context) {
        Ok((_, output, cost)) => CapabilityOutput::Done { output, cost },
        Err(ExitError::OutOfGas) => CapabilityOutput::OutOfGas,
        Err(ExitError::Other(text)) => CapabilityOutput::Failed { reason: text.into_owned() },
        Err(other) => CapabilityOutput::Failed { reason: format!("{:?}", other) },
    }
}

/// `Ripemd160` of `pallet_evm_precompile_simple`, through
/// `Precompile::execute` of `fp_evm`: costs 600 and 120 for each word; the
/// output is thirty-two bytes, the first twelve zero, and a function of the
/// input. Believed, not proved.
#[verifier::external_body]
fn ripemd160(input: &[u8], target_gas: u64, context: &Context) -> (r: CapabilityOutput)
    ensures
        r@ == metered(600, 120, input@.len(), target_gas, Ok(ripemd160_padded(input@))),
        r@ matches CapabilityOutcome::Done { output, .. } ==> output.len() == 32 && forall|i: int|
            0 <= i < 12 ==> output[i] == 0,
{
    match <Ripemd160 as Precompile>::execute(input, Some(target_gas), context) {
        Ok((_, output, cost)) => CapabilityOutput::Done { output, cost },
        Err(ExitError::OutOfGas) => CapabilityOutput::OutOfGas,
        Err(ExitError::Other(text)) => CapabilityOutput::Failed { reason: text.into_owned() },
        Err(other) => CapabilityOutput::Failed { reason: format!("{:?}", other) },
    }
}

/// `Identity` of `pallet_evm_precompile_simple`, through `Precompile::execute`
/// of `fp_evm`: costs 15 and 3 for each word; the output is the input.
/// Believed, not proved.
#[verifier::external_body]
fn identity(input: &[u8], target_gas: u64, context: &Context) -> (r: CapabilityOutput)
    ensures
        r@ == metered(15, 3, input@.len(), target_gas, Ok(input@)),
{
    match <Identity as Precompile>::execute(input, Some(target_gas), context) {
        Ok((_, output, cost)) => CapabilityOutput::Done { output, cost },
        Err(ExitError::OutOfGas) => CapabilityOutput::OutOfGas,
        Err(ExitError::Other(text)) => CapabilityOutput::Failed { reason: text.into_owned() },
        Err(other) => CapabilityOutput::Failed { reason: format!("{:?}", other) },
    }
}

/// `Modexp` of `pallet_evm_precompile_modexp`, through `Precompile::execute`
/// of `fp_evm`: costs 15 and 3 for each word; the output, or the words in
/// which the input is turned down, is a function of the input; an input of
/// fewer than ninety-six bytes is turned down with the words given.
/// Believed, not proved.
#[verifier::external_body]
fn modexp(input: &[u8], target_gas: u64, context: &Context) -> (r: CapabilityOutput)
    ensures
        r@ == metered(15, 3, input@.len(), target_gas, modular_power(input@)),
        input@.len() < 96 ==> r@ == metered(15, 3, input@.len(), target_gas, Err(too_short())),
{
    match <Modexp as Precompile>::execute(input, Some(target_gas), context) {
        Ok((_, output, cost)) => CapabilityOutput::Done { output, cost },
        Err(ExitError::OutOfGas) => CapabilityOutput::OutOfGas,
        Err(ExitError::Other(text)) => CapabilityOutput::Failed { reason: text.into_owned() },
        Err(other) => CapabilityOutput::Failed { reason: format!("{:?}", other) },
    }
}

/// `Sha3FIPS256` of `pallet_evm_precompile_sha3fips`, through
/// `Precompile::execute` of `fp_evm`: costs 60 and 12 for each word; the
/// output is thirty-two bytes and a function of the input. Believed, not
/// proved.
#[verifier::external_body]
fn sha3_fips_256(input: &[u8], target_gas: u64, context: &Context) -> (r: CapabilityOutput)
    ensures
        r@ == metered(60, 12, input@.len(), target_gas, Ok(sha3_256_digest(input@))),
        r@ matches CapabilityOutcome::Done { output, .. } ==> output.len() == 32,
{
    match <Sha3FIPS256 as Precompile>::execute(input, Some(target_gas), context) {
        Ok((_, output, cost)) => CapabilityOutput::Done { output, cost },
        Err(ExitError::OutOfGas) => CapabilityOutput::OutOfGas,
        Err(ExitError::Other(text)) => CapabilityOutput::Failed { reason: text.into_owned() },
        Err(other) => CapabilityOutput::Failed { reason: format!("{:?}", other) },
    }
}

/// `ECRecoverPublicKey` of `pallet_evm_precompile_simple`, through
/// `Precompile::execute` of `fp_evm`: costs 3000; the output is the
/// sixty-four bytes of a public key and a function of the input; where no
/// key can be recovered it fails with the words given. Believed, not proved.
#[verifier::external_body]
fn ec_recover_public_key(input: &[u8], target_gas: u64, context: &Context) -> (r:
    CapabilityOutput)
    ensures
        r@ == metered(3000, 0, input@.len(), target_gas, recovery(recovered_key(input@))),
        r@ matches CapabilityOutcome::Done { output, .. } ==> output.len() == 64,
{
    match <ECRecoverPublicKey as Precompile>::execute(input, Some(target_gas), context) {
        Ok((_, output, cost)) => CapabilityOutput::Done { output, cost },
        Err(ExitError::OutOfGas) => CapabilityOutput::OutOfGas,
        Err(ExitError::Other(text)) => CapabilityOutput::Failed { reason: text.into_owned() },
        Err(other) => CapabilityOutput::Failed { reason: format!("{:?}", other) },
    }
}

/// What is known of the length of an output, whatever the input.
pub open spec fn output_shape(capability: Capability, output: Seq<u8>) -> bool {
    match capability {
        Capability::EcRecover | Capability::Ripemd160 => output.len() == 32 && forall|i: int|
            0 <= i < 12 ==> output[i] == 0,
        Capability::Sha256 | Capability::Sha3Fips256 => output.len() == 32,
        Capability::EcRecoverPublicKey => output.len() == 64,
        Capability::Identity | Capability::Modexp => true,
    }
}

/// The cost of `capability` on an input of `len` bytes, where it fits the
/// gas counter.
pub fn cost(capability: Capability, len: usize) -> (r: Option<u64>)
    ensures
        r == (if cost_of(capability, len as nat) <= u64::MAX {
            Some(cost_of(capability, len as nat) as u64)
        } else {
            None
        }),
{
    let (base, word): (u64, u64) = match capability {
        Capability::EcRecover => (3000, 0),
        Capability::Sha256 => (60, 12),
        Capability::Ripemd160 => (600, 120),
        Capability::Identity => (15, 3),
        Capability::Modexp => (15, 3),
        Capability::Sha3Fips256 => (60, 12),
        Capability::EcRecoverPublicKey => (3000, 0),
    };
    let len64: u64 = len as u64;
    let words: u64 = if len64 > u64::MAX - 31 {
        u64::MAX / 32
    } else {
        (len64 + 31) / 32
    };
    assert(words == word_count(len as nat));
    if word != 0 && words > (u64::MAX - base) / word {
        proof {
            assert(word * words > u64::MAX - base) by (nonlinear_arith)
                requires
                    words >= (u64::MAX - base) / (word as int) + 1,
                    word > 0,
            ;
        }
        None
    } else {
        assert(word * words <= u64::MAX - base) by (nonlinear_arith)
            requires
                word == 0 || words <= (u64::MAX - base) / (word as int),
                word >= 0,
                words >= 0,
                base <= u64::MAX,
        ;
        Some(base + word * words)
    }
}

/// The result of a call after `capability` handed back `output`, and the
/// call with the gas that was used: the output with its cost recorded; a halt
/// where the gas is out; a revert, at the cost of the work, where the
/// capability failed.
pub open spec fn concluded(capability: Capability, call: CallView, output: CapabilityOutcome) -> (
    Outcome,
    CallView,
) {
    match output {
        CapabilityOutcome::Done { output, cost } => if cost <= call.remaining() {
            (
                Outcome::Success { output, gas_used: call.charged(cost).gas_used },
                call.charged(cost),
            )
        } else {
            (Outcome::Fatal { error: FatalError::OutOfGas }, call.exhausted())
        },
        CapabilityOutcome::OutOfGas => (
            Outcome::Fatal { error: FatalError::OutOfGas },
            call.exhausted(),
        ),
        CapabilityOutcome::Failed { reason } => if cost_of(capability, call.input.len())
            <= call.remaining() {
            let after = call.charged(cost_of(capability, call.input.len()) as u64);
            (
                Outcome::Revert { reason: Reason::Capability(reason), gas_used: after.gas_used },
                after,
            )
        } else {
            (Outcome::Fatal { error: FatalError::OutOfGas }, call.exhausted())
        },
    }
}

/// Turns what `capability` handed back into the result of the call, and
/// records the gas.
pub fn conclude(capability: Capability, call: &mut CallContext, output: CapabilityOutput) -> (r:
    PrecompileResult)
    ensures
        (r@, final(call)@) == concluded(capability, old(call)@, output@),
{
    match output {
        CapabilityOutput::Done { output, cost } => {
            match call.record_cost(cost) {
                Ok(()) => PrecompileResult::Success { output, gas_used: call.gas_used() },
                Err(error) => PrecompileResult::Fatal { error },
            }
        },
        CapabilityOutput::OutOfGas => {
            call.exhaust();
            PrecompileResult::Fatal { error: FatalError::OutOfGas }
        },
        CapabilityOutput::Failed { reason } => {
            let len = call.input().len();
            match cost(capability, len) {
                Some(amount) => match call.record_cost(amount) {
                    Ok(()) => PrecompileResult::Revert {
                        reason: RevertReason::Capability(reason),
                        gas_used: call.gas_used(),
                    },
                    Err(error) => PrecompileResult::Fatal { error },
                },
                None => {
                    call.exhaust();
                    PrecompileResult::Fatal { error: FatalError::OutOfGas }
                },
            }
        },
    }
}

/// The result of a call that `capability` answers, and the call with the gas
/// that was used.
pub open spec fn ran(capability: Capability, call: CallView) -> (Outcome, CallView) {
    concluded(
        capability,
        call,
        outcome_of(capability, call.input, call.remaining() as u64),
    )
}

/// The result of a call whose input is too short for `capability`, and the
/// call with the gas that was used: a revert in the capability's words at
/// the cost of the work, or a halt where the gas does not cover the cost.
pub open spec fn turned_down(capability: Capability, call: CallView) -> (Outcome, CallView) {
    concluded(
        capability,
        call,
        metered(
            base_cost(capability),
            word_cost(capability),
            call.input.len(),
            call.remaining() as u64,
            Err(too_short()),
        ),
    )
}

/// Asks `capability` for its work on the call's input, with the gas that is
/// left to the call on offer.
pub fn offer(capability: Capability, call: &CallContext) -> (r: CapabilityOutput)
    ensures
        r@ == outcome_of(capability, call@.input, call@.remaining() as u64),
        r@ matches CapabilityOutcome::Done { output, .. } ==> output_shape(capability, output),
        undersized(capability, call@.input) ==> r@ == metered(
            base_cost(capability),
            word_cost(capability),
            call@.input.len(),
            call@.remaining() as u64,
            Err(too_short()),
        ),
{
    let target = call.target_address().to_bytes();
    let caller = call.caller().to_bytes();
    let value = match call.value() {
        Some(v) => v.to_bytes(),
        None => Word::zero().to_bytes(),
    };
    let context = frame(target.as_slice(), caller.as_slice(), value.as_slice());
    let gas = call.remaining_gas();
    let input = call.input();
    match capability {
        Capability::EcRecover => ec_recover(input, gas, &context),
        Capability::Sha256 => sha256(input, gas, &context),
        Capability::Ripemd160 => ripemd160(input, gas, &context),
        Capability::Identity => identity(input, gas, &context),
        Capability::Modexp => modexp(input, gas, &context),
        Capability::Sha3Fips256 => sha3_fips_256(input, gas, &context),
        Capability::EcRecoverPublicKey => ec_recover_public_key(input, gas, &context),
    }
}

/// Answers the call with `capability`: the work is metered against the gas
/// that is left, and the gas that it costs is recorded.
pub fn run(capability: Capability, call: &mut CallContext) -> (r: PrecompileResult)
    ensures
        (r@, final(call)@) == ran(capability, old(call)@),
        r@ matches Outcome::Success { output, .. } ==> output_shape(capability, output),
        undersized(capability, old(call)@.input) ==> (r@, final(call)@) == turned_down(
            capability,
            old(call)@,
        ),
{
    let output = offer(capability, call);
    conclude(capability, call, output)
}

/// A capability never uses more gas than the call has, never gives gas
/// back, and touches nothing of the call but the gas used.
pub proof fn lemma_ran_within_gas(capability: Capability, call: CallView)
    requires
        call.gas_used <= call.gas_limit,
    ensures
        call.gas_used <= ran(capability, call).1.gas_used <= call.gas_limit,
        ran(capability, call).1 == (CallView { gas_used: ran(capability, call).1.gas_used, ..call }),
        ran(capability, call).0.gas(call.gas_limit) == ran(capability, call).1.gas_used,
{
}

} // verus!
