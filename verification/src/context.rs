//! What a call brings to a precompile, and what the precompile hands back.

use crate::address::Address;
use crate::word::Word;
use vstd::prelude::*;

verus! {

/// The reasons for which the asset bridge turns a call down. The vocabulary
/// is closed: no error of the ledger reaches a caller but through one of
/// these.
#[derive(Clone, Copy, Debug, PartialEq, Eq, Hash, Structural)]
pub enum BridgeError {
    /// The input is shorter than a selector, or its length does not fit the
    /// selector's arguments.
    MalformedInput,
    /// The first four bytes name no operation.
    UnknownSelector,
    /// The asset-id argument does not fit an asset id.
    AssetIdOutOfRange,
    /// An account argument does not fit an address.
    AddressOutOfRange,
    /// An amount argument does not fit a balance.
    AmountOutOfRange,
    /// A state-changing operation was asked for in a static call.
    StaticCall,
    /// Value came with a call that takes none.
    UnexpectedValue,
    /// The ledger has no asset with the given id.
    AssetNotFound,
    /// The balance to draw on holds less than the amount.
    InsufficientBalance,
    /// A balance or the supply would pass the largest amount.
    Overflow,
    /// The caller may not perform the operation.
    NoPermission,
    /// The ledger failed in a way that this vocabulary does not name.
    BridgeError,
}

impl BridgeError {
    /// The words in which the reason is told to the caller.
    pub open spec fn text_spec(self) -> Seq<char> {
        match self {
            BridgeError::MalformedInput => "malformed input"@,
            BridgeError::UnknownSelector => "unknown selector"@,
            BridgeError::AssetIdOutOfRange => "asset id out of range"@,
            BridgeError::AddressOutOfRange => "address out of range"@,
            BridgeError::AmountOutOfRange => "amount out of range"@,
            BridgeError::StaticCall => "state change in static call"@,
            BridgeError::UnexpectedValue => "value not accepted"@,
            BridgeError::AssetNotFound => "asset not found"@,
            BridgeError::InsufficientBalance => "insufficient balance"@,
            BridgeError::Overflow => "balance overflow"@,
            BridgeError::NoPermission => "no permission"@,
            BridgeError::BridgeError => "bridge error"@,
        }
    }

    /// The words in which the reason is told to the caller.
    pub fn text(&self) -> (r: String)
        ensures
            r@ == self.text_spec(),
    {
        match self {
            BridgeError::MalformedInput => "malformed input".to_string(),
            BridgeError::UnknownSelector => "unknown selector".to_string(),
            BridgeError::AssetIdOutOfRange => "asset id out of range".to_string(),
            BridgeError::AddressOutOfRange => "address out of range".to_string(),
            BridgeError::AmountOutOfRange => "amount out of range".to_string(),
            BridgeError::StaticCall => "state change in static call".to_string(),
            BridgeError::UnexpectedValue => "value not accepted".to_string(),
            BridgeError::AssetNotFound => "asset not found".to_string(),
            BridgeError::InsufficientBalance => "insufficient balance".to_string(),
            BridgeError::Overflow => "balance overflow".to_string(),
            BridgeError::NoPermission => "no permission".to_string(),
            BridgeError::BridgeError => "bridge error".to_string(),
        }
    }
}

/// Why a call was reverted.
#[derive(Clone, Debug, PartialEq, Eq)]
pub enum RevertReason {
    /// The asset bridge turned the call down.
    Bridge(BridgeError),
    /// A capability could not work on its input; the words are its own.
    Capability(String),
}

/// A revert reason as contracts see it.
pub enum Reason {
    Bridge(BridgeError),
    Capability(Seq<char>),
}

impl View for RevertReason {
    type V = Reason;

    open spec fn view(&self) -> Reason {
        match self {
            RevertReason::Bridge(e) => Reason::Bridge(*e),
            RevertReason::Capability(s) => Reason::Capability(s@),
        }
    }
}

impl RevertReason {
    /// The words in which the reason is told to the caller.
    pub fn text(&self) -> (r: String)
        ensures
            r@ == (match self@ {
                Reason::Bridge(e) => e.text_spec(),
                Reason::Capability(s) => s,
            }),
    {
        match self {
            RevertReason::Bridge(e) => e.text(),
            RevertReason::Capability(s) => s.clone(),
        }
    }
}

/// The one failure that halts a call: the gas ran out.
#[derive(Clone, Copy, Debug, PartialEq, Eq, Hash, Structural)]
pub enum FatalError {
    OutOfGas,
}

/// How a precompile call ended.
#[derive(Clone, Debug, PartialEq, Eq)]
pub enum PrecompileResult {
    /// The call did its work: its output, and the gas that the call has used.
    Success { output: Vec<u8>, gas_used: u64 },
    /// The call was turned down and changed nothing: the reason, and the gas
    /// that the call has used.
    Revert { reason: RevertReason, gas_used: u64 },
    /// The call was halted. It has used all its gas and has no output.
    Fatal { error: FatalError },
}

/// A result as contracts see it.
pub enum Outcome {
    Success { output: Seq<u8>, gas_used: u64 },
    Revert { reason: Reason, gas_used: u64 },
    Fatal { error: FatalError },
}

impl View for PrecompileResult {
    type V = Outcome;

    open spec fn view(&self) -> Outcome {
        match self {
            PrecompileResult::Success { output, gas_used } => Outcome::Success {
                output: output@,
                gas_used: *gas_used,
            },
            PrecompileResult::Revert { reason, gas_used } => Outcome::Revert {
                reason: reason@,
                gas_used: *gas_used,
            },
            PrecompileResult::Fatal { error } => Outcome::Fatal { error: *error },
        }
    }
}

impl Outcome {
    /// The gas that a call with this outcome and the limit `gas_limit` has
    /// used.
    pub open spec fn gas(self, gas_limit: u64) -> u64 {
        match self {
            Outcome::Success { gas_used, .. } => gas_used,
            Outcome::Revert { gas_used, .. } => gas_used,
            Outcome::Fatal { .. } => gas_limit,
        }
    }
}

/// A call as contracts see it.
pub struct CallView {
    /// The address that the call aims at.
    pub target: Address,
    /// The address that makes the call.
    pub caller: Address,
    /// The bytes handed to the callee.
    pub input: Seq<u8>,
    /// The value that comes with the call, if any.
    pub value: Option<Word>,
    /// The most gas that the call may use.
    pub gas_limit: u64,
    /// The gas that the call has used so far.
    pub gas_used: u64,
    /// Whether the call may change no state.
    pub is_static: bool,
    /// The number of calls that stand between this call and the outermost.
    pub depth: u32,
}

/// The deepest that calls may nest.
pub const MAX_DEPTH: u32 = 1024;

impl CallView {
    /// The gas that is left to the call.
    pub open spec fn remaining(self) -> int {
        self.gas_limit - self.gas_used
    }

    /// Whether value comes with the call. A value of zero is none.
    pub open spec fn carries_value(self) -> bool {
        self.value matches Some(v) && v != (Word { hi: 0, lo: 0 })
    }

    /// The call after `amount` of gas was recorded: used up where the gas
    /// that is left does not cover the amount.
    pub open spec fn charged(self, amount: u64) -> CallView {
        if amount <= self.remaining() {
            CallView { gas_used: (self.gas_used + amount) as u64, ..self }
        } else {
            self.exhausted()
        }
    }

    /// The call with all its gas used.
    pub open spec fn exhausted(self) -> CallView {
        CallView { gas_used: self.gas_limit, ..self }
    }

    /// Whether the call can make a call of its own with `gas` to spend: the
    /// gas must be within what is left to this call, and this call must not
    /// stand at the greatest depth.
    pub open spec fn can_nest(self, gas: u64) -> bool {
        gas <= self.remaining() && self.depth < MAX_DEPTH
    }

    /// The call that this call makes to `target`: this call's target is the
    /// caller, the gas to spend is the limit, none of it is used, and the
    /// call is static if this call is or the new call is asked to be.
    pub open spec fn nesting(
        self,
        target: Address,
        input: Seq<u8>,
        value: Option<Word>,
        gas: u64,
        is_static: bool,
    ) -> CallView {
        CallView {
            target,
            caller: self.target,
            input,
            value,
            gas_limit: gas,
            gas_used: 0,
            is_static: self.is_static || is_static,
            depth: (self.depth + 1) as u32,
        }
    }
}

/// One call that aims at a precompile: who calls whom with which input,
/// value and gas, and how much of the gas is used. The gas used never
/// decreases and never passes the limit.
pub struct CallContext {
    target: Address,
    caller: Address,
    input: Vec<u8>,
    value: Option<Word>,
    gas_limit: u64,
    gas_used: u64,
    is_static: bool,
    depth: u32,
}

impl View for CallContext {
    type V = CallView;

    closed spec fn view(&self) -> CallView {
        CallView {
            target: self.target,
            caller: self.caller,
            input: self.input@,
            value: self.value,
            gas_limit: self.gas_limit,
            gas_used: self.gas_used,
            is_static: self.is_static,
            depth: self.depth,
        }
    }
}

impl CallContext {
    #[verifier::type_invariant]
    spec fn within_limit(self) -> bool {
        self.gas_used <= self.gas_limit && self.depth <= MAX_DEPTH
    }

    /// An outermost call that has used no gas yet.
    pub fn new(
        target: Address,
        caller: Address,
        input: Vec<u8>,
        value: Option<Word>,
        gas_limit: u64,
        is_static: bool,
    ) -> (r: CallContext)
        ensures
            r@ == (CallView {
                target,
                caller,
                input: input@,
                value,
                gas_limit,
                gas_used: 0,
                is_static,
                depth: 0,
            }),
    {
        CallContext { target, caller, input, value, gas_limit, gas_used: 0, is_static, depth: 0 }
    }

    /// The call that this call makes to `target` with `gas` to spend; `None`
    /// where the gas is more than is left to this call, or this call stands
    /// at the greatest depth. What the new call uses is recorded on this
    /// call with `record_cost` when the new call has ended.
    pub fn nested(
        &self,
        target: Address,
        input: Vec<u8>,
        value: Option<Word>,
        gas: u64,
        is_static: bool,
    ) -> (r: Option<CallContext>)
        ensures
            r is Some <==> self@.can_nest(gas),
            r matches Some(inner) ==> inner@ == self@.nesting(target, input@, value, gas, is_static),
    {
        proof {
            use_type_invariant(self);
        }
        if gas <= self.gas_limit - self.gas_used && self.depth < MAX_DEPTH {
            Some(
                CallContext {
                    target,
                    caller: self.target,
                    input,
                    value,
                    gas_limit: gas,
                    gas_used: 0,
                    is_static: self.is_static || is_static,
                    depth: self.depth + 1,
                },
            )
        } else {
            None
        }
    }

    /// The number of calls that stand between this call and the outermost.
    pub fn depth(&self) -> (r: u32)
        ensures
            r == self@.depth,
            r <= MAX_DEPTH,
    {
        proof {
            use_type_invariant(self);
        }
        self.depth
    }

    /// The address that the call aims at.
    pub fn target_address(&self) -> (r: Address)
        ensures
            r == self@.target,
    {
        self.target
    }

    /// The address that makes the call.
    pub fn caller(&self) -> (r: Address)
        ensures
            r == self@.caller,
    {
        self.caller
    }

    /// The bytes handed to the callee.
    pub fn input(&self) -> (r: &[u8])
        ensures
            r@ == self@.input,
    {
        self.input.as_slice()
    }

    /// The value that comes with the call, if any.
    pub fn value(&self) -> (r: Option<Word>)
        ensures
            r == self@.value,
    {
        self.value
    }

    /// Whether value comes with the call. A value of zero is none.
    pub fn carries_value(&self) -> (r: bool)
        ensures
            r == self@.carries_value(),
    {
        match self.value {
            Some(v) => !v.is_zero(),
            None => false,
        }
    }

    /// The most gas that the call may use.
    pub fn gas_limit(&self) -> (r: u64)
        ensures
            r == self@.gas_limit,
    {
        self.gas_limit
    }

    /// The gas that the call has used so far. It is within the limit.
    pub fn gas_used(&self) -> (r: u64)
        ensures
            r == self@.gas_used,
            r <= self@.gas_limit,
    {
        proof {
            use_type_invariant(self);
        }
        self.gas_used
    }

    /// The gas that is left to the call.
    pub fn remaining_gas(&self) -> (r: u64)
        ensures
            r == self@.remaining(),
    {
        proof {
            use_type_invariant(self);
        }
        self.gas_limit - self.gas_used
    }

    /// Whether the call may change no state.
    pub fn is_static(&self) -> (r: bool)
        ensures
            r == self@.is_static,
    {
        self.is_static
    }

    /// Records `amount` of gas as used. Where the gas that is left does not
    /// cover the amount, the call is out of gas: all its gas counts as used.
    pub fn record_cost(&mut self, amount: u64) -> (r: Result<(), FatalError>)
        ensures
            r is Ok <==> amount <= old(self)@.remaining(),
            r is Err ==> r == Err::<(), FatalError>(FatalError::OutOfGas),
            final(self)@ == old(self)@.charged(amount),
            old(self)@.gas_used <= final(self)@.gas_used <= final(self)@.gas_limit,
    {
        proof {
            use_type_invariant(&*self);
        }
        if amount <= self.gas_limit - self.gas_used {
            self.gas_used = self.gas_used + amount;
            Ok(())
        } else {
            self.gas_used = self.gas_limit;
            Err(FatalError::OutOfGas)
        }
    }

    /// Counts all the gas of the call as used.
    pub fn exhaust(&mut self)
        ensures
            final(self)@ == old(self)@.exhausted(),
            old(self)@.gas_used <= final(self)@.gas_used,
    {
        proof {
            use_type_invariant(&*self);
        }
        self.gas_used = self.gas_limit;
    }
}

} // verus!
