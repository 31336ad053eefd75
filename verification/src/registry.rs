//! The reserved addresses and the handlers bound to them.

use crate::address::{hash, Address};
use crate::bridge;
use crate::bridge::{bridged, lemma_bridged_within_gas};
use crate::capability::{
    lemma_ran_within_gas, output_shape, ran, run, turned_down, undersized,
};
use crate::context::{CallContext, CallView, Outcome, PrecompileResult};
use crate::ledger::{Ledger, LedgerView};
use crate::word::Word;
use vstd::prelude::*;

verus! {

/// A native capability that stands behind a reserved address and computes
/// on the call's input alone.
#[derive(Clone, Copy, Debug, PartialEq, Eq, Hash, Structural)]
pub enum Capability {
    /// Recovery of the signer's address from a signed message.
    EcRecover,
    /// The SHA-256 hash.
    Sha256,
    /// The RIPEMD-160 hash.
    Ripemd160,
    /// The input handed back.
    Identity,
    /// Modular exponentiation.
    Modexp,
    /// The SHA3-256 hash of FIPS 202.
    Sha3Fips256,
    /// Recovery of the signer's public key from a signed message.
    EcRecoverPublicKey,
}

/// What is bound to a reserved address.
#[derive(Clone, Copy, Debug, PartialEq, Eq, Hash, Structural)]
pub enum PrecompileKind {
    /// One of the capabilities that compute on the input alone.
    Capability(Capability),
    /// The bridge to the ledger's fungible assets.
    Fungibles,
}

impl PrecompileKind {
    /// The number of the address that the handler is bound to.
    pub open spec fn number(self) -> u64 {
        match self {
            PrecompileKind::Capability(Capability::EcRecover) => 1,
            PrecompileKind::Capability(Capability::Sha256) => 2,
            PrecompileKind::Capability(Capability::Ripemd160) => 3,
            PrecompileKind::Capability(Capability::Identity) => 4,
            PrecompileKind::Capability(Capability::Modexp) => 5,
            PrecompileKind::Capability(Capability::Sha3Fips256) => 1024,
            PrecompileKind::Capability(Capability::EcRecoverPublicKey) => 1025,
            PrecompileKind::Fungibles => 1337,
        }
    }

    /// The address that the handler is bound to: twelve zero bytes, then its
    /// number in eight bytes, most significant first.
    pub open spec fn bound_address(self) -> Address {
        Address { hi: 0, lo: self.number() as u128 }
    }

    /// The address that the handler is bound to.
    pub fn address(&self) -> (r: Address)
        ensures
            r == self.bound_address(),
    {
        match self {
            PrecompileKind::Capability(Capability::EcRecover) => hash(1),
            PrecompileKind::Capability(Capability::Sha256) => hash(2),
            PrecompileKind::Capability(Capability::Ripemd160) => hash(3),
            PrecompileKind::Capability(Capability::Identity) => hash(4),
            PrecompileKind::Capability(Capability::Modexp) => hash(5),
            PrecompileKind::Capability(Capability::Sha3Fips256) => hash(1024),
            PrecompileKind::Capability(Capability::EcRecoverPublicKey) => hash(1025),
            PrecompileKind::Fungibles => hash(1337),
        }
    }
}

/// The handler bound to `address`, if the address is reserved.
pub open spec fn kind_at(address: Address) -> Option<PrecompileKind> {
    if address.hi != 0 {
        None
    } else if address.lo == 1 {
        Some(PrecompileKind::Capability(Capability::EcRecover))
    } else if address.lo == 2 {
        Some(PrecompileKind::Capability(Capability::Sha256))
    } else if address.lo == 3 {
        Some(PrecompileKind::Capability(Capability::Ripemd160))
    } else if address.lo == 4 {
        Some(PrecompileKind::Capability(Capability::Identity))
    } else if address.lo == 5 {
        Some(PrecompileKind::Capability(Capability::Modexp))
    } else if address.lo == 1024 {
        Some(PrecompileKind::Capability(Capability::Sha3Fips256))
    } else if address.lo == 1025 {
        Some(PrecompileKind::Capability(Capability::EcRecoverPublicKey))
    } else if address.lo == 1337 {
        Some(PrecompileKind::Fungibles)
    } else {
        None
    }
}

/// The reserved addresses, in the order in which they are enumerated.
pub open spec fn reserved_addresses() -> Seq<Address> {
    seq![
        Address { hi: 0, lo: 1 },
        Address { hi: 0, lo: 2 },
        Address { hi: 0, lo: 3 },
        Address { hi: 0, lo: 4 },
        Address { hi: 0, lo: 5 },
        Address { hi: 0, lo: 1024 },
        Address { hi: 0, lo: 1025 },
        Address { hi: 0, lo: 1337 },
    ]
}

/// Whether `address` is one of the reserved addresses.
pub open spec fn reserved(address: Address) -> bool {
    reserved_addresses().contains(address)
}

/// The result of a lookup as contracts see it.
pub open spec fn seen(result: Option<PrecompileResult>) -> Option<Outcome> {
    match result {
        Some(r) => Some(r@),
        None => None,
    }
}

/// What becomes of `call` on `ledger`: nothing where the target is not
/// reserved; else the result of the handler bound to the target, the call
/// with the gas recorded, and the ledger after the call. Only the bridge
/// touches the ledger.
pub open spec fn executed(call: CallView, ledger: LedgerView) -> (
    Option<Outcome>,
    CallView,
    LedgerView,
) {
    match kind_at(call.target) {
        None => (None, call, ledger),
        Some(PrecompileKind::Capability(capability)) => (
            Some(ran(capability, call).0),
            ran(capability, call).1,
            ledger,
        ),
        Some(PrecompileKind::Fungibles) => (
            Some(bridged(call, ledger).0),
            bridged(call, ledger).1,
            bridged(call, ledger).2,
        ),
    }
}

/// The set of precompiles: the fixed binding of reserved addresses to
/// handlers. It holds no state.
#[derive(Clone, Copy, Debug)]
pub struct FrontierPrecompiles {}

impl FrontierPrecompiles {
    /// The set of precompiles. There is one, and it never changes.
    pub fn new() -> (r: Self) {
        FrontierPrecompiles {  }
    }

    /// The reserved addresses, in a fixed order.
    pub fn used_addresses() -> (r: [Address; 8])
        ensures
            r@ == reserved_addresses(),
    {
        let r = [
            hash(1),
            hash(2),
            hash(3),
            hash(4),
            hash(5),
            hash(1024),
            hash(1025),
            hash(1337),
        ];
        assert(r@ =~= reserved_addresses());
        r
    }

    /// Whether `address` is reserved for a precompile.
    pub fn is_precompile(&self, address: Address) -> (r: bool)
        ensures
            r == reserved(address),
            r == kind_at(address).is_some(),
    {
        let used = Self::used_addresses();
        let mut i: usize = 0;
        while i < 8
            invariant
                i <= 8,
                used@ == reserved_addresses(),
                forall|j: int| 0 <= j < i ==> used@[j] != address,
            decreases 8 - i,
        {
            if used[i] == address {
                proof {
                    lemma_reserved_has_kind(address);
                }
                return true;
            }
            i = i + 1;
        }
        proof {
            lemma_reserved_has_kind(address);
        }
        false
    }

    /// Answers `call` with the handler bound to its target; `None` where the
    /// target is not reserved, and then neither call nor ledger is touched.
    pub fn execute(&self, call: &mut CallContext, ledger: &mut Ledger) -> (r: Option<
        PrecompileResult,
    >)
        requires
            old(ledger).wf(),
        ensures
            final(ledger).wf(),
            r is Some <==> reserved(old(call)@.target),
            (seen(r), final(call)@, final(ledger)@) == executed(old(call)@, old(ledger)@),
            kind_at(old(call)@.target) matches Some(PrecompileKind::Capability(capability)) ==> {
                &&& seen(r) matches Some(Outcome::Success { output, .. }) ==> output_shape(
                    capability,
                    output,
                )
                &&& undersized(capability, old(call)@.input) ==> (seen(r), final(call)@) == (
                    Some(turned_down(capability, old(call)@).0),
                    turned_down(capability, old(call)@).1,
                )
            },
    {
        proof {
            lemma_reserved_has_kind(call@.target);
        }
        match self.kind_of(call.target_address()) {
            Some(PrecompileKind::Capability(capability)) => Some(
                run(capability, call),
            ),
            Some(PrecompileKind::Fungibles) => Some(bridge::execute(call, ledger)),
            None => None,
        }
    }

    /// The handler bound to `address`, or `None` where the address is not
    /// reserved.
    pub fn kind_of(&self, address: Address) -> (r: Option<PrecompileKind>)
        ensures
            r == kind_at(address),
    {
        if address == hash(1) {
            Some(PrecompileKind::Capability(Capability::EcRecover))
        } else if address == hash(2) {
            Some(PrecompileKind::Capability(Capability::Sha256))
        } else if address == hash(3) {
            Some(PrecompileKind::Capability(Capability::Ripemd160))
        } else if address == hash(4) {
            Some(PrecompileKind::Capability(Capability::Identity))
        } else if address == hash(5) {
            Some(PrecompileKind::Capability(Capability::Modexp))
        } else if address == hash(1024) {
            Some(PrecompileKind::Capability(Capability::Sha3Fips256))
        } else if address == hash(1025) {
            Some(PrecompileKind::Capability(Capability::EcRecoverPublicKey))
        } else if address == hash(1337) {
            Some(PrecompileKind::Fungibles)
        } else {
            None
        }
    }
}

/// An address is reserved exactly when a handler is bound to it.
pub proof fn lemma_reserved_has_kind(address: Address)
    ensures
        reserved(address) <==> kind_at(address).is_some(),
{
    let s = reserved_addresses();
    if kind_at(address).is_some() {
        let n = address.lo;
        let i: int = if n == 1 {
            0
        } else if n == 2 {
            1
        } else if n == 3 {
            2
        } else if n == 4 {
            3
        } else if n == 5 {
            4
        } else if n == 1024 {
            5
        } else if n == 1025 {
            6
        } else {
            7
        };
        assert(s[i] == address);
    }
    if reserved(address) {
        let i = choose|i: int| 0 <= i < s.len() && s[i] == address;
        assert(s[i] == address);
    }
}

/// The binding is injective: each handler is found at its own address, and
/// at no other.
pub proof fn lemma_binding_injective(kind: PrecompileKind, address: Address)
    ensures
        kind_at(kind.bound_address()) == Some(kind),
        kind_at(address) == Some(kind) ==> address == kind.bound_address(),
{
}

/// Whatever the target, a call uses no more gas than it has and is given
/// none back; a result tells the gas that the call has used; and nothing of
/// the call changes but the gas used.
pub proof fn lemma_executed_within_gas(call: CallView, ledger: LedgerView)
    requires
        call.gas_used <= call.gas_limit,
    ensures
        call.gas_used <= executed(call, ledger).1.gas_used <= call.gas_limit,
        executed(call, ledger).0 matches Some(outcome) ==> outcome.gas(call.gas_limit)
            == executed(call, ledger).1.gas_used,
        executed(call, ledger).1 == (CallView {
            gas_used: executed(call, ledger).1.gas_used,
            ..call
        }),
{
    lemma_bridged_within_gas(call, ledger);
    match kind_at(call.target) {
        Some(PrecompileKind::Capability(capability)) => {
            lemma_ran_within_gas(capability, call);
        },
        _ => {},
    }
}

/// Whatever the call, the books of the ledger balance after it if they did
/// before.
pub proof fn lemma_executed_keeps_sound(call: CallView, ledger: LedgerView)
    requires
        ledger.sound(),
    ensures
        executed(call, ledger).2.sound(),
{
    bridge::lemma_bridged_keeps_sound(call, ledger);
}

/// What becomes of a call depends on the call and the ledger alone: the
/// same call on the same ledger has the same result, uses the same gas and
/// leaves the same ledger.
pub proof fn lemma_executed_is_determined(
    call: CallView,
    ledger: LedgerView,
    other_call: CallView,
    other_ledger: LedgerView,
)
    requires
        call == other_call,
        ledger == other_ledger,
    ensures
        executed(call, ledger) == executed(other_call, other_ledger),
{
}

/// A call made from within a call spends from the outer call's gas: it can
/// use no more than it was given, which is no more than was left to the
/// outer call, so that what it used fits on the outer call's record. And it
/// is static where the outer call is.
pub proof fn lemma_nested_within_budget(
    outer: CallView,
    target: Address,
    input: Seq<u8>,
    value: Option<Word>,
    gas: u64,
    is_static: bool,
    ledger: LedgerView,
)
    requires
        outer.gas_used <= outer.gas_limit,
        outer.can_nest(gas),
    ensures
        ({
            let inner = outer.nesting(target, input, value, gas, is_static);
            let used = executed(inner, ledger).1.gas_used;
            &&& used <= gas <= outer.remaining()
            &&& outer.charged(used).gas_used == outer.gas_used + used
            &&& outer.charged(used).gas_used <= outer.gas_limit
            &&& outer.is_static ==> inner.is_static
            &&& inner.depth == outer.depth + 1
        }),
{
    let inner = outer.nesting(target, input, value, gas, is_static);
    lemma_executed_within_gas(inner, ledger);
}

/// No address is enumerated twice.
pub proof fn lemma_reserved_distinct(i: int, j: int)
    requires
        0 <= i < j < 8,
    ensures
        reserved_addresses()[i] != reserved_addresses()[j],
{
}

} // verus!
