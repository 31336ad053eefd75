use precompiles::address::Address;
use precompiles::capability::{conclude, cost, offer, run, CapabilityOutput};
use precompiles::context::{CallContext, FatalError, PrecompileResult, RevertReason};
use precompiles::registry::Capability;

fn hex(s: &str) -> Vec<u8> {
    let digits: Vec<u8> = s
        .bytes()
        .filter(|b| !b.is_ascii_whitespace())
        .map(|b| match b {
            b'0'..=b'9' => b - b'0',
            b'a'..=b'f' => b - b'a' + 10,
            _ => panic!("not a hex digit"),
        })
        .collect();
    assert!(digits.len() % 2 == 0);
    digits.chunks(2).map(|p| p[0] * 16 + p[1]).collect()
}

fn call(input: Vec<u8>, gas_limit: u64) -> CallContext {
    CallContext::new(
        Address { hi: 0, lo: 4 },
        Address { hi: 7, lo: 9 },
        input,
        None,
        gas_limit,
        false,
    )
}

const SIGNED: &str = "18c547e4f7b0f325ad1e56f57e26c745b09a3e503d86e00e5255ff7f715d3d1c\
     000000000000000000000000000000000000000000000000000000000000001c\
     73b1693892219d736caba55bdb67216e485557ea6b6af75f37096c9aa6a5a75f\
     eeb940b1d03b21e36b0e47e79769f095fe2ab855bd91e3a38756b7d75a9c4549";

#[test]
fn identity_hands_the_input_back() {
    let mut c = call(vec![1, 2, 3], 100);
    let r = run(Capability::Identity, &mut c);
    assert_eq!(r, PrecompileResult::Success { output: vec![1, 2, 3], gas_used: 18 });
    assert_eq!(c.gas_used(), 18);
    assert_eq!(c.remaining_gas(), 82);
}

#[test]
fn identity_of_nothing_costs_the_base() {
    let mut c = call(vec![], 15);
    let r = run(Capability::Identity, &mut c);
    assert_eq!(r, PrecompileResult::Success { output: vec![], gas_used: 15 });
}

#[test]
fn identity_counts_the_last_word_whole() {
    let mut c = call(vec![0u8; 33], 1000);
    let r = run(Capability::Identity, &mut c);
    assert_eq!(r, PrecompileResult::Success { output: vec![0u8; 33], gas_used: 21 });
    let mut c = call(vec![0u8; 32], 1000);
    let r = run(Capability::Identity, &mut c);
    assert_eq!(r, PrecompileResult::Success { output: vec![0u8; 32], gas_used: 18 });
}

#[test]
fn too_little_gas_halts_and_uses_all() {
    let mut c = call(vec![1, 2, 3], 17);
    let r = run(Capability::Identity, &mut c);
    assert_eq!(r, PrecompileResult::Fatal { error: FatalError::OutOfGas });
    assert_eq!(c.gas_used(), 17);
    assert_eq!(c.remaining_gas(), 0);
}

#[test]
fn sha256_of_abc() {
    let mut c = call(b"abc".to_vec(), 1000);
    let r = run(Capability::Sha256, &mut c);
    assert_eq!(
        r,
        PrecompileResult::Success {
            output: hex("ba7816bf8f01cfea414140de5dae2223b00361a396177a9cb410ff61f20015ad"),
            gas_used: 72,
        }
    );
}

#[test]
fn ripemd160_of_abc_is_padded() {
    let mut c = call(b"abc".to_vec(), 1000);
    let r = run(Capability::Ripemd160, &mut c);
    assert_eq!(
        r,
        PrecompileResult::Success {
            output: hex("0000000000000000000000008eb208f7e05d987a9b044a8e98c6b087f15a0bfc"),
            gas_used: 720,
        }
    );
}

#[test]
fn sha3_of_abc() {
    let mut c = call(b"abc".to_vec(), 1000);
    let r = run(Capability::Sha3Fips256, &mut c);
    assert_eq!(
        r,
        PrecompileResult::Success {
            output: hex("3a985da74fe225b2045c172d6bd390bd855f086e3e9d525b46bfe24511431532"),
            gas_used: 72,
        }
    );
}

#[test]
fn signer_is_recovered() {
    let mut c = call(hex(SIGNED), 5000);
    let r = run(Capability::EcRecover, &mut c);
    assert_eq!(
        r,
        PrecompileResult::Success {
            output: hex("000000000000000000000000a94f5374fce5edbc8e2a8697c15331677e6ebf0b"),
            gas_used: 3000,
        }
    );
}

#[test]
fn public_key_is_recovered() {
    let mut c = call(hex(SIGNED), 3000);
    let r = run(Capability::EcRecoverPublicKey, &mut c);
    assert_eq!(
        r,
        PrecompileResult::Success {
            output: hex(
                "3a514176466fa815ed481ffad09110a2d344f6c9b78c1d14afc351c3a51be33d\
                 8072e77939dc03ba44790779b7a1025baf3003f6732430e20cd9b76d953391b3"
            ),
            gas_used: 3000,
        }
    );
}

#[test]
fn corrupted_signature_reverts_each_time() {
    let mut input = hex(SIGNED);
    for b in input[64..96].iter_mut() {
        *b = 0;
    }
    let expected = PrecompileResult::Revert {
        reason: RevertReason::Capability("Public key recover failed".to_string()),
        gas_used: 3000,
    };
    let mut first = call(input.clone(), 4000);
    assert_eq!(run(Capability::EcRecover, &mut first), expected);
    let mut second = call(input, 4000);
    assert_eq!(run(Capability::EcRecover, &mut second), expected);
    assert_eq!(first.gas_used(), 3000);
}

#[test]
fn modexp_three_to_the_fifth_mod_seven() {
    let mut input = vec![0u8; 96];
    input[31] = 1;
    input[63] = 1;
    input[95] = 1;
    input.extend_from_slice(&[3, 5, 7]);
    let mut c = call(input, 1000);
    let r = run(Capability::Modexp, &mut c);
    assert_eq!(r, PrecompileResult::Success { output: vec![5], gas_used: 15 + 3 * 4 });
}

#[test]
fn modexp_turns_short_input_down() {
    let mut c = call(vec![0u8; 10], 1000);
    let r = run(Capability::Modexp, &mut c);
    assert_eq!(
        r,
        PrecompileResult::Revert {
            reason: RevertReason::Capability("input must contain at least 96 bytes".to_string()),
            gas_used: 18,
        }
    );
    assert_eq!(c.gas_used(), 18);
}

#[test]
fn cost_follows_the_schedule() {
    assert_eq!(cost(Capability::EcRecover, 128), Some(3000));
    assert_eq!(cost(Capability::Sha256, 0), Some(60));
    assert_eq!(cost(Capability::Sha256, 64), Some(84));
    assert_eq!(cost(Capability::Ripemd160, 1), Some(720));
    assert_eq!(cost(Capability::Identity, 65), Some(24));
    assert_eq!(cost(Capability::Modexp, 99), Some(27));
    assert_eq!(cost(Capability::Sha3Fips256, 32), Some(72));
    assert_eq!(cost(Capability::EcRecoverPublicKey, 0), Some(3000));
    assert_eq!(cost(Capability::Ripemd160, usize::MAX), None);
}

#[test]
fn offer_meters_against_the_gas_left() {
    let mut c = call(vec![9; 40], 30);
    assert_eq!(
        offer(Capability::Identity, &c),
        CapabilityOutput::Done { output: vec![9; 40], cost: 21 }
    );
    c.record_cost(10).unwrap();
    assert_eq!(offer(Capability::Identity, &c), CapabilityOutput::OutOfGas);
}

#[test]
fn conclude_records_what_the_work_cost() {
    let mut c = call(vec![1], 100);
    let r = conclude(
        Capability::Sha256,
        &mut c,
        CapabilityOutput::Done { output: vec![7, 7], cost: 40 },
    );
    assert_eq!(r, PrecompileResult::Success { output: vec![7, 7], gas_used: 40 });
    let r = conclude(
        Capability::Sha256,
        &mut c,
        CapabilityOutput::Done { output: vec![7, 7], cost: 61 },
    );
    assert_eq!(r, PrecompileResult::Fatal { error: FatalError::OutOfGas });
    assert_eq!(c.gas_used(), 100);
}

#[test]
fn conclude_charges_a_failure_by_the_schedule() {
    let mut c = call(vec![1], 100);
    let r = conclude(
        Capability::Sha256,
        &mut c,
        CapabilityOutput::Failed { reason: "no".to_string() },
    );
    assert_eq!(
        r,
        PrecompileResult::Revert { reason: RevertReason::Capability("no".to_string()), gas_used: 72 }
    );
    let r = conclude(
        Capability::Sha256,
        &mut c,
        CapabilityOutput::Failed { reason: "no".to_string() },
    );
    assert_eq!(r, PrecompileResult::Fatal { error: FatalError::OutOfGas });
    assert_eq!(c.gas_used(), 100);
}
