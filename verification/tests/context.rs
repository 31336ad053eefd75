use precompiles::address::Address;
use precompiles::context::{CallContext, FatalError, MAX_DEPTH};
use precompiles::word::Word;

fn call(gas_limit: u64) -> CallContext {
    CallContext::new(
        Address { hi: 0, lo: 1337 },
        Address { hi: 5, lo: 6 },
        vec![1, 2, 3],
        Some(Word { hi: 0, lo: 9 }),
        gas_limit,
        true,
    )
}

#[test]
fn a_new_call_has_used_nothing() {
    let c = call(100);
    assert_eq!(c.target_address(), Address { hi: 0, lo: 1337 });
    assert_eq!(c.caller(), Address { hi: 5, lo: 6 });
    assert_eq!(c.input(), &[1, 2, 3]);
    assert_eq!(c.value(), Some(Word { hi: 0, lo: 9 }));
    assert!(c.carries_value());
    assert_eq!(c.gas_limit(), 100);
    assert_eq!(c.gas_used(), 0);
    assert_eq!(c.remaining_gas(), 100);
    assert!(c.is_static());
    assert_eq!(c.depth(), 0);
}

#[test]
fn a_value_of_zero_is_none() {
    let zero = CallContext::new(
        Address { hi: 0, lo: 1 },
        Address { hi: 0, lo: 2 },
        vec![],
        Some(Word::zero()),
        1,
        false,
    );
    assert!(!zero.carries_value());
    let none =
        CallContext::new(Address { hi: 0, lo: 1 }, Address { hi: 0, lo: 2 }, vec![], None, 1, false);
    assert!(!none.carries_value());
    assert!(!none.is_static());
}

#[test]
fn recorded_gas_adds_up() {
    let mut c = call(100);
    assert_eq!(c.record_cost(30), Ok(()));
    assert_eq!(c.gas_used(), 30);
    assert_eq!(c.record_cost(0), Ok(()));
    assert_eq!(c.gas_used(), 30);
    assert_eq!(c.record_cost(70), Ok(()));
    assert_eq!(c.gas_used(), 100);
    assert_eq!(c.remaining_gas(), 0);
    assert_eq!(c.record_cost(0), Ok(()));
    assert_eq!(c.record_cost(1), Err(FatalError::OutOfGas));
    assert_eq!(c.gas_used(), 100);
}

#[test]
fn gas_beyond_the_limit_uses_all() {
    let mut c = call(100);
    assert_eq!(c.record_cost(40), Ok(()));
    assert_eq!(c.record_cost(61), Err(FatalError::OutOfGas));
    assert_eq!(c.gas_used(), 100);
    let mut c = call(u64::MAX);
    assert_eq!(c.record_cost(u64::MAX - 1), Ok(()));
    assert_eq!(c.record_cost(2), Err(FatalError::OutOfGas));
    assert_eq!(c.gas_used(), u64::MAX);
    let mut c = call(0);
    assert_eq!(c.record_cost(0), Ok(()));
    assert_eq!(c.record_cost(u64::MAX), Err(FatalError::OutOfGas));
    assert_eq!(c.gas_used(), 0);
}

#[test]
fn exhaust_uses_all() {
    let mut c = call(100);
    assert_eq!(c.record_cost(40), Ok(()));
    c.exhaust();
    assert_eq!(c.gas_used(), 100);
    assert_eq!(c.remaining_gas(), 0);
    assert_eq!(c.gas_limit(), 100);
}

#[test]
fn a_nested_call_spends_from_what_is_left() {
    let mut outer = call(100);
    assert_eq!(outer.record_cost(40), Ok(()));
    assert!(outer.nested(Address { hi: 0, lo: 4 }, vec![], None, 61, false).is_none());
    let mut inner = outer.nested(Address { hi: 0, lo: 4 }, vec![7], None, 60, false).unwrap();
    assert_eq!(inner.target_address(), Address { hi: 0, lo: 4 });
    assert_eq!(inner.caller(), Address { hi: 0, lo: 1337 });
    assert_eq!(inner.input(), &[7]);
    assert_eq!(inner.value(), None);
    assert_eq!(inner.gas_limit(), 60);
    assert_eq!(inner.gas_used(), 0);
    assert_eq!(inner.depth(), 1);
    assert!(inner.is_static());
    assert_eq!(inner.record_cost(25), Ok(()));
    assert_eq!(outer.record_cost(inner.gas_used()), Ok(()));
    assert_eq!(outer.gas_used(), 65);
}

#[test]
fn a_nested_call_is_static_if_asked_or_inherited() {
    let free = CallContext::new(
        Address { hi: 0, lo: 1 },
        Address { hi: 0, lo: 2 },
        vec![],
        None,
        10,
        false,
    );
    assert!(!free.nested(Address { hi: 0, lo: 3 }, vec![], None, 1, false).unwrap().is_static());
    assert!(free.nested(Address { hi: 0, lo: 3 }, vec![], None, 1, true).unwrap().is_static());
}

#[test]
fn calls_nest_no_deeper_than_the_limit() {
    let mut frames = vec![call(5)];
    for _ in 0..MAX_DEPTH {
        let next = frames.last().unwrap().nested(Address { hi: 0, lo: 4 }, vec![], None, 5, false);
        frames.push(next.unwrap());
    }
    let deepest = frames.last().unwrap();
    assert_eq!(deepest.depth(), 1024);
    assert!(deepest.nested(Address { hi: 0, lo: 4 }, vec![], None, 0, false).is_none());
}
