use regmock::matchers::{LogMatcher, LogSequenceMatcher};
use regmock::pac::common::RegisterValue;
use regmock::pac::gpio;
use regmock::pac::gpio::we::{Gpio0, Gpio4, Gpio8};
use regmock::pac::gpio::We;
use regmock::utils::{
    Passthrough, ReadFunction, RegisterAccess, RegisterAccessType, RegisterMap, Regmock,
    RegmockLog,
};
use regmock::{init_regmock, logs, silent, with_mock, MockSlot};

/// A slot with a default mock installed.
fn init_mock() -> MockSlot {
    let mut slot: MockSlot = MockSlot::new();
    init_regmock(&mut slot, Regmock::default());
    slot
}

/// Holds the accesses against the matcher, and panics with the reason where
/// it does not accept them.
fn given(log: Vec<RegisterAccess>, matcher: impl LogMatcher) {
    match matcher.match_log(&log, None) {
        Ok(_) => {}
        Err(me) => {
            panic!("\nFailed to match {} because:\n'{}'", me.name, me.reason);
        }
    }
}

/// Asserts that the log holds exactly the expected groups.
fn assert_groups(logs: &RegmockLog, expected: Vec<(RegisterAccess, usize)>) {
    assert_eq!(logs.log.len(), expected.len());
    for (found, wanted) in logs.log.iter().zip(expected.iter()) {
        assert!(found.0.identical(&wanted.0), "{:?} is not {:?}", found.0, wanted.0);
        assert!(wanted.0.matches(&found.0));
        assert_eq!(found.1, wanted.1);
    }
}

#[test]
fn read_traced_correctly() {
    let mut slot = init_mock();

    let read = gpio().we().read(with_mock(&mut slot).unwrap());
    assert_eq!(read.get_raw(), 0);

    let logs = logs(&slot);
    assert_eq!(logs.len_full(), 1);

    let expected_access =
        RegisterAccess::new(RegisterAccessType::READ, gpio().we().addr(), 4, 0, 0);
    assert_groups(&logs, vec![(expected_access.clone(), 1)]);
    given(logs.iter().collect(), LogSequenceMatcher::new(vec![expected_access]));
}

#[test]
fn init_traced_correctly() {
    let mut slot = init_mock();

    gpio().we().init(with_mock(&mut slot).unwrap(), |r| r.gpio8().set(Gpio8::output()));
    let read = gpio().we().read(with_mock(&mut slot).unwrap());
    assert_eq!(read.get_raw(), 0x100);

    let w = RegisterAccess::new(RegisterAccessType::WRITE, gpio().we().addr(), 4, 0, 0x100);
    let r = RegisterAccess::new(RegisterAccessType::READ, gpio().we().addr(), 4, 0x100, 0x100);
    let logs = logs(&slot);

    assert_groups(&logs, vec![(w.clone(), 1), (r.clone(), 1)]);

    given(logs.iter_full().collect(), LogSequenceMatcher::new(vec![w, r]));
    let walked = logs.iter().collect();
    assert_eq!(walked.len(), 2);
    assert!(w.identical(&walked[0]));
    assert!(r.identical(&walked[1]));
}

#[test]
fn write_traced_correctly() {
    let mut slot = init_mock();

    {
        let mock = with_mock(&mut slot).unwrap();
        let current = gpio().we().read(mock);
        let new = current.gpio4().set(Gpio4::output());
        gpio().we().write(mock, new);
    }
    assert_eq!(silent(&mut slot, |mock| gpio().we().read(mock)).get_raw(), 0x10);

    let r = RegisterAccess::new(RegisterAccessType::READ, gpio().we().addr(), 4, 0, 0);
    let w = RegisterAccess::new(RegisterAccessType::WRITE, gpio().we().addr(), 4, 0, 0x10);

    let logs = logs(&slot);
    assert_groups(&logs, vec![(r.clone(), 1), (w.clone(), 1)]);

    given(logs.iter_full().collect(), LogSequenceMatcher::new(vec![r, w]));
}

#[test]
fn read_write_read_traced_correctly() {
    let mut slot = init_mock();

    {
        let mock = with_mock(&mut slot).unwrap();
        let _ = gpio().we().read(mock);
        let output = We::default().gpio0().set(Gpio0::output());
        gpio().we().write(mock, output);
        let _ = gpio().we().read(mock);
    }

    let r1 = RegisterAccess::new(RegisterAccessType::READ, gpio().we().addr(), 4, 0, 0);
    let w1 = RegisterAccess::new(RegisterAccessType::WRITE, gpio().we().addr(), 4, 0, 0x1);
    let r2 = RegisterAccess::new(RegisterAccessType::READ, gpio().we().addr(), 4, 0x1, 0x1);
    let logs = logs(&slot);
    assert_groups(&logs, vec![(r1.clone(), 1), (w1.clone(), 1), (r2.clone(), 1)]);

    given(logs.iter_full().collect(), LogSequenceMatcher::new(vec![r1, w1, r2]));
}

#[test]
fn modify_traced_correctly() {
    let mut slot = init_mock();

    gpio().we().modify(with_mock(&mut slot).unwrap(), |r| r.gpio4().set(Gpio4::output()));

    let r = RegisterAccess::new(RegisterAccessType::READ, gpio().we().addr(), 4, 0, 0);
    let w = RegisterAccess::new(RegisterAccessType::WRITE, gpio().we().addr(), 4, 0, 0x10);
    let logs = logs(&slot);
    assert_groups(&logs, vec![(r.clone(), 1), (w.clone(), 1)]);

    given(logs.iter_full().collect(), LogSequenceMatcher::new(vec![r, w]));
}

#[test]
fn reads_rle_encoded() {
    let mut slot = init_mock();
    for _ in 0..5 {
        let _ = gpio().we().read(with_mock(&mut slot).unwrap());
    }

    let r = RegisterAccess::new(RegisterAccessType::READ, gpio().we().addr(), 4, 0, 0);
    let logs = logs(&slot);
    assert_groups(&logs, vec![(r.clone(), 5)]);

    assert_eq!(logs.iter().collect().len(), 1);
    assert_eq!(logs.len(), 1);
    assert_eq!(logs.len_full(), 5);
    assert_eq!(logs.iter_full().collect().len(), 5);
}

#[test]
fn read_and_write_not_combined_in_rle() {
    let mut slot = init_mock();
    for _ in 0..10 {
        let _ = gpio().we().read(with_mock(&mut slot).unwrap());
    }
    gpio().we().init(with_mock(&mut slot).unwrap(), |r| r.gpio0().set(Gpio0::output()));

    let r = RegisterAccess::new(RegisterAccessType::READ, gpio().we().addr(), 4, 0, 0);
    let w = RegisterAccess::new(RegisterAccessType::WRITE, gpio().we().addr(), 4, 0, 0x1);
    let logs = logs(&slot);
    assert_groups(&logs, vec![(r.clone(), 10), (w.clone(), 1)]);

    assert_eq!(logs.iter().collect().len(), 2);
    assert_eq!(logs.len_full(), 11);
}

#[test]
fn reads_of_different_register_not_combined_in_rle() {
    let mut slot = init_mock();
    for _ in 0..3 {
        let _ = gpio().out().read(with_mock(&mut slot).unwrap());
    }
    for _ in 0..4 {
        let _ = gpio().we().read(with_mock(&mut slot).unwrap());
    }

    let r = RegisterAccess::new(RegisterAccessType::READ, gpio().out().addr(), 4, 0, 0);
    let w = RegisterAccess::new(RegisterAccessType::READ, gpio().we().addr(), 4, 0, 0);
    let logs = logs(&slot);
    assert_groups(&logs, vec![(r.clone(), 3), (w.clone(), 4)]);

    assert_eq!(logs.iter().collect().len(), 2);
    assert_eq!(logs.len_full(), 7);
}

#[test]
fn writes_not_combined_in_rle() {
    let mut slot = init_mock();
    for i in 0..3 {
        println!("i: {}", i);
        gpio().out().init(with_mock(&mut slot).unwrap(), |r| r.gpio0().set(true));
    }

    let state0 = RegisterAccess::new(RegisterAccessType::WRITE, gpio().out().addr(), 4, 0, 1);
    let state1 = RegisterAccess::new(RegisterAccessType::WRITE, gpio().out().addr(), 4, 1, 1);
    let logs = logs(&slot);

    assert_groups(
        &logs,
        vec![(state0.clone(), 1), (state1.clone(), 1), (state1.clone(), 1)],
    );

    assert_eq!(logs.iter().collect().len(), 3);
    assert_eq!(logs.len_full(), 3);
}

/// A read gives one more than the stored value, and stores what it gives.
struct Increment {
    addr: usize,
}

impl ReadFunction for Increment {
    fn call(&mut self, registers: &mut RegisterMap, before: u64) -> u64 {
        *registers.get_mut(&self.addr).unwrap() = before + 1;
        before + 1
    }
}

#[test]
fn reads_of_different_values_not_combined_in_rle() {
    let mut slot: MockSlot<Increment, Passthrough> = MockSlot::new();
    let mut regmock: Regmock<Increment, Passthrough> = Regmock::default();
    regmock.read_fn.insert(gpio().out().addr(), Increment { addr: gpio().out().addr() });
    init_regmock(&mut slot, regmock);
    for _ in 0..4 {
        let _ = gpio().out().read(with_mock(&mut slot).unwrap());
    }

    let r0 = RegisterAccess::new(RegisterAccessType::READ, gpio().out().addr(), 4, 0, 1);
    let r1 = RegisterAccess::new(RegisterAccessType::READ, gpio().out().addr(), 4, 1, 2);
    let r2 = RegisterAccess::new(RegisterAccessType::READ, gpio().out().addr(), 4, 2, 3);
    let r3 = RegisterAccess::new(RegisterAccessType::READ, gpio().out().addr(), 4, 3, 4);
    let logs = logs(&slot);
    assert_groups(&logs, vec![(r0, 1), (r1, 1), (r2, 1), (r3, 1)]);

    assert_eq!(logs.iter().collect().len(), 4);
    assert_eq!(logs.len_full(), 4);
}

#[test]
fn silent_access_not_traced() {
    let mut slot = init_mock();

    silent(&mut slot, |mock| gpio().in_().read(mock));
    let _ = gpio().in_().read(with_mock(&mut slot).unwrap());

    let logs = logs(&slot);
    assert_eq!(logs.len_full(), 1);
}
