use std::collections::HashMap;
use std::sync::{Arc, Mutex};

use regmock::matchers::{LogMatcher, LogSequenceMatcher};
use regmock::pac::common::RegisterValue;
use regmock::pac::gpio;
use regmock::pac::gpio::{Out, We};
use regmock::utils::access_gen::{read_value, write_value};
use regmock::utils::{
    Passthrough, ReadFunction, RegisterAccess, RegisterAccessBuilder, RegisterAccessType,
    RegisterMap, Regmock, WriteFunction,
};
use regmock::{init_regmock, logs, with_mock, MockSlot};

/// A closure as the behaviour of the reads of a register.
struct ReadClosure(Box<dyn FnMut(&mut RegisterMap, u64) -> u64 + Send>);

impl ReadFunction for ReadClosure {
    fn call(&mut self, registers: &mut RegisterMap, before: u64) -> u64 {
        (self.0)(registers, before)
    }
}

/// A closure as the behaviour of the writes to a register.
struct WriteClosure(Box<dyn FnMut(&mut RegisterMap, u64, u64) -> u64 + Send>);

impl WriteFunction for WriteClosure {
    fn call(&mut self, registers: &mut RegisterMap, before: u64, value: u64) -> u64 {
        (self.0)(registers, before, value)
    }
}

/// Holds the accesses against the matcher, and panics with the reason where
/// it does not accept them.
fn given(log: Vec<RegisterAccess>, matcher: impl LogMatcher) {
    match matcher.match_log(&log, None) {
        Ok(_) => {}
        Err(me) => {
            panic!("\nFailed to match {} because:\n'{}'", me.name, me.reason);
        }
    }
}

#[test]
fn default_rw_mock() {
    let mut slot: MockSlot = MockSlot::new();
    init_regmock(&mut slot, Regmock::default());
    let mock = with_mock(&mut slot).unwrap();

    gpio().we().init(mock, |r| r.set_raw(0xff));
    assert_eq!(gpio().we().read(mock).get_raw(), 0xff);

    gpio().we().init(mock, |r| r.set_raw(0xff));
    assert_eq!(gpio().we().read(mock).get_raw(), 0xff);
}

#[test]
fn custom_read_fn() {
    // After 4 reads of the we register the value 0xC0FFEE is returned.
    let mut counter = 0u32;
    let cool_fn = move |_: &mut RegisterMap, value: u64| -> u64 {
        let mut ret = 0xC0FFEE;
        if counter < 4 {
            ret = value;
        }
        println!(
            "Cool function was called. Counter={:?} value=0x{:08X} ret=0x{:08X}",
            counter, value, ret
        );
        counter += 1;
        ret
    };

    let mut reporter: Regmock<ReadClosure, Passthrough> = Regmock::default();
    reporter.read_fn.insert(gpio().we().addr(), ReadClosure(Box::new(cool_fn)));

    let mut slot = MockSlot::new();
    init_regmock(&mut slot, reporter);

    assert_eq!(gpio().we().read(with_mock(&mut slot).unwrap()).get_raw(), 0);
    assert_eq!(gpio().we().read(with_mock(&mut slot).unwrap()).get_raw(), 0);
    assert_eq!(gpio().we().read(with_mock(&mut slot).unwrap()).get_raw(), 0);
    assert_eq!(gpio().we().read(with_mock(&mut slot).unwrap()).get_raw(), 0);
    assert_eq!(gpio().we().read(with_mock(&mut slot).unwrap()).get_raw(), 0xC0FFEE);
    assert_eq!(gpio().we().read(with_mock(&mut slot).unwrap()).get_raw(), 0xC0FFEE);

    let logs = logs(&slot);
    for element in logs.iter_full().collect() {
        println!("{}", element.debug_string());
    }

    let r_0 = read_value(gpio().we().addr(), 0);
    let r_coffee = read_value(gpio().we().addr(), 0xC0FFEE);
    given(
        logs.iter_full().collect(),
        LogSequenceMatcher::new(vec![r_0, r_0, r_0, r_0, r_coffee, r_coffee]),
    );
    assert_eq!(logs.len_full(), 6);
}

#[test]
fn custom_write_fn() {
    // What is stored is always one more than the value that was written.
    let cool_fn = |_: &mut HashMap<usize, u64>, _, val: u64| -> u64 { val + 1 };

    let mut reporter: Regmock<Passthrough, WriteClosure> = Regmock::default();
    reporter.write_fn.insert(gpio().we().addr(), WriteClosure(Box::new(cool_fn)));
    let mut slot = MockSlot::new();
    init_regmock(&mut slot, reporter);

    for i in 1..10 {
        let mock = with_mock(&mut slot).unwrap();
        gpio().we().write(mock, We::new(i));
        assert_eq!(gpio().we().read(mock).get_raw(), i + 1);
    }

    let logs = logs(&slot);
    for element in logs.iter().collect() {
        println!("{}", element.debug_string());
    }
    let last_read = RegisterAccessBuilder::default()
        .ty(RegisterAccessType::READ)
        .after(10u64)
        .build()
        .unwrap();
    assert_eq!(logs.len_full(), 18);
    assert!(last_read.matches(logs.iter().collect().last().unwrap()));
}

#[test]
fn custom_advanced_write_fn() {
    // A write to the out register puts a value into the in register.
    let advanced_fn = |register_mocks: &mut HashMap<usize, u64>, _, val: u64| -> u64 {
        register_mocks.insert(gpio().in_().addr(), 0xC0FFEE);
        println!("Added 0xC0FFEE to the in register");
        val
    };
    let mut reporter: Regmock<Passthrough, WriteClosure> = Regmock::default();
    reporter.write_fn.insert(gpio().out().addr(), WriteClosure(Box::new(advanced_fn)));
    let mut slot = MockSlot::new();
    init_regmock(&mut slot, reporter);

    let (before, after) = {
        let mock = with_mock(&mut slot).unwrap();
        let before = gpio().in_().read(mock);
        gpio().out().write(mock, Out::new(0x200));
        let after = gpio().in_().read(mock);
        (before.get_raw(), after.get_raw())
    };
    assert_eq!(before, 0);
    assert_eq!(after, 0xC0FFEE);

    let logs = logs(&slot);
    for element in logs.iter().collect() {
        println!("{}", element.debug_string());
    }
    let r = read_value(gpio().in_().addr(), 0);
    let w = write_value(gpio().out().addr(), 0x200);
    let r2 = RegisterAccessBuilder::default()
        .addr(gpio().in_().addr())
        .ty(RegisterAccessType::READ)
        .after(0xC0FFEEu64)
        .build()
        .unwrap();
    assert_eq!(logs.len_full(), 3);
    given(logs.iter_full().collect(), LogSequenceMatcher::new(vec![r, w, r2]));
    let walked = logs.iter().collect();
    assert_eq!(walked.len(), 3);
    assert!(r.matches(&walked[0]));
    assert!(w.matches(&walked[1]));
    assert!(r2.matches(&walked[2]));
}

#[test]
fn test_boxed_callback_fnmut() {
    // A closure that is to change a value of the test shares it.
    let local_value = Arc::new(Mutex::new(0));
    let local_value_clone = local_value.clone();

    let some_fn = move |_: &mut RegisterMap, val: u64| -> u64 {
        let mut lv_guard = local_value_clone.lock().unwrap();
        *lv_guard += 1;
        *lv_guard + val
    };
    let mut reporter: Regmock<ReadClosure, Passthrough> = Regmock::default();
    reporter.read_fn.insert(gpio().we().addr(), ReadClosure(Box::new(some_fn)));

    let other_value = Arc::new(Mutex::new(0.0));
    let other_value_clone = other_value.clone();
    let other_fn = move |_: &mut RegisterMap, val: u64| -> u64 {
        *other_value_clone.lock().unwrap() += 0.5;
        val
    };

    reporter.read_fn.insert(gpio().in_().addr(), ReadClosure(Box::new(other_fn)));
    let mut slot = MockSlot::new();
    init_regmock(&mut slot, reporter);
    {
        let mock = with_mock(&mut slot).unwrap();
        let _ = gpio().we().read(mock);
        let _ = gpio().in_().read(mock);
    }
    let logs = logs(&slot);

    assert_eq!(logs.len_full(), 2);
    assert_eq!(*local_value.lock().unwrap(), 1);
    assert!(other_value.lock().unwrap().eq(&0.5));
}
