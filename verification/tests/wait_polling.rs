use regmock::pac::common::RegisterValue;
use regmock::pac::gpio;
use regmock::pac::gpio::{In, We};
use regmock::utils::Regmock;
use regmock::{init_regmock, logs, silent, wait_until_polled, with_mock, MockSlot};

const MILLISECOND: u128 = 1_000_000;

/// A slot with a default mock installed.
fn init_mock() -> MockSlot {
    let mut slot: MockSlot = MockSlot::new();
    init_regmock(&mut slot, Regmock::default());
    slot
}

#[test]
fn test_wait_until_polling() {
    let mut slot = init_mock();
    let timeout = Some(1000 * MILLISECOND);

    // The code under test reads the register every ten milliseconds; the
    // test looks at the log after each read.
    let mut elapsed: u128 = 0;
    let mut reads = 0;
    let outcome = loop {
        match wait_until_polled(&slot, gpio().in_().addr(), 20, timeout, elapsed) {
            Some(outcome) => break outcome,
            None => {
                assert_ne!(gpio().in_().read(with_mock(&mut slot).unwrap()).get_raw(), 0xC0FFEE);
                reads += 1;
                elapsed += 10 * MILLISECOND;
            }
        }
    };
    assert_eq!(outcome, Ok(()));
    assert_eq!(reads, 21);

    silent(&mut slot, |mock| gpio().in_().write_read_only(mock, In::new(0xC0FFEE)));
    assert_eq!(gpio().in_().read(with_mock(&mut slot).unwrap()).get_raw(), 0xC0FFEE);
    assert_eq!(logs(&slot).len_full(), 22);
}

#[test]
fn test_wait_until_polling_fail() {
    let mut slot = init_mock();
    let timeout = Some(1000 * MILLISECOND);

    // The code under test polls another register than the one waited for.
    let mut elapsed: u128 = 0;
    let result = loop {
        match wait_until_polled(&slot, gpio().in_().addr(), 20, timeout, elapsed) {
            Some(outcome) => break outcome,
            None => {
                assert_ne!(gpio().we().read(with_mock(&mut slot).unwrap()).get_raw(), 0xC0FFEE);
                elapsed += 10 * MILLISECOND;
            }
        }
    };
    let message = result.unwrap_err();
    assert!(message.contains("Timed out"));
    assert_eq!(message, "Timed out waiting for 0x00008420 to be polled.");
    assert_eq!(elapsed, 1010 * MILLISECOND);

    silent(&mut slot, |mock| gpio().we().write(mock, We::new(0xC0FFEE)));
    assert_eq!(gpio().we().read(with_mock(&mut slot).unwrap()).get_raw(), 0xC0FFEE);
}

#[test]
fn polling_needs_more_reads_than_the_threshold() {
    let mut slot = init_mock();
    let addr = gpio().in_().addr();
    for _ in 0..5 {
        let _ = gpio().in_().read(with_mock(&mut slot).unwrap());
    }
    assert!(!logs(&slot).is_being_polled(addr, 5));
    assert_eq!(wait_until_polled(&slot, addr, 5, Some(1000 * MILLISECOND), 0), None);
    let _ = gpio().in_().read(with_mock(&mut slot).unwrap());
    assert!(logs(&slot).is_being_polled(addr, 5));
    assert_eq!(wait_until_polled(&slot, addr, 5, Some(1000 * MILLISECOND), 0), Some(Ok(())));
}

#[test]
fn polling_ends_with_any_other_access() {
    let mut slot = init_mock();
    let addr = gpio().out().addr();
    for _ in 0..8 {
        let _ = gpio().out().read(with_mock(&mut slot).unwrap());
    }
    assert!(logs(&slot).is_being_polled(addr, 5));
    gpio().out().write(with_mock(&mut slot).unwrap(), gpio::Out::new(0));
    assert!(!logs(&slot).is_being_polled(addr, 5));
    let _ = gpio().out().read(with_mock(&mut slot).unwrap());
    assert!(logs(&slot).is_being_polled(addr, 0));
    assert!(!logs(&slot).is_being_polled(addr, 1));
    let _ = gpio().out().read(with_mock(&mut slot).unwrap());
    assert!(logs(&slot).is_being_polled(addr, 1));
    assert!(!logs(&slot).is_being_polled(gpio().we().addr(), 1));
}

#[test]
fn wait_without_timeout_never_gives_up() {
    let slot = init_mock();
    assert_eq!(wait_until_polled(&slot, 0x10, 0, None, u128::MAX), None);
}

#[test]
fn wait_gives_up_only_after_the_timeout() {
    let slot = init_mock();
    assert_eq!(wait_until_polled(&slot, 0x10, 0, Some(5), 5), None);
    assert_eq!(
        wait_until_polled(&slot, 0xABCDEF0123, 0, Some(5), 6),
        Some(Err("Timed out waiting for 0xABCDEF0123 to be polled.".to_owned()))
    );
}
