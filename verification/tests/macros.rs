use regmock::matchers::{
    AllWritesBeforeWritesTo, LogMatcher, NotWrittenMatcher, ReadLastMatcher, ValuesWrittenAre,
};
use regmock::utils::access_gen;
use regmock::utils::RegisterAccess;

/// Holds the accesses against the matcher, and panics with the reason where
/// it does not accept them.
fn given(log: &Vec<RegisterAccess>, matcher: impl LogMatcher) {
    match matcher.match_log(log, None) {
        Ok(_) => {}
        Err(me) => {
            panic!("\nFailed to match {} because:\n'{}'", me.name, me.reason);
        }
    }
}

#[test]
fn read_last_test() {
    let log: Vec<RegisterAccess> = vec![
        access_gen::read(123),
        access_gen::write(456),
    ];
    given(&log, ReadLastMatcher::new(123));
}

#[test]
#[should_panic]
fn read_last_fail_test() {
    let log: Vec<RegisterAccess> = vec![
        access_gen::read(123),
        access_gen::write(123),
    ];
    given(&log, ReadLastMatcher::new(123));
}

#[test]
fn not_written_test() {
    let log: Vec<RegisterAccess> = vec![
        access_gen::read(123),
        access_gen::write(456),
        access_gen::read(456),
    ];
    given(&log, NotWrittenMatcher::new(123));
}

#[test]
#[should_panic]
fn not_written_fail_test() {
    let log: Vec<RegisterAccess> = vec![
        access_gen::read(123),
        access_gen::write(123),
        access_gen::write(456),
    ];
    given(&log, NotWrittenMatcher::new(123));
}

#[test]
fn all_written_before_test() {
    let log: Vec<RegisterAccess> = vec![
        access_gen::read(123),
        access_gen::write(123),
        access_gen::write(123),
        access_gen::write(789),
        access_gen::write(456),
    ];
    given(&log, AllWritesBeforeWritesTo::new(123, 456));
}

#[test]
#[should_panic]
fn all_written_before_fail_test() {
    let log: Vec<RegisterAccess> = vec![
        access_gen::read(123),
        access_gen::write(123),
        access_gen::write(123),
        access_gen::write(789),
        access_gen::write(456),
        access_gen::write(123),
    ];
    given(&log, AllWritesBeforeWritesTo::new(123, 456));
}

#[test]
fn all_written_before_no_target_write_test() {
    let log: Vec<RegisterAccess> = vec![
        access_gen::read(123),
        access_gen::read(123),
        access_gen::read(123),
        access_gen::write(789),
        access_gen::write(456),
        access_gen::read(123),
    ];
    given(&log, AllWritesBeforeWritesTo::new(123, 456));
}

#[test]
fn all_written_before_no_other_write_test() {
    let log: Vec<RegisterAccess> = vec![
        access_gen::write(123),
        access_gen::write(123),
        access_gen::read(123),
        access_gen::write(789),
        access_gen::read(456),
        access_gen::read(123),
    ];
    given(&log, AllWritesBeforeWritesTo::new(123, 456));
}

#[test]
fn written_sequence_test() {
    let log: Vec<RegisterAccess> = vec![
        access_gen::write_value(123, 2730),
        access_gen::write_value(456, 1024),
        access_gen::write_value(123, 2731),
        access_gen::read_value(456, 1024),
        access_gen::write_value(123, 2732),
        access_gen::read(123),
        access_gen::write_value(123, 2733),
        access_gen::write_value(123, 2734),
        access_gen::write_value(456, 1024),
        access_gen::write_value(456, 1024),
        access_gen::read(123),
    ];
    given(&log, ValuesWrittenAre::new(123, vec![0xAAA, 0xAAB, 0xAAC, 0xAAD, 0xAAE]));
}

#[test]
#[should_panic]
fn written_sequence_fail_test() {
    let log: Vec<RegisterAccess> = vec![
        access_gen::write_value(123, 2730),
        access_gen::write_value(456, 1024),
        access_gen::write_value(123, 2731),
        access_gen::read_value(456, 1024),
        access_gen::write_value(123, 2732),
        access_gen::write_value(123, 12648430),
        access_gen::read(123),
        access_gen::write_value(123, 2733),
        access_gen::write_value(123, 2734),
        access_gen::write_value(456, 1024),
        access_gen::write_value(456, 1024),
        access_gen::read(123),
    ];
    given(&log, ValuesWrittenAre::new(123, vec![0xAAA, 0xAAB, 0xAAC, 0xAAD, 0xAAE]));
}
