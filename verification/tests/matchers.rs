use regmock::matchers::{
    AllWritesBeforeWritesTo, LogMatcher, NotWrittenMatcher, ReadLastMatcher, ValuesWrittenAre,
    WrittenOnceMatcher, WrittenToBeforeWriteTo,
};
use regmock::pac::spi::ctrl::Cpha;
use regmock::pac::{gpio, spi};
use regmock::utils::{RegisterAccess, Regmock};

/// Holds the accesses of the log, without repeated reads, against the
/// matcher, and panics with the reason where it does not accept them.
fn given(mock: &Regmock, matcher: impl LogMatcher) {
    let log: Vec<RegisterAccess> = mock.get_logs().iter().collect();
    match matcher.match_log(&log, None) {
        Ok(_) => {}
        Err(me) => {
            panic!("\nFailed to match {} because:\n'{}'", me.name, me.reason);
        }
    }
}

#[test]
fn matchers_simple() {
    let mut mock: Regmock = Regmock::default();
    let _ = gpio().we().read(&mut mock);
    given(&mock, ReadLastMatcher::new(gpio().we().addr()));
}

#[test]
fn matchers_other_reads() {
    let mut mock: Regmock = Regmock::default();
    let _ = gpio().we().read(&mut mock);
    let _ = gpio().out().read(&mut mock);
    given(&mock, ReadLastMatcher::new(gpio().we().addr()));
}

#[test]
fn matchers_other_writes() {
    let mut mock: Regmock = Regmock::default();
    let _ = gpio().we().read(&mut mock);
    gpio().out().init(&mut mock, |r| r);
    given(&mock, ReadLastMatcher::new(gpio().we().addr()));
}

#[test]
#[should_panic]
fn fail_write_after_read() {
    let mut mock: Regmock = Regmock::default();
    let _ = gpio().we().read(&mut mock);
    gpio().we().init(&mut mock, |r| r);
    given(&mock, ReadLastMatcher::new(gpio().we().addr()));
}

#[test]
#[should_panic]
fn fail_read_modify_write() {
    let mut mock: Regmock = Regmock::default();
    gpio().we().modify(&mut mock, |r| r);
    given(&mock, ReadLastMatcher::new(gpio().we().addr()));
}

#[test]
fn not_written_simple() {
    let mut mock: Regmock = Regmock::default();
    given(&mock, NotWrittenMatcher::new(gpio().we().addr()));
}

#[test]
fn reads() {
    let mut mock: Regmock = Regmock::default();
    let _ = gpio().we().read(&mut mock);
    given(&mock, NotWrittenMatcher::new(gpio().we().addr()));
}

#[test]
fn not_written_other_writes() {
    let mut mock: Regmock = Regmock::default();
    gpio().out().init(&mut mock, |r| r);
    given(&mock, NotWrittenMatcher::new(gpio().we().addr()));
}

#[test]
#[should_panic]
fn fail_write_to_register() {
    let mut mock: Regmock = Regmock::default();
    gpio().we().init(&mut mock, |r| r);
    given(&mock, NotWrittenMatcher::new(gpio().we().addr()));
}

#[test]
fn written_once_simple() {
    let mut mock: Regmock = Regmock::default();
    gpio().we().init(&mut mock, |r| r);
    given(&mock, WrittenOnceMatcher::new(gpio().we().addr()));
}

#[test]
fn multiple_reads() {
    let mut mock: Regmock = Regmock::default();
    let _ = gpio().we().read(&mut mock);
    gpio().we().init(&mut mock, |r| r);
    let _ = gpio().we().read(&mut mock);
    given(&mock, WrittenOnceMatcher::new(gpio().we().addr()));
}

#[test]
fn written_once_other_writes() {
    let mut mock: Regmock = Regmock::default();
    gpio().out().init(&mut mock, |r| r);
    gpio().we().init(&mut mock, |r| r);
    gpio().out().init(&mut mock, |r| r);
    given(&mock, WrittenOnceMatcher::new(gpio().we().addr()));
}

#[test]
#[should_panic]
fn matchers_fail_no_write() {
    let mut mock: Regmock = Regmock::default();
    gpio().out().init(&mut mock, |r| r);
    gpio().out().init(&mut mock, |r| r);
    given(&mock, WrittenOnceMatcher::new(gpio().we().addr()));
}

#[test]
#[should_panic]
fn fail_written_multiple_times() {
    let mut mock: Regmock = Regmock::default();
    gpio().we().init(&mut mock, |r| r);
    gpio().out().init(&mut mock, |r| r);
    gpio().we().init(&mut mock, |r| r);
    given(&mock, WrittenOnceMatcher::new(gpio().we().addr()));
}

#[test]
#[should_panic]
fn fail_written_multiple_times_back_to_back() {
    let mut mock: Regmock = Regmock::default();
    { gpio().we().init(&mut mock, |r| r);
    gpio().we().init(&mut mock, |r| r);
    given(&mock, WrittenOnceMatcher::new(gpio().we().addr()));
    }
}

#[test]
fn all_writes_before_writes_to_simple() {
    let mut mock: Regmock = Regmock::default();
    gpio().we().init(&mut mock, |r| r);
    gpio().out().init(&mut mock, |r| r);
    given(&mock, AllWritesBeforeWritesTo::new(gpio().we().addr(), gpio().out().addr()));
}

#[test]
fn all_writes_before_writes_to_other_writes() {
    let mut mock: Regmock = Regmock::default();
    spi().ctrl().init(&mut mock, |r| r);
    spi().tx().init(&mut mock, |r| r);
    spi().ctrl().init(&mut mock, |r| r);
    spi().status().init(&mut mock, |r| r);
    spi().ctrl().init(&mut mock, |r| r);
    given(&mock, AllWritesBeforeWritesTo::new(spi().tx().addr(), spi().status().addr()));
}

#[test]
fn reads_after() {
    let mut mock: Regmock = Regmock::default();
    spi().ctrl().init(&mut mock, |r| r);
    spi().tx().init(&mut mock, |r| r);
    let _ = spi().ctrl().read(&mut mock);
    given(&mock, AllWritesBeforeWritesTo::new(spi().ctrl().addr(), spi().tx().addr()));
}

#[test]
#[should_panic]
fn written_after() {
    let mut mock: Regmock = Regmock::default();
    spi().ctrl().init(&mut mock, |r| r);
    spi().tx().init(&mut mock, |r| r);
    spi().ctrl().init(&mut mock, |r| r);
    given(&mock, AllWritesBeforeWritesTo::new(spi().ctrl().addr(), spi().tx().addr()));
}

#[test]
#[should_panic]
fn read_modify_write_after() {
    let mut mock: Regmock = Regmock::default();
    spi().ctrl().init(&mut mock, |r| r);
    spi().tx().init(&mut mock, |r| r);
    spi().ctrl().modify(&mut mock, |r| r);
    given(&mock, AllWritesBeforeWritesTo::new(spi().ctrl().addr(), spi().tx().addr()));
}

#[test]
fn written_before_simple() {
    let mut mock: Regmock = Regmock::default();
    spi().ctrl().init(&mut mock, |r| r);
    spi().tx().init(&mut mock, |r| r);
    given(&mock, WrittenToBeforeWriteTo::new(spi().ctrl().addr(), spi().tx().addr()));
}

#[test]
fn writes_and_reads_before_and_after() {
    let mut mock: Regmock = Regmock::default();
    let _ = spi().ctrl().read(&mut mock);
    spi().ctrl().init(&mut mock, |r| r);
    spi().tx().init(&mut mock, |r| r);
    let _ = spi().ctrl().read(&mut mock);
    spi().ctrl().init(&mut mock, |r| r);
    given(&mock, WrittenToBeforeWriteTo::new(spi().ctrl().addr(), spi().tx().addr()));
}

#[test]
#[should_panic]
fn fail_only_write_after() {
    let mut mock: Regmock = Regmock::default();
    spi().tx().init(&mut mock, |r| r);
    spi().ctrl().init(&mut mock, |r| r);
    given(&mock, WrittenToBeforeWriteTo::new(spi().ctrl().addr(), spi().tx().addr()));
}

#[test]
fn written_before_fail_no_write() {
    let mut mock: Regmock = Regmock::default();
    spi().tx().init(&mut mock, |r| r);
    let log: Vec<RegisterAccess> = mock.get_logs().iter().collect();
    let failure = WrittenToBeforeWriteTo::new(spi().ctrl().addr(), spi().tx().addr())
        .match_log(&log, None)
        .unwrap_err();
    assert_eq!(failure.name, "WrittenToBeforeWriteTo");
    assert_eq!(
        failure.reason,
        "Other register: 0x00008208 was written to before target register: 0x00008204"
    );
}

#[test]
#[should_panic]
fn fail_only_read_before() {
    let mut mock: Regmock = Regmock::default();
    let _ = spi().ctrl().read(&mut mock);
    spi().tx().init(&mut mock, |r| r);
    given(&mock, WrittenToBeforeWriteTo::new(spi().ctrl().addr(), spi().tx().addr()));
}

#[test]
fn values_written_to_simple() {
    let mut mock: Regmock = Regmock::default();
    spi().ctrl() .init(&mut mock, |r| r.cpha().set(Cpha::cpha_first_latches()));
    spi().ctrl().init(&mut mock, |r| r.cpol().set(true));
    given(&mock, ValuesWrittenAre::new(spi().ctrl().addr(), vec![0x0u64, 0x4u64]));
}

#[test]
fn values_written_to_other_writes() {
    let mut mock: Regmock = Regmock::default();
    spi().status().init(&mut mock, |r| r);
    spi().ctrl() .init(&mut mock, |r| r.cpha().set(Cpha::cpha_first_latches()));
    spi().tx().init(&mut mock, |r| r);
    spi().ctrl().init(&mut mock, |r| r.cpol().set(true));
    spi().rx().init(&mut mock, |r| r);
    given(&mock, ValuesWrittenAre::new(spi().ctrl().addr(), vec![0x0u64, 0x4u64]));
}

#[test]
fn values_written_to_other_reads() {
    let mut mock: Regmock = Regmock::default();
    let _ = spi().ctrl().read(&mut mock);
    spi().ctrl() .init(&mut mock, |r| r.cpha().set(Cpha::cpha_first_latches()));
    let _ = spi().rx().read(&mut mock);
    spi().ctrl().init(&mut mock, |r| r.cpol().set(true));
    let _ = spi().ctrl().read(&mut mock);
    given(&mock, ValuesWrittenAre::new(spi().ctrl().addr(), vec![0x0u64, 0x4u64]));
}

#[test]
#[should_panic]
fn fail_wrong_value() {
    let mut mock: Regmock = Regmock::default();
    spi().ctrl() .init(&mut mock, |r| r.cpha().set(Cpha::cpha_first_shifts()));
    spi().ctrl().init(&mut mock, |r| r.cpol().set(true));
    given(&mock, ValuesWrittenAre::new(spi().ctrl().addr(), vec![0x0u64, 0x4u64]));
}

#[test]
#[should_panic]
fn fail_write_missing() {
    let mut mock: Regmock = Regmock::default();
    spi().ctrl() .init(&mut mock, |r| r.cpha().set(Cpha::cpha_first_shifts()));
    given(&mock, ValuesWrittenAre::new(spi().ctrl().addr(), vec![0x0u64, 0x4u64]));
}

#[test]
#[should_panic]
fn fail_too_many_writes() {
    let mut mock: Regmock = Regmock::default();
    spi().ctrl() .init(&mut mock, |r| r.cpha().set(Cpha::cpha_first_shifts()));
    spi().ctrl().init(&mut mock, |r| r.cpol().set(true));
    spi().ctrl().init(&mut mock, |r| r.cpol().set(true));
    given(&mock, ValuesWrittenAre::new(spi().ctrl().addr(), vec![0x0u64, 0x4u64]));
}
