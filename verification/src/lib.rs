//! Mocking and recording of accesses to memory-mapped registers, and
//! matchers that state properties of the recorded accesses.
//!
//! Code under test reaches the mock through a [`MockSlot`]: the place where
//! one thread keeps the mock that it works against.
use vstd::prelude::*;

pub mod matchers;
pub mod pac;
pub mod text;
pub mod utils;

use crate::text::{hex8, push_hex8};
use crate::utils::{MockState, Passthrough, ReadFunction, Regmock, RegmockLog, WriteFunction};

verus! {

/// What can go wrong on the way to the mock.
#[derive(Debug, Clone, Copy, PartialEq, Eq, Structural)]
pub enum MockError {
    /// No mock was installed.
    MockNotInitialized,
    /// The lock on the mock could not be taken.
    LockError,
}

impl MockError {
    /// The error as text.
    pub open spec fn spec_message(self) -> Seq<char> {
        match self {
            MockError::MockNotInitialized => "failed due to: MockNotInitialized"@,
            MockError::LockError => "failed due to: LockError"@,
        }
    }

    /// The error as text.
    pub fn message(&self) -> (r: String)
        ensures
            r@ == self.spec_message(),
    {
        match self {
            MockError::MockNotInitialized => "failed due to: MockNotInitialized".to_owned(),
            MockError::LockError => "failed due to: LockError".to_owned(),
        }
    }
}

/// The place where one thread keeps its mock. It is empty until a mock is
/// installed, which can be done once.
pub struct MockSlot<R: ReadFunction = Passthrough, W: WriteFunction = Passthrough> {
    /// The installed mock.
    pub mock: Option<Regmock<R, W>>,
}

impl<R: ReadFunction, W: WriteFunction> MockSlot<R, W> {
    /// An empty slot.
    pub fn new() -> (r: Self)
        ensures
            r.mock.is_none(),
    {
        MockSlot { mock: None }
    }

    /// Whether a mock is installed.
    pub open spec fn spec_is_initialized(&self) -> bool {
        self.mock.is_some()
    }

    /// The state of the installed mock.
    pub open spec fn state(&self) -> MockState
        recommends
            self.mock.is_some(),
    {
        self.mock.unwrap()@
    }

    /// Whether a mock is installed.
    pub fn is_initialized(&self) -> (r: bool)
        ensures
            r == self.spec_is_initialized(),
    {
        self.mock.is_some()
    }
}

/// The installed mock, or the error that none is installed.
pub fn with_mock<R: ReadFunction, W: WriteFunction>(slot: &mut MockSlot<R, W>) -> (r: Result<
    &mut Regmock<R, W>,
    MockError,
>)
    ensures
        match r {
            Ok(mock) => old(slot).mock == Some(*mock) && final(slot).mock == Some(*final(mock)),
            Err(e) => e == MockError::MockNotInitialized && old(slot).mock.is_none() && final(slot).mock.is_none(),
        },
{
    match &mut slot.mock {
        Some(mock) => Ok(mock),
        None => Err(MockError::MockNotInitialized),
    }
}

/// Installs `mock` in the slot. A slot takes a mock once.
pub fn init_regmock<R: ReadFunction, W: WriteFunction>(
    slot: &mut MockSlot<R, W>,
    mock: Regmock<R, W>,
)
    requires
        old(slot).mock.is_none(),
    ensures
        final(slot).mock == Some(mock),
{
    slot.mock = Some(mock);
}

/// Runs `f` on the mock with recording and attached functions disabled,
/// and puts both settings back to what they were before. What `f` sets
/// them to does not last; what else it does to the mock stays, and what it
/// returns is returned.
pub fn silent<R: ReadFunction, W: WriteFunction, T, F: FnOnce(&mut Regmock<R, W>) -> T>(
    slot: &mut MockSlot<R, W>,
    f: F,
) -> (r: T)
    requires
        old(slot).mock.is_some(),
        forall|mock: &mut Regmock<R, W>|
            !mock.log_enabled && !mock.callback_enabled ==> call_requires(f, (mock,)),
    ensures
        final(slot).mock.is_some(),
        final(slot).state().log_enabled == old(slot).state().log_enabled,
        final(slot).state().callback_enabled == old(slot).state().callback_enabled,
        exists|mock: &mut Regmock<R, W>|
            *mock == (Regmock {
                log_enabled: false,
                callback_enabled: false,
                ..old(slot).mock.unwrap()
            }) && #[trigger] call_ensures(f, (mock,), r) && final(slot).mock == Some(
                Regmock {
                    log_enabled: old(slot).mock.unwrap().log_enabled,
                    callback_enabled: old(slot).mock.unwrap().callback_enabled,
                    ..*final(mock)
                },
            ),
{
    match &mut slot.mock {
        Some(mock) => {
            let prev_state = (mock.log_enabled, mock.callback_enabled);
            mock.log_enabled = false;
            mock.callback_enabled = false;
            let ret = f(mock);
            mock.log_enabled = prev_state.0;
            mock.callback_enabled = prev_state.1;
            ret
        },
        None => unreached(),
    }
}

/// Enables or disables the recording of accesses.
pub fn logging<R: ReadFunction, W: WriteFunction>(slot: &mut MockSlot<R, W>, state: bool)
    requires
        old(slot).mock.is_some(),
    ensures
        final(slot).mock.is_some(),
        final(slot).state() == (MockState { log_enabled: state, ..old(slot).state() }),
{
    match &mut slot.mock {
        Some(mock) => {
            mock.log_enabled = state;
        },
        None => {},
    }
}

/// Enables or disables the functions attached to registers.
pub fn callbacks<R: ReadFunction, W: WriteFunction>(slot: &mut MockSlot<R, W>, state: bool)
    requires
        old(slot).mock.is_some(),
    ensures
        final(slot).mock.is_some(),
        final(slot).state() == (MockState { callback_enabled: state, ..old(slot).state() }),
{
    match &mut slot.mock {
        Some(mock) => {
            mock.callback_enabled = state;
        },
        None => {},
    }
}

/// A copy of the recorded accesses.
pub fn logs<R: ReadFunction, W: WriteFunction>(slot: &MockSlot<R, W>) -> (r: RegmockLog)
    requires
        slot.mock.is_some(),
    ensures
        r.log@ == slot.state().log,
{
    match &slot.mock {
        Some(mock) => mock.get_logs(),
        None => RegmockLog::default(),
    }
}

/// Reads `len` bytes of the register at `reg` of the installed mock: see
/// [`Regmock::read_volatile`].
pub fn read_fn<R: ReadFunction, W: WriteFunction>(
    slot: &mut MockSlot<R, W>,
    reg: usize,
    len: usize,
) -> (r: u64)
    requires
        old(slot).mock.is_some(),
    ensures
        final(slot).mock.is_some(),
        !old(slot).state().read_is_hooked(reg) ==> r == old(slot).state().stored(reg)
            && final(slot).state() == old(slot).state().plain_read(reg, len)
            && old(slot).mock.unwrap().same_hooks(&final(slot).mock.unwrap()),
        old(slot).state().read_is_hooked(reg) ==> old(slot).mock.unwrap().hooked_read(
            &final(slot).mock.unwrap(),
            reg,
            r,
        ),
        final(slot).state() == old(slot).state().after_read(
            reg,
            len,
            final(slot).state().registers,
            r,
        ),
{
    match &mut slot.mock {
        Some(mock) => mock.read_volatile(reg, len),
        None => 0,
    }
}

/// Writes `len` bytes of `value` to the register at `reg` of the installed
/// mock: see [`Regmock::write_volatile`].
pub fn write_fn<R: ReadFunction, W: WriteFunction>(
    slot: &mut MockSlot<R, W>,
    reg: usize,
    len: usize,
    value: u64,
)
    requires
        old(slot).mock.is_some(),
    ensures
        final(slot).mock.is_some(),
        !old(slot).state().write_is_hooked(reg) ==> final(slot).state() == old(
            slot,
        ).state().plain_write(reg, len, value) && old(slot).mock.unwrap().same_hooks(
            &final(slot).mock.unwrap(),
        ),
        old(slot).state().write_is_hooked(reg) ==> old(slot).mock.unwrap().hooked_write(
            &final(slot).mock.unwrap(),
            reg,
            value,
        ),
        final(slot).state().registers.contains_key(reg),
        final(slot).state() == old(slot).state().after_write(
            reg,
            len,
            final(slot).state().registers,
            final(slot).state().registers[reg],
        ),
{
    match &mut slot.mock {
        Some(mock) => mock.write_volatile(reg, len, value),
        None => {},
    }
}

/// Updates the register at `reg` of the installed mock in place: see
/// [`Regmock::load_modify_store`].
pub fn ldmst_fn<R: ReadFunction, W: WriteFunction>(
    slot: &mut MockSlot<R, W>,
    reg: usize,
    len: usize,
    value: u64,
)
    requires
        old(slot).mock.is_some(),
    ensures
        final(slot).mock.is_some(),
        !old(slot).state().write_is_hooked(reg) ==> final(slot).state() == old(
            slot,
        ).state().plain_write(reg, len, value) && old(slot).mock.unwrap().same_hooks(
            &final(slot).mock.unwrap(),
        ),
        old(slot).state().write_is_hooked(reg) ==> old(slot).mock.unwrap().hooked_write(
            &final(slot).mock.unwrap(),
            reg,
            value,
        ),
        final(slot).state().registers.contains_key(reg),
        final(slot).state() == old(slot).state().after_write(
            reg,
            len,
            final(slot).state().registers,
            final(slot).state().registers[reg],
        ),
{
    match &mut slot.mock {
        Some(mock) => mock.load_modify_store(reg, len, value),
        None => {},
    }
}

/// What is reported where the wait for a register to be polled ran out of
/// time.
pub open spec fn spec_timeout_message(addr: usize) -> Seq<char> {
    "Timed out waiting for 0x"@ + hex8(addr as nat, true) + " to be polled."@
}

/// One look at whether the register at `addr` is being polled: whether the
/// last recorded access is a read of it that occurred more than `count`
/// times in a row.
///
/// `elapsed` is the time since the wait began, and `timeout` the time after
/// which it is given up, both in nanoseconds. The result is `Some(Ok(()))`
/// where the register is being polled; else the timeout as an error where
/// `elapsed` is over `timeout`; else `None`: the caller lets other threads
/// run and looks again.
pub fn wait_until_polled<R: ReadFunction, W: WriteFunction>(
    slot: &MockSlot<R, W>,
    addr: usize,
    count: usize,
    timeout: Option<u128>,
    elapsed: u128,
) -> (r: Option<Result<(), String>>)
    requires
        slot.mock.is_some(),
    ensures
        match r {
            Some(Ok(_)) => slot.mock.unwrap().log.spec_is_being_polled(addr, count),
            Some(Err(message)) => !slot.mock.unwrap().log.spec_is_being_polled(addr, count)
                && timeout.is_some() && timeout.unwrap() < elapsed && message@
                == spec_timeout_message(addr),
            None => !slot.mock.unwrap().log.spec_is_being_polled(addr, count) && !(
            timeout.is_some() && timeout.unwrap() < elapsed),
        },
{
    let polled = match &slot.mock {
        Some(mock) => mock.log.is_being_polled(addr, count),
        None => false,
    };
    if polled {
        return Some(Ok(()));
    }
    let expired = match timeout {
        Some(limit) => limit < elapsed,
        None => false,
    };
    if expired {
        let mut message = String::new();
        message.push_str("Timed out waiting for 0x");
        push_hex8(&mut message, addr as u64, true);
        message.push_str(" to be polled.");
        proof {
            assert(message@ =~= spec_timeout_message(addr));
        }
        Some(Err(message))
    } else {
        None
    }
}

} // verus!
