//! The mock: the values of the registers, the behaviour attached to them,
//! and the record of the accesses made.
use vstd::prelude::*;
use std::collections::HashMap;
use crate::utils::log::{recorded, RegmockLog};
use crate::utils::names::NameTable;
use crate::utils::{RegisterAccess, RegisterAccessType};

verus! {

broadcast use vstd::std_specs::hash::group_hash_axioms;

/// The values of the mocked registers, by address.
pub type RegisterMap = HashMap<usize, u64>;

/// Behaviour attached to the reads of one register.
pub trait ReadFunction: Send {
    /// What the behaviour may do on a read: called with the values
    /// `registers` and the stored value `before`, it may leave the values
    /// `changed`, give `value`, and be `after` from then on. A behaviour that
    /// says nothing of itself may do anything.
    open spec fn responds(
        &self,
        registers: Map<usize, u64>,
        before: u64,
        after: &Self,
        changed: Map<usize, u64>,
        value: u64,
    ) -> bool {
        true
    }

    /// Called on each read of the register, with the values of all the
    /// registers and the value stored for the one that is read. What it
    /// returns is the value that the read gives.
    fn call(&mut self, registers: &mut RegisterMap, before: u64) -> (value: u64)
        ensures
            old(self).responds(
                old(registers)@,
                before,
                final(self),
                final(registers)@,
                value,
            ),
    ;
}

/// Behaviour attached to the writes to one register.
pub trait WriteFunction: Send {
    /// What the behaviour may do on a write: called with the values
    /// `registers`, the stored value `before` and the value `value` that is
    /// to be written, it may leave the values `changed`, have `stored`
    /// stored, and be `after` from then on. A behaviour that says nothing of
    /// itself may do anything.
    open spec fn responds(
        &self,
        registers: Map<usize, u64>,
        before: u64,
        value: u64,
        after: &Self,
        changed: Map<usize, u64>,
        stored: u64,
    ) -> bool {
        true
    }

    /// Called on each write to the register, with the values of all the
    /// registers, the value stored for the one that is written, and the value
    /// that is to be written. What it returns is the value that is stored.
    fn call(&mut self, registers: &mut RegisterMap, before: u64, value: u64) -> (stored: u64)
        ensures
            old(self).responds(
                old(registers)@,
                before,
                value,
                final(self),
                final(registers)@,
                stored,
            ),
    ;
}

/// Behaviour that leaves every access as it is: a read gives the stored
/// value, and a write stores the value written.
#[derive(Debug, Clone, Copy)]
pub struct Passthrough;

impl ReadFunction for Passthrough {
    /// The read gives the stored value and changes no value.
    open spec fn responds(
        &self,
        registers: Map<usize, u64>,
        before: u64,
        after: &Self,
        changed: Map<usize, u64>,
        value: u64,
    ) -> bool {
        value == before && changed == registers
    }

    /// Gives the stored value and leaves the values of the registers as
    /// they are.
    fn call(&mut self, registers: &mut RegisterMap, before: u64) -> (value: u64) {
        before
    }
}

impl WriteFunction for Passthrough {
    /// The value written is the value stored, and no other value changes.
    open spec fn responds(
        &self,
        registers: Map<usize, u64>,
        before: u64,
        value: u64,
        after: &Self,
        changed: Map<usize, u64>,
        stored: u64,
    ) -> bool {
        stored == value && changed == registers
    }

    /// Has the value written stored and leaves the values of the registers
    /// as they are.
    fn call(&mut self, registers: &mut RegisterMap, before: u64, value: u64) -> (stored: u64) {
        value
    }
}

/// What a mock holds, as far as its behaviour without attached functions
/// depends on it.
pub struct MockState {
    /// The values of the registers that were touched so far.
    pub registers: Map<usize, u64>,
    /// The recorded accesses, in groups.
    pub log: Seq<(RegisterAccess, usize)>,
    /// Whether accesses are recorded.
    pub log_enabled: bool,
    /// Whether attached functions are called.
    pub callback_enabled: bool,
    /// The registers whose reads have a function attached.
    pub read_hooks: Set<usize>,
    /// The registers whose writes have a function attached.
    pub write_hooks: Set<usize>,
}

impl MockState {
    /// The state of a mock that was just made.
    pub open spec fn fresh() -> MockState {
        MockState {
            registers: Map::empty(),
            log: Seq::empty(),
            log_enabled: true,
            callback_enabled: true,
            read_hooks: Set::empty(),
            write_hooks: Set::empty(),
        }
    }

    /// The value stored for the register at `addr`: zero until it is touched.
    pub open spec fn stored(self, addr: usize) -> u64 {
        if self.registers.contains_key(addr) {
            self.registers[addr]
        } else {
            0
        }
    }

    /// Whether a read of the register at `addr` calls an attached function.
    pub open spec fn read_is_hooked(self, addr: usize) -> bool {
        self.callback_enabled && self.read_hooks.contains(addr)
    }

    /// Whether a write to the register at `addr` calls an attached function.
    pub open spec fn write_is_hooked(self, addr: usize) -> bool {
        self.callback_enabled && self.write_hooks.contains(addr)
    }

    /// The log after `entry` was handed to it: recorded where recording is
    /// enabled, unchanged where it is not.
    pub open spec fn logged(self, entry: RegisterAccess) -> Seq<(RegisterAccess, usize)> {
        if self.log_enabled {
            recorded(self.log, entry)
        } else {
            self.log
        }
    }

    /// The state after a read of `len` bytes of the register at `addr`,
    /// given the values of the registers after the read and the value that
    /// the read gave. The read is recorded with the value stored before it.
    pub open spec fn after_read(
        self,
        addr: usize,
        len: usize,
        registers: Map<usize, u64>,
        apparent: u64,
    ) -> MockState {
        MockState {
            registers,
            log: self.logged(
                RegisterAccess::spec_new(
                    RegisterAccessType::READ,
                    addr,
                    len,
                    self.stored(addr),
                    apparent,
                ),
            ),
            ..self
        }
    }

    /// The state after a write of `len` bytes to the register at `addr`,
    /// given the values of the other registers after the write and the value
    /// that was committed. The write is recorded with the value stored
    /// before it, and the committed value is stored whether or not the write
    /// is recorded.
    pub open spec fn after_write(
        self,
        addr: usize,
        len: usize,
        registers: Map<usize, u64>,
        committed: u64,
    ) -> MockState {
        MockState {
            registers: registers.insert(addr, committed),
            log: self.logged(
                RegisterAccess::spec_new(
                    RegisterAccessType::WRITE,
                    addr,
                    len,
                    self.stored(addr),
                    committed,
                ),
            ),
            ..self
        }
    }

    /// The state after a read that calls no attached function: the register
    /// is touched, and the read gives the stored value.
    pub open spec fn plain_read(self, addr: usize, len: usize) -> MockState {
        self.after_read(
            addr,
            len,
            self.registers.insert(addr, self.stored(addr)),
            self.stored(addr),
        )
    }

    /// The state after a write that calls no attached function: the value
    /// written is the value stored.
    pub open spec fn plain_write(self, addr: usize, len: usize, value: u64) -> MockState {
        self.after_write(addr, len, self.registers.insert(addr, self.stored(addr)), value)
    }
}

/// Mocks the registers of a device and records the accesses to them.
///
/// A register holds zero until it is written. A function attached to a
/// register in `read_fn` or `write_fn` is called on each read of it, or write
/// to it, and decides the value that is read or stored.
pub struct Regmock<R: ReadFunction = Passthrough, W: WriteFunction = Passthrough> {
    /// The recorded accesses.
    pub log: RegmockLog,
    /// The values of the registers.
    pub register_mocks: RegisterMap,
    /// The functions called on reads, by the address of the register.
    pub read_fn: HashMap<usize, R>,
    /// The functions called on writes, by the address of the register.
    pub write_fn: HashMap<usize, W>,
    /// Whether accesses are recorded.
    pub log_enabled: bool,
    /// Whether the attached functions are called.
    pub callback_enabled: bool,
    /// Names the registers in diagnostics.
    pub name_resolver: Option<NameTable>,
}

impl<R: ReadFunction, W: WriteFunction> View for Regmock<R, W> {
    type V = MockState;

    open spec fn view(&self) -> MockState {
        MockState {
            registers: self.register_mocks@,
            log: self.log.log@,
            log_enabled: self.log_enabled,
            callback_enabled: self.callback_enabled,
            read_hooks: self.read_fn@.dom(),
            write_hooks: self.write_fn@.dom(),
        }
    }
}

impl<R: ReadFunction, W: WriteFunction> Default for Regmock<R, W> {
    /// A mock without values, functions, name resolver or recorded
    /// accesses, which records and calls attached functions.
    fn default() -> (r: Self)
        ensures
            r@ == MockState::fresh(),
            r.name_resolver.is_none(),
    {
        let r = Regmock {
            log: RegmockLog::default(),
            register_mocks: HashMap::new(),
            read_fn: HashMap::new(),
            write_fn: HashMap::new(),
            log_enabled: true,
            callback_enabled: true,
            name_resolver: None,
        };
        proof {
            assert(r@.read_hooks =~= Set::empty());
            assert(r@.write_hooks =~= Set::empty());
        }
        r
    }
}

impl<R: ReadFunction, W: WriteFunction> Regmock<R, W> {
    /// Whether `after` holds the attached functions that this mock holds,
    /// each as it is here.
    pub open spec fn same_hooks(&self, after: &Self) -> bool {
        after.read_fn@ == self.read_fn@ && after.write_fn@ == self.write_fn@
    }

    /// Whether `after` is this mock once the function attached to the reads
    /// of the register at `addr` was called with the values `registers` and
    /// the stored value `before`: the values of the registers are what the
    /// function left, `value` is what it gave, and the function is held as it
    /// is from then on. No other attached function changes.
    pub open spec fn read_hook_ran(
        &self,
        after: &Self,
        addr: usize,
        registers: Map<usize, u64>,
        before: u64,
        value: u64,
    ) -> bool {
        &&& self.read_fn@.contains_key(addr)
        &&& after.read_fn@.contains_key(addr)
        &&& self.read_fn@[addr].responds(
            registers,
            before,
            &after.read_fn@[addr],
            after.register_mocks@,
            value,
        )
        &&& after.read_fn@ == self.read_fn@.insert(addr, after.read_fn@[addr])
        &&& after.write_fn@ == self.write_fn@
    }

    /// Whether `after` is this mock once the function attached to the
    /// writes to the register at `addr` was called with the values
    /// `registers`, the stored value `before` and the value `value` that is
    /// to be written: `changed` are the values that the function left,
    /// `stored` is what it gave, and the function is held as it is from then
    /// on. No other attached function changes.
    pub open spec fn write_hook_ran(
        &self,
        after: &Self,
        addr: usize,
        registers: Map<usize, u64>,
        before: u64,
        value: u64,
        changed: Map<usize, u64>,
        stored: u64,
    ) -> bool {
        &&& self.write_fn@.contains_key(addr)
        &&& after.write_fn@.contains_key(addr)
        &&& self.write_fn@[addr].responds(
            registers,
            before,
            value,
            &after.write_fn@[addr],
            changed,
            stored,
        )
        &&& after.write_fn@ == self.write_fn@.insert(addr, after.write_fn@[addr])
        &&& after.read_fn@ == self.read_fn@
    }

    /// Whether `after` is this mock once a write of `value` to the register
    /// at `addr` called the function attached to its writes: the function
    /// was called with the values of the registers, the register at `addr`
    /// touched, with the value stored there and with `value`; what it gave
    /// is stored at `addr` on top of the values that it left.
    pub open spec fn hooked_write(&self, after: &Self, addr: usize, value: u64) -> bool {
        exists|changed: Map<usize, u64>| #[trigger]
            self.write_hook_ran(
                after,
                addr,
                self@.registers.insert(addr, self@.stored(addr)),
                self@.stored(addr),
                value,
                changed,
                after@.registers[addr],
            ) && after@.registers == changed.insert(addr, after@.registers[addr])
    }

    /// Whether `after` is this mock once a read of the register at `addr`
    /// that gave `value` called the function attached to its reads: the
    /// function was called with the values of the registers, the register
    /// at `addr` touched, and with the value stored there; `value` is what
    /// it gave, and the values of the registers are those that it left.
    pub open spec fn hooked_read(&self, after: &Self, addr: usize, value: u64) -> bool {
        self.read_hook_ran(
            after,
            addr,
            self@.registers.insert(addr, self@.stored(addr)),
            self@.stored(addr),
            value,
        )
    }

    /// The name that the resolver of this mock gives the register at `addr`.
    pub open spec fn spec_reg_name(&self, addr: usize) -> Option<Seq<char>> {
        match self.name_resolver {
            Some(names) => names.spec_name(addr as u64),
            None => None,
        }
    }

    /// A mock like the default one.
    pub fn new() -> (r: Self)
        ensures
            r@ == MockState::fresh(),
            r.name_resolver.is_none(),
    {
        Self::default()
    }

    /// A mock like the default one that names its registers by `resolver`.
    pub fn with_resolver(resolver: NameTable) -> (r: Self)
        ensures
            r@ == MockState::fresh(),
            r.name_resolver == Some(resolver),
    {
        let r = Regmock {
            log: RegmockLog::default(),
            register_mocks: HashMap::new(),
            read_fn: HashMap::new(),
            write_fn: HashMap::new(),
            log_enabled: true,
            callback_enabled: true,
            name_resolver: Some(resolver),
        };
        proof {
            assert(r@.read_hooks =~= Set::empty());
            assert(r@.write_hooks =~= Set::empty());
        }
        r
    }

    /// The value stored for the register at `addr`. A register that was
    /// never touched holds zero from now on.
    fn get_reg_value(&mut self, addr: usize) -> (r: u64)
        ensures
            r == old(self)@.stored(addr),
            final(self)@ == (MockState {
                registers: old(self)@.registers.insert(addr, r),
                ..old(self)@
            }),
            old(self).same_hooks(final(self)),
            final(self).name_resolver == old(self).name_resolver,
    {
        if self.register_mocks.contains_key(&addr) {
            let r = *self.register_mocks.get(&addr).unwrap();
            proof {
                assert(self@.registers =~= old(self)@.registers.insert(addr, r));
            }
            r
        } else {
            self.register_mocks.insert(addr, 0);
            0
        }
    }

    /// The value that a read of the register at `addr` gives: what the
    /// function attached to its reads returns, or the stored value where
    /// there is none or attached functions are disabled.
    fn exec_read_fn(&mut self, addr: usize, before: u64) -> (r: u64)
        ensures
            !old(self)@.read_is_hooked(addr) ==> r == before && final(self)@ == old(self)@
                && old(self).same_hooks(final(self)),
            old(self)@.read_is_hooked(addr) ==> old(self).read_hook_ran(
                final(self),
                addr,
                old(self)@.registers,
                before,
                r,
            ),
            final(self)@ == (MockState { registers: final(self)@.registers, ..old(self)@ }),
            final(self).name_resolver == old(self).name_resolver,
    {
        if !self.read_fn.contains_key(&addr) || !self.callback_enabled {
            before
        } else {
            let mut cb = self.read_fn.remove(&addr).unwrap();
            let r = cb.call(&mut self.register_mocks, before);
            self.read_fn.insert(addr, cb);
            proof {
                assert(self.read_fn@ =~= old(self).read_fn@.insert(addr, cb));
                assert(self@.read_hooks =~= old(self)@.read_hooks);
            }
            r
        }
    }

    /// The value that a write of `val` to the register at `addr` stores:
    /// what the function attached to its writes returns, or `val` where
    /// there is none or attached functions are disabled.
    fn exec_write_fn(&mut self, addr: usize, before: u64, val: u64) -> (r: u64)
        ensures
            !old(self)@.write_is_hooked(addr) ==> r == val && final(self)@ == old(self)@
                && old(self).same_hooks(final(self)),
            old(self)@.write_is_hooked(addr) ==> old(self).write_hook_ran(
                final(self),
                addr,
                old(self)@.registers,
                before,
                val,
                final(self)@.registers,
                r,
            ),
            final(self)@ == (MockState { registers: final(self)@.registers, ..old(self)@ }),
            final(self).name_resolver == old(self).name_resolver,
    {
        if !self.write_fn.contains_key(&addr) || !self.callback_enabled {
            val
        } else {
            let mut cb = self.write_fn.remove(&addr).unwrap();
            let r = cb.call(&mut self.register_mocks, before, val);
            self.write_fn.insert(addr, cb);
            proof {
                assert(self.write_fn@ =~= old(self).write_fn@.insert(addr, cb));
                assert(self@.write_hooks =~= old(self)@.write_hooks);
            }
            r
        }
    }

    /// A copy of the recorded accesses.
    pub fn get_logs(&self) -> (r: RegmockLog)
        ensures
            r.log@ == self.log.log@,
    {
        let mut out: Vec<(RegisterAccess, usize)> = Vec::new();
        let mut i: usize = 0;
        while i < self.log.log.len()
            invariant
                i <= self.log.log@.len(),
                out@ == self.log.log@.subrange(0, i as int),
            decreases self.log.log@.len() - i,
        {
            out.push(self.log.log[i]);
            i = i + 1;
            proof {
                assert(out@ =~= self.log.log@.subrange(0, i as int));
            }
        }
        proof {
            assert(out@ =~= self.log.log@);
        }
        RegmockLog { log: out }
    }

    /// The name of the register at `addr`, where the mock has a resolver
    /// and the resolver knows the register.
    pub fn get_reg_name(&self, addr: usize) -> (r: Option<&'static str>)
        ensures
            match r {
                Some(s) => self.spec_reg_name(addr) == Some(s@),
                None => self.spec_reg_name(addr).is_none(),
            },
    {
        match &self.name_resolver {
            Some(names) => names.name(addr as u64),
            None => None,
        }
    }

    /// Hands `entry` to the log: it is recorded where recording is enabled.
    fn record(&mut self, entry: RegisterAccess)
        ensures
            final(self)@ == (MockState { log: old(self)@.logged(entry), ..old(self)@ }),
            old(self).same_hooks(final(self)),
            final(self).name_resolver == old(self).name_resolver,
    {
        if self.log_enabled {
            self.log.push_log_entry(entry);
        }
    }

    /// Ends a read of `len` bytes of the register at `addr` that found
    /// `before` stored and gives `after`: the read is recorded, where
    /// recording is enabled, and `after` is returned. Nothing is stored.
    pub fn complete_read(&mut self, addr: usize, len: usize, before: u64, after: u64) -> (r: u64)
        ensures
            r == after,
            final(self)@ == (MockState {
                log: old(self)@.logged(
                    RegisterAccess::spec_new(RegisterAccessType::READ, addr, len, before, after),
                ),
                ..old(self)@
            }),
            old(self).same_hooks(final(self)),
            final(self).name_resolver == old(self).name_resolver,
    {
        self.record(RegisterAccess::new(RegisterAccessType::READ, addr, len, before, after));
        after
    }

    /// Ends a write of `len` bytes to the register at `addr` that found
    /// `before` stored and commits `after`: the write is recorded, where
    /// recording is enabled, and `after` is stored whether or not it is.
    pub fn complete_write(&mut self, addr: usize, len: usize, before: u64, after: u64)
        ensures
            final(self)@ == (MockState {
                registers: old(self)@.registers.insert(addr, after),
                log: old(self)@.logged(
                    RegisterAccess::spec_new(RegisterAccessType::WRITE, addr, len, before, after),
                ),
                ..old(self)@
            }),
            old(self).same_hooks(final(self)),
            final(self).name_resolver == old(self).name_resolver,
    {
        self.record(RegisterAccess::new(RegisterAccessType::WRITE, addr, len, before, after));
        self.register_mocks.insert(addr, after);
    }

    /// Reads `len` bytes of the register at `addr` and returns the value.
    ///
    /// The value is the stored one, zero for a register that was never
    /// touched, unless a function is attached to the reads of the register
    /// and attached functions are enabled: then it is what that function
    /// returns. The read is recorded, where recording is enabled, with the
    /// stored value as the value before and the returned value as the value
    /// after. The returned value is not stored.
    pub fn read_volatile(&mut self, addr: usize, len: usize) -> (r: u64)
        ensures
            !old(self)@.read_is_hooked(addr) ==> r == old(self)@.stored(addr) && final(self)@
                == old(self)@.plain_read(addr, len) && old(self).same_hooks(final(self)),
            old(self)@.read_is_hooked(addr) ==> old(self).hooked_read(final(self), addr, r),
            final(self)@ == old(self)@.after_read(addr, len, final(self)@.registers, r),
            final(self).name_resolver == old(self).name_resolver,
    {
        let before = self.get_reg_value(addr);
        let after = self.exec_read_fn(addr, before);
        self.complete_read(addr, len, before, after)
    }

    /// Writes `len` bytes of `val` to the register at `addr`.
    ///
    /// The value stored is `val`, unless a function is attached to the
    /// writes to the register and attached functions are enabled: then it is
    /// what that function returns. The write is recorded, where recording
    /// is enabled, with the value stored before and the value stored after.
    /// The value is stored whether or not the write is recorded.
    pub fn write_volatile(&mut self, addr: usize, len: usize, val: u64)
        ensures
            !old(self)@.write_is_hooked(addr) ==> final(self)@ == old(self)@.plain_write(
                addr,
                len,
                val,
            ) && old(self).same_hooks(final(self)),
            old(self)@.write_is_hooked(addr) ==> old(self).hooked_write(final(self), addr, val),
            final(self)@.registers.contains_key(addr),
            final(self)@ == old(self)@.after_write(
                addr,
                len,
                final(self)@.registers,
                final(self)@.registers[addr],
            ),
            final(self).name_resolver == old(self).name_resolver,
    {
        let before = self.get_reg_value(addr);
        let ghost touched = self@.registers;
        let ghost held = *self;
        let after = self.exec_write_fn(addr, before, val);
        let ghost changed = self@.registers;
        let ghost called = *self;
        self.complete_write(addr, len, before, after);
        proof {
            assert(self@.registers =~= self@.registers.insert(addr, after));
            if old(self)@.write_is_hooked(addr) {
                assert(held.write_hook_ran(&called, addr, touched, before, val, changed, after));
                assert(self@.registers == changed.insert(addr, after));
                assert(self@.registers[addr] == after);
                assert(touched == old(self)@.registers.insert(addr, old(self)@.stored(addr)));
                assert(old(self).write_hook_ran(
                    self,
                    addr,
                    old(self)@.registers.insert(addr, old(self)@.stored(addr)),
                    old(self)@.stored(addr),
                    val,
                    changed,
                    self@.registers[addr],
                ));
            }
        }
    }

    /// Updates the register at `addr` in place, as one operation: the same
    /// as a write of `val`, and recorded as a write.
    pub fn load_modify_store(&mut self, addr: usize, len: usize, val: u64)
        ensures
            !old(self)@.write_is_hooked(addr) ==> final(self)@ == old(self)@.plain_write(
                addr,
                len,
                val,
            ) && old(self).same_hooks(final(self)),
            old(self)@.write_is_hooked(addr) ==> old(self).hooked_write(final(self), addr, val),
            final(self)@.registers.contains_key(addr),
            final(self)@ == old(self)@.after_write(
                addr,
                len,
                final(self)@.registers,
                final(self)@.registers[addr],
            ),
            final(self).name_resolver == old(self).name_resolver,
    {
        self.write_volatile(addr, len, val);
    }
}

/// The first read of a register that was never touched gives zero, and is
/// recorded with zero as the value before, whatever the value that the read
/// gives.
pub proof fn untouched_register_reads_zero(
    state: MockState,
    addr: usize,
    len: usize,
    registers: Map<usize, u64>,
    apparent: u64,
)
    requires
        !state.registers.contains_key(addr),
    ensures
        state.stored(addr) == 0,
        !state.read_is_hooked(addr) ==> state.plain_read(addr, len).log == state.logged(
            RegisterAccess::spec_new(RegisterAccessType::READ, addr, len, 0, 0),
        ),
        state.after_read(addr, len, registers, apparent).log == state.logged(
            RegisterAccess::spec_new(RegisterAccessType::READ, addr, len, 0, apparent),
        ),
        MockState::fresh().stored(addr) == 0,
{
}

/// A write without an attached function, then a read without one, gives
/// the value written, whatever the lengths of the two accesses and whether
/// or not they are recorded.
pub proof fn read_after_write_gives_written(
    state: MockState,
    addr: usize,
    len: usize,
    value: u64,
    read_len: usize,
)
    ensures
        state.plain_write(addr, len, value).stored(addr) == value,
        state.plain_write(addr, len, value).plain_read(addr, read_len).stored(addr) == value,
        state.plain_write(addr, len, value).plain_read(addr, read_len).registers
            == state.plain_write(addr, len, value).registers,
{
    let written = state.plain_write(addr, len, value);
    assert(written.registers.insert(addr, value) =~= written.registers);
}

/// A read without an attached function changes no stored value.
pub proof fn plain_read_keeps_values(state: MockState, addr: usize, len: usize, other: usize)
    ensures
        state.plain_read(addr, len).stored(other) == state.stored(other),
{
}

/// An access changes the log only where recording is enabled, and the
/// value of the register whether or not it is.
pub proof fn unrecorded_write_is_stored(state: MockState, addr: usize, len: usize, value: u64)
    requires
        !state.log_enabled,
    ensures
        state.plain_write(addr, len, value).log == state.log,
        state.plain_write(addr, len, value).stored(addr) == value,
        state.plain_read(addr, len).log == state.log,
{
}

} // verus!
