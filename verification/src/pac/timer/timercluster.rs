//! The registers of one cluster of the timer.
use vstd::prelude::*;
use crate::pac::common::{RegSpec, RegValueT, RegisterField, RegisterFieldBool, RW};

verus! {

/// The kind of the register count.
#[allow(non_camel_case_types)]
#[derive(Copy, Clone, Eq, PartialEq, Debug)]
pub struct Count_SPEC;

impl RegSpec for Count_SPEC {
    type DataType = u32;
}

/// The counter.
pub type Count = RegValueT<Count_SPEC>;

impl Count {
    /// The count register stores the actual counter value.
    pub fn value(self) -> (r: RegisterField<0, 0xffffffff, 1, 0, u32, Count_SPEC, RW>)
        ensures
            r.spec_register() == self,
            r.spec_offset() == 0,
    {
        RegisterField::from_register(self, 0)
    }
}

/// The kind of the register ctrlstat.
#[allow(non_camel_case_types)]
#[derive(Copy, Clone, Eq, PartialEq, Debug)]
pub struct Ctrlstat_SPEC;

impl RegSpec for Ctrlstat_SPEC {
    type DataType = u32;
}

/// Control and status of the timer.
pub type Ctrlstat = RegValueT<Ctrlstat_SPEC>;

impl Ctrlstat {
    /// Enable Timer / Counter.
    pub fn enable(self) -> (r: RegisterFieldBool<0, 1, 0, Ctrlstat_SPEC, RW>)
        ensures
            r.spec_register() == self,
            r.spec_offset() == 0,
    {
        RegisterFieldBool::from_register(self, 0)
    }

    /// Asynchronous signals get synchronized with the Timer/Counter clock.
    pub fn reset_in(self) -> (r: RegisterField<1, 0x7, 1, 0, u8, Ctrlstat_SPEC, RW>)
        ensures
            r.spec_register() == self,
            r.spec_offset() == 1,
    {
        RegisterField::from_register(self, 0)
    }

    /// Select external clock source.
    pub fn clock(self) -> (r: RegisterField<4, 0x7, 1, 0, u8, Ctrlstat_SPEC, RW>)
        ensures
            r.spec_register() == self,
            r.spec_offset() == 4,
    {
        RegisterField::from_register(self, 0)
    }

    /// If set, an interrupt will be triggered if an underflow occurs.
    pub fn underflow_irq(self) -> (r: RegisterFieldBool<7, 1, 0, Ctrlstat_SPEC, RW>)
        ensures
            r.spec_register() == self,
            r.spec_offset() == 7,
    {
        RegisterFieldBool::from_register(self, 0)
    }
}

/// The kind of the register max.
#[allow(non_camel_case_types)]
#[derive(Copy, Clone, Eq, PartialEq, Debug)]
pub struct Max_SPEC;

impl RegSpec for Max_SPEC {
    type DataType = u32;
}

/// The maximum of the counter.
pub type Max = RegValueT<Max_SPEC>;

impl Max {
    /// The max register contains the maximal value of the counter (count). On a Timer/Counter reset this value is copied into count.
    pub fn value(self) -> (r: RegisterField<0, 0xffffffff, 1, 0, u32, Max_SPEC, RW>)
        ensures
            r.spec_register() == self,
            r.spec_offset() == 0,
    {
        RegisterField::from_register(self, 0)
    }
}

} // verus!
