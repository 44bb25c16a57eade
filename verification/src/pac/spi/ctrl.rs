//! The values of the fields of the control register.
use vstd::prelude::*;
use std::marker::PhantomData;
use crate::pac::common::EnumBitfieldStruct;

verus! {

/// The kind of the clock phase.
#[allow(non_camel_case_types)]
#[derive(Clone, Copy, Eq, PartialEq, Debug)]
pub struct Cpha_SPEC;

/// The clock phase.
pub type Cpha = EnumBitfieldStruct<u8, Cpha_SPEC>;

impl Cpha {
    /// The first edge latches.
    pub fn cpha_first_latches() -> (r: Self)
        ensures
            r.0 == 0,
    {
        EnumBitfieldStruct(0, PhantomData)
    }

    /// The first edge shifts.
    pub fn cpha_first_shifts() -> (r: Self)
        ensures
            r.0 == 1,
    {
        EnumBitfieldStruct(1, PhantomData)
    }
}

} // verus!
