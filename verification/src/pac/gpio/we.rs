//! The directions of the pins.
use vstd::prelude::*;
use std::marker::PhantomData;
use crate::pac::common::EnumBitfieldStruct;

verus! {

/// The kind of the direction of pin 0.
#[allow(non_camel_case_types)]
#[derive(Clone, Copy, Eq, PartialEq, Debug)]
pub struct Gpio0_SPEC;

/// The direction of pin 0.
pub type Gpio0 = EnumBitfieldStruct<u8, Gpio0_SPEC>;

impl Gpio0 {
    /// The pin is an input.
    pub fn input() -> (r: Self)
        ensures
            r.0 == 0,
    {
        EnumBitfieldStruct(0, PhantomData)
    }

    /// The pin is an output.
    pub fn output() -> (r: Self)
        ensures
            r.0 == 1,
    {
        EnumBitfieldStruct(1, PhantomData)
    }
}

/// The kind of the direction of pin 1.
#[allow(non_camel_case_types)]
#[derive(Clone, Copy, Eq, PartialEq, Debug)]
pub struct Gpio1_SPEC;

/// The direction of pin 1.
pub type Gpio1 = EnumBitfieldStruct<u8, Gpio1_SPEC>;

impl Gpio1 {
    /// The pin is an input.
    pub fn input() -> (r: Self)
        ensures
            r.0 == 0,
    {
        EnumBitfieldStruct(0, PhantomData)
    }

    /// The pin is an output.
    pub fn output() -> (r: Self)
        ensures
            r.0 == 1,
    {
        EnumBitfieldStruct(1, PhantomData)
    }
}

/// The kind of the direction of pin 2.
#[allow(non_camel_case_types)]
#[derive(Clone, Copy, Eq, PartialEq, Debug)]
pub struct Gpio2_SPEC;

/// The direction of pin 2.
pub type Gpio2 = EnumBitfieldStruct<u8, Gpio2_SPEC>;

impl Gpio2 {
    /// The pin is an input.
    pub fn input() -> (r: Self)
        ensures
            r.0 == 0,
    {
        EnumBitfieldStruct(0, PhantomData)
    }

    /// The pin is an output.
    pub fn output() -> (r: Self)
        ensures
            r.0 == 1,
    {
        EnumBitfieldStruct(1, PhantomData)
    }
}

/// The kind of the direction of pin 3.
#[allow(non_camel_case_types)]
#[derive(Clone, Copy, Eq, PartialEq, Debug)]
pub struct Gpio3_SPEC;

/// The direction of pin 3.
pub type Gpio3 = EnumBitfieldStruct<u8, Gpio3_SPEC>;

impl Gpio3 {
    /// The pin is an input.
    pub fn input() -> (r: Self)
        ensures
            r.0 == 0,
    {
        EnumBitfieldStruct(0, PhantomData)
    }

    /// The pin is an output.
    pub fn output() -> (r: Self)
        ensures
            r.0 == 1,
    {
        EnumBitfieldStruct(1, PhantomData)
    }
}

/// The kind of the direction of pin 4.
#[allow(non_camel_case_types)]
#[derive(Clone, Copy, Eq, PartialEq, Debug)]
pub struct Gpio4_SPEC;

/// The direction of pin 4.
pub type Gpio4 = EnumBitfieldStruct<u8, Gpio4_SPEC>;

impl Gpio4 {
    /// The pin is an input.
    pub fn input() -> (r: Self)
        ensures
            r.0 == 0,
    {
        EnumBitfieldStruct(0, PhantomData)
    }

    /// The pin is an output.
    pub fn output() -> (r: Self)
        ensures
            r.0 == 1,
    {
        EnumBitfieldStruct(1, PhantomData)
    }
}

/// The kind of the direction of pin 5.
#[allow(non_camel_case_types)]
#[derive(Clone, Copy, Eq, PartialEq, Debug)]
pub struct Gpio5_SPEC;

/// The direction of pin 5.
pub type Gpio5 = EnumBitfieldStruct<u8, Gpio5_SPEC>;

impl Gpio5 {
    /// The pin is an input.
    pub fn input() -> (r: Self)
        ensures
            r.0 == 0,
    {
        EnumBitfieldStruct(0, PhantomData)
    }

    /// The pin is an output.
    pub fn output() -> (r: Self)
        ensures
            r.0 == 1,
    {
        EnumBitfieldStruct(1, PhantomData)
    }
}

/// The kind of the direction of pin 6.
#[allow(non_camel_case_types)]
#[derive(Clone, Copy, Eq, PartialEq, Debug)]
pub struct Gpio6_SPEC;

/// The direction of pin 6.
pub type Gpio6 = EnumBitfieldStruct<u8, Gpio6_SPEC>;

impl Gpio6 {
    /// The pin is an input.
    pub fn input() -> (r: Self)
        ensures
            r.0 == 0,
    {
        EnumBitfieldStruct(0, PhantomData)
    }

    /// The pin is an output.
    pub fn output() -> (r: Self)
        ensures
            r.0 == 1,
    {
        EnumBitfieldStruct(1, PhantomData)
    }
}

/// The kind of the direction of pin 7.
#[allow(non_camel_case_types)]
#[derive(Clone, Copy, Eq, PartialEq, Debug)]
pub struct Gpio7_SPEC;

/// The direction of pin 7.
pub type Gpio7 = EnumBitfieldStruct<u8, Gpio7_SPEC>;

impl Gpio7 {
    /// The pin is an input.
    pub fn input() -> (r: Self)
        ensures
            r.0 == 0,
    {
        EnumBitfieldStruct(0, PhantomData)
    }

    /// The pin is an output.
    pub fn output() -> (r: Self)
        ensures
            r.0 == 1,
    {
        EnumBitfieldStruct(1, PhantomData)
    }
}

/// The kind of the direction of pin 8.
#[allow(non_camel_case_types)]
#[derive(Clone, Copy, Eq, PartialEq, Debug)]
pub struct Gpio8_SPEC;

/// The direction of pin 8.
pub type Gpio8 = EnumBitfieldStruct<u8, Gpio8_SPEC>;

impl Gpio8 {
    /// The pin is an input.
    pub fn input() -> (r: Self)
        ensures
            r.0 == 0,
    {
        EnumBitfieldStruct(0, PhantomData)
    }

    /// The pin is an output.
    pub fn output() -> (r: Self)
        ensures
            r.0 == 1,
    {
        EnumBitfieldStruct(1, PhantomData)
    }
}

/// The kind of the direction of pin 9.
#[allow(non_camel_case_types)]
#[derive(Clone, Copy, Eq, PartialEq, Debug)]
pub struct Gpio9_SPEC;

/// The direction of pin 9.
pub type Gpio9 = EnumBitfieldStruct<u8, Gpio9_SPEC>;

impl Gpio9 {
    /// The pin is an input.
    pub fn input() -> (r: Self)
        ensures
            r.0 == 0,
    {
        EnumBitfieldStruct(0, PhantomData)
    }

    /// The pin is an output.
    pub fn output() -> (r: Self)
        ensures
            r.0 == 1,
    {
        EnumBitfieldStruct(1, PhantomData)
    }
}

/// The kind of the direction of pin 10.
#[allow(non_camel_case_types)]
#[derive(Clone, Copy, Eq, PartialEq, Debug)]
pub struct Gpio10_SPEC;

/// The direction of pin 10.
pub type Gpio10 = EnumBitfieldStruct<u8, Gpio10_SPEC>;

impl Gpio10 {
    /// The pin is an input.
    pub fn input() -> (r: Self)
        ensures
            r.0 == 0,
    {
        EnumBitfieldStruct(0, PhantomData)
    }

    /// The pin is an output.
    pub fn output() -> (r: Self)
        ensures
            r.0 == 1,
    {
        EnumBitfieldStruct(1, PhantomData)
    }
}

/// The kind of the direction of pin 11.
#[allow(non_camel_case_types)]
#[derive(Clone, Copy, Eq, PartialEq, Debug)]
pub struct Gpio11_SPEC;

/// The direction of pin 11.
pub type Gpio11 = EnumBitfieldStruct<u8, Gpio11_SPEC>;

impl Gpio11 {
    /// The pin is an input.
    pub fn input() -> (r: Self)
        ensures
            r.0 == 0,
    {
        EnumBitfieldStruct(0, PhantomData)
    }

    /// The pin is an output.
    pub fn output() -> (r: Self)
        ensures
            r.0 == 1,
    {
        EnumBitfieldStruct(1, PhantomData)
    }
}

} // verus!
