//! The GPIO peripheral: the levels read, the levels driven, and the
//! direction of each pin.
use vstd::prelude::*;

pub mod we;

use crate::pac::common::{Reg, RegSpec, RegValueT, RegisterField, RegisterFieldBool, R, RW};

verus! {

/// The GPIO peripheral.
#[derive(Copy, Clone, Debug)]
pub struct Gpio(pub(crate) usize);

impl Gpio {
    /// The registers of the peripheral lie within the address space.
    #[verifier::type_invariant]
    spec fn in_address_space(self) -> bool {
        self.0 + 44 <= usize::MAX
    }

    /// The address at which the registers of the peripheral begin.
    pub closed spec fn spec_base(&self) -> usize {
        self.0
    }

    /// The peripheral whose registers begin at `base`.
    pub fn at(base: usize) -> (r: Self)
        requires
            base + 44 <= usize::MAX,
        ensures
            r.spec_base() == base,
    {
        Gpio(base)
    }

    /// The register in.
    pub fn in_(&self) -> (r: Reg<In_SPEC, R>)
        ensures
            r.spec_addr() == self.spec_base() + 32,
    {
        proof {
            use_type_invariant(self);
        }
        Reg::from_ptr(self.0 + 32)
    }

    /// The register out.
    pub fn out(&self) -> (r: Reg<Out_SPEC, RW>)
        ensures
            r.spec_addr() == self.spec_base() + 44,
    {
        proof {
            use_type_invariant(self);
        }
        Reg::from_ptr(self.0 + 44)
    }

    /// The register we.
    pub fn we(&self) -> (r: Reg<We_SPEC, RW>)
        ensures
            r.spec_addr() == self.spec_base() + 36,
    {
        proof {
            use_type_invariant(self);
        }
        Reg::from_ptr(self.0 + 36)
    }
}

/// The kind of the register in.
#[allow(non_camel_case_types)]
#[derive(Copy, Clone, Eq, PartialEq, Debug)]
pub struct In_SPEC;

impl RegSpec for In_SPEC {
    type DataType = u32;
}

/// The levels read on the pins.
pub type In = RegValueT<In_SPEC>;

impl In {
    /// Level of GPIO0.
    pub fn gpio0(self) -> (r: RegisterFieldBool<0, 1, 0, In_SPEC, R>)
        ensures
            r.spec_register() == self,
            r.spec_offset() == 0,
    {
        RegisterFieldBool::from_register(self, 0)
    }

    /// Level of GPIO1.
    pub fn gpio1(self) -> (r: RegisterFieldBool<1, 1, 0, In_SPEC, R>)
        ensures
            r.spec_register() == self,
            r.spec_offset() == 1,
    {
        RegisterFieldBool::from_register(self, 0)
    }

    /// Level of GPIO2.
    pub fn gpio2(self) -> (r: RegisterFieldBool<2, 1, 0, In_SPEC, R>)
        ensures
            r.spec_register() == self,
            r.spec_offset() == 2,
    {
        RegisterFieldBool::from_register(self, 0)
    }

    /// Level of GPIO3.
    pub fn gpio3(self) -> (r: RegisterFieldBool<3, 1, 0, In_SPEC, R>)
        ensures
            r.spec_register() == self,
            r.spec_offset() == 3,
    {
        RegisterFieldBool::from_register(self, 0)
    }

    /// Level of GPIO4.
    pub fn gpio4(self) -> (r: RegisterFieldBool<4, 1, 0, In_SPEC, R>)
        ensures
            r.spec_register() == self,
            r.spec_offset() == 4,
    {
        RegisterFieldBool::from_register(self, 0)
    }

    /// Level of GPIO5.
    pub fn gpio5(self) -> (r: RegisterFieldBool<5, 1, 0, In_SPEC, R>)
        ensures
            r.spec_register() == self,
            r.spec_offset() == 5,
    {
        RegisterFieldBool::from_register(self, 0)
    }

    /// Level of GPIO6.
    pub fn gpio6(self) -> (r: RegisterFieldBool<6, 1, 0, In_SPEC, R>)
        ensures
            r.spec_register() == self,
            r.spec_offset() == 6,
    {
        RegisterFieldBool::from_register(self, 0)
    }

    /// Level of GPIO7.
    pub fn gpio7(self) -> (r: RegisterFieldBool<7, 1, 0, In_SPEC, R>)
        ensures
            r.spec_register() == self,
            r.spec_offset() == 7,
    {
        RegisterFieldBool::from_register(self, 0)
    }

    /// Level of GPIO8.
    pub fn gpio8(self) -> (r: RegisterFieldBool<8, 1, 0, In_SPEC, R>)
        ensures
            r.spec_register() == self,
            r.spec_offset() == 8,
    {
        RegisterFieldBool::from_register(self, 0)
    }

    /// Level of GPIO9.
    pub fn gpio9(self) -> (r: RegisterFieldBool<9, 1, 0, In_SPEC, R>)
        ensures
            r.spec_register() == self,
            r.spec_offset() == 9,
    {
        RegisterFieldBool::from_register(self, 0)
    }

    /// Level of GPIO10.
    pub fn gpio10(self) -> (r: RegisterFieldBool<10, 1, 0, In_SPEC, R>)
        ensures
            r.spec_register() == self,
            r.spec_offset() == 10,
    {
        RegisterFieldBool::from_register(self, 0)
    }

    /// Level of GPIO11.
    pub fn gpio11(self) -> (r: RegisterFieldBool<11, 1, 0, In_SPEC, R>)
        ensures
            r.spec_register() == self,
            r.spec_offset() == 11,
    {
        RegisterFieldBool::from_register(self, 0)
    }
}

/// The kind of the register out.
#[allow(non_camel_case_types)]
#[derive(Copy, Clone, Eq, PartialEq, Debug)]
pub struct Out_SPEC;

impl RegSpec for Out_SPEC {
    type DataType = u32;
}

/// The levels driven on the pins.
pub type Out = RegValueT<Out_SPEC>;

impl Out {
    /// Level to drive on GPIO0 if selected and enabled.
    pub fn gpio0(self) -> (r: RegisterFieldBool<0, 1, 0, Out_SPEC, RW>)
        ensures
            r.spec_register() == self,
            r.spec_offset() == 0,
    {
        RegisterFieldBool::from_register(self, 0)
    }

    /// Level to drive on GPIO1 if selected and enabled.
    pub fn gpio1(self) -> (r: RegisterFieldBool<1, 1, 0, Out_SPEC, RW>)
        ensures
            r.spec_register() == self,
            r.spec_offset() == 1,
    {
        RegisterFieldBool::from_register(self, 0)
    }

    /// Level to drive on GPIO2 if selected and enabled.
    pub fn gpio2(self) -> (r: RegisterFieldBool<2, 1, 0, Out_SPEC, RW>)
        ensures
            r.spec_register() == self,
            r.spec_offset() == 2,
    {
        RegisterFieldBool::from_register(self, 0)
    }

    /// Level to drive on GPIO3 if selected and enabled.
    pub fn gpio3(self) -> (r: RegisterFieldBool<3, 1, 0, Out_SPEC, RW>)
        ensures
            r.spec_register() == self,
            r.spec_offset() == 3,
    {
        RegisterFieldBool::from_register(self, 0)
    }

    /// Level to drive on GPIO4 if selected and enabled.
    pub fn gpio4(self) -> (r: RegisterFieldBool<4, 1, 0, Out_SPEC, RW>)
        ensures
            r.spec_register() == self,
            r.spec_offset() == 4,
    {
        RegisterFieldBool::from_register(self, 0)
    }

    /// Level to drive on GPIO5 if selected and enabled.
    pub fn gpio5(self) -> (r: RegisterFieldBool<5, 1, 0, Out_SPEC, RW>)
        ensures
            r.spec_register() == self,
            r.spec_offset() == 5,
    {
        RegisterFieldBool::from_register(self, 0)
    }

    /// Level to drive on GPIO6 if selected and enabled.
    pub fn gpio6(self) -> (r: RegisterFieldBool<6, 1, 0, Out_SPEC, RW>)
        ensures
            r.spec_register() == self,
            r.spec_offset() == 6,
    {
        RegisterFieldBool::from_register(self, 0)
    }

    /// Level to drive on GPIO7 if selected and enabled.
    pub fn gpio7(self) -> (r: RegisterFieldBool<7, 1, 0, Out_SPEC, RW>)
        ensures
            r.spec_register() == self,
            r.spec_offset() == 7,
    {
        RegisterFieldBool::from_register(self, 0)
    }

    /// Level to drive on GPIO8 if selected and enabled.
    pub fn gpio8(self) -> (r: RegisterFieldBool<8, 1, 0, Out_SPEC, RW>)
        ensures
            r.spec_register() == self,
            r.spec_offset() == 8,
    {
        RegisterFieldBool::from_register(self, 0)
    }

    /// Level to drive on GPIO9 if selected and enabled.
    pub fn gpio9(self) -> (r: RegisterFieldBool<9, 1, 0, Out_SPEC, RW>)
        ensures
            r.spec_register() == self,
            r.spec_offset() == 9,
    {
        RegisterFieldBool::from_register(self, 0)
    }

    /// Level to drive on GPIO10 if selected and enabled.
    pub fn gpio10(self) -> (r: RegisterFieldBool<10, 1, 0, Out_SPEC, RW>)
        ensures
            r.spec_register() == self,
            r.spec_offset() == 10,
    {
        RegisterFieldBool::from_register(self, 0)
    }

    /// Level to drive on GPIO11 if selected and enabled.
    pub fn gpio11(self) -> (r: RegisterFieldBool<11, 1, 0, Out_SPEC, RW>)
        ensures
            r.spec_register() == self,
            r.spec_offset() == 11,
    {
        RegisterFieldBool::from_register(self, 0)
    }
}

/// The kind of the register we.
#[allow(non_camel_case_types)]
#[derive(Copy, Clone, Eq, PartialEq, Debug)]
pub struct We_SPEC;

impl RegSpec for We_SPEC {
    type DataType = u32;
}

/// The direction of the pins.
pub type We = RegValueT<We_SPEC>;

impl We {
    /// Direction of GPIO0.
    pub fn gpio0(self) -> (r: RegisterField<0, 0x1, 1, 0, crate::pac::gpio::we::Gpio0, We_SPEC, RW>)
        ensures
            r.spec_register() == self,
            r.spec_offset() == 0,
    {
        RegisterField::from_register(self, 0)
    }

    /// Direction of GPIO1.
    pub fn gpio1(self) -> (r: RegisterField<1, 0x1, 1, 0, crate::pac::gpio::we::Gpio1, We_SPEC, RW>)
        ensures
            r.spec_register() == self,
            r.spec_offset() == 1,
    {
        RegisterField::from_register(self, 0)
    }

    /// Direction of GPIO2.
    pub fn gpio2(self) -> (r: RegisterField<2, 0x1, 1, 0, crate::pac::gpio::we::Gpio2, We_SPEC, RW>)
        ensures
            r.spec_register() == self,
            r.spec_offset() == 2,
    {
        RegisterField::from_register(self, 0)
    }

    /// Direction of GPIO3.
    pub fn gpio3(self) -> (r: RegisterField<3, 0x1, 1, 0, crate::pac::gpio::we::Gpio3, We_SPEC, RW>)
        ensures
            r.spec_register() == self,
            r.spec_offset() == 3,
    {
        RegisterField::from_register(self, 0)
    }

    /// Direction of GPIO4.
    pub fn gpio4(self) -> (r: RegisterField<4, 0x1, 1, 0, crate::pac::gpio::we::Gpio4, We_SPEC, RW>)
        ensures
            r.spec_register() == self,
            r.spec_offset() == 4,
    {
        RegisterField::from_register(self, 0)
    }

    /// Direction of GPIO5.
    pub fn gpio5(self) -> (r: RegisterField<5, 0x1, 1, 0, crate::pac::gpio::we::Gpio5, We_SPEC, RW>)
        ensures
            r.spec_register() == self,
            r.spec_offset() == 5,
    {
        RegisterField::from_register(self, 0)
    }

    /// Direction of GPIO6.
    pub fn gpio6(self) -> (r: RegisterField<6, 0x1, 1, 0, crate::pac::gpio::we::Gpio6, We_SPEC, RW>)
        ensures
            r.spec_register() == self,
            r.spec_offset() == 6,
    {
        RegisterField::from_register(self, 0)
    }

    /// Direction of GPIO7.
    pub fn gpio7(self) -> (r: RegisterField<7, 0x1, 1, 0, crate::pac::gpio::we::Gpio7, We_SPEC, RW>)
        ensures
            r.spec_register() == self,
            r.spec_offset() == 7,
    {
        RegisterField::from_register(self, 0)
    }

    /// Direction of GPIO8.
    pub fn gpio8(self) -> (r: RegisterField<8, 0x1, 1, 0, crate::pac::gpio::we::Gpio8, We_SPEC, RW>)
        ensures
            r.spec_register() == self,
            r.spec_offset() == 8,
    {
        RegisterField::from_register(self, 0)
    }

    /// Direction of GPIO9.
    pub fn gpio9(self) -> (r: RegisterField<9, 0x1, 1, 0, crate::pac::gpio::we::Gpio9, We_SPEC, RW>)
        ensures
            r.spec_register() == self,
            r.spec_offset() == 9,
    {
        RegisterField::from_register(self, 0)
    }

    /// Direction of GPIO10.
    pub fn gpio10(self) -> (r: RegisterField<10, 0x1, 1, 0, crate::pac::gpio::we::Gpio10, We_SPEC, RW>)
        ensures
            r.spec_register() == self,
            r.spec_offset() == 10,
    {
        RegisterField::from_register(self, 0)
    }

    /// Direction of GPIO11.
    pub fn gpio11(self) -> (r: RegisterField<11, 0x1, 1, 0, crate::pac::gpio::we::Gpio11, We_SPEC, RW>)
        ensures
            r.spec_register() == self,
            r.spec_offset() == 11,
    {
        RegisterField::from_register(self, 0)
    }
}

} // verus!
