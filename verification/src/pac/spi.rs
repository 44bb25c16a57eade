//! The SPI slave peripheral.
use vstd::prelude::*;

pub mod ctrl;

use crate::pac::common::{Reg, RegSpec, RegValueT, RegisterField, RegisterFieldBool, R, RW, W};

verus! {

/// SPI Slave peripheral.
#[derive(Copy, Clone, Debug)]
pub struct Spi(pub(crate) usize);

impl Spi {
    /// The registers of the peripheral lie within the address space.
    #[verifier::type_invariant]
    spec fn in_address_space(self) -> bool {
        self.0 + 12 <= usize::MAX
    }

    /// The address at which the registers of the peripheral begin.
    pub closed spec fn spec_base(&self) -> usize {
        self.0
    }

    /// The peripheral whose registers begin at `base`.
    pub fn at(base: usize) -> (r: Self)
        requires
            base + 12 <= usize::MAX,
        ensures
            r.spec_base() == base,
    {
        Spi(base)
    }

    /// Control register.
    pub fn ctrl(&self) -> (r: Reg<Ctrl_SPEC, RW>)
        ensures
            r.spec_addr() == self.spec_base() + 4,
    {
        proof {
            use_type_invariant(self);
        }
        Reg::from_ptr(self.0 + 4)
    }

    /// Receive FIFO.
    pub fn rx(&self) -> (r: Reg<Rx_SPEC, RW>)
        ensures
            r.spec_addr() == self.spec_base() + 12,
    {
        proof {
            use_type_invariant(self);
        }
        Reg::from_ptr(self.0 + 12)
    }

    /// Status register.
    pub fn status(&self) -> (r: Reg<Status_SPEC, RW>)
        ensures
            r.spec_addr() == self.spec_base() + 0,
    {
        proof {
            use_type_invariant(self);
        }
        Reg::from_ptr(self.0 + 0)
    }

    /// Transmit FIFO.
    pub fn tx(&self) -> (r: Reg<Tx_SPEC, RW>)
        ensures
            r.spec_addr() == self.spec_base() + 8,
    {
        proof {
            use_type_invariant(self);
        }
        Reg::from_ptr(self.0 + 8)
    }
}

/// The kind of the register ctrl.
#[allow(non_camel_case_types)]
#[derive(Copy, Clone, Eq, PartialEq, Debug)]
pub struct Ctrl_SPEC;

impl RegSpec for Ctrl_SPEC {
    type DataType = u32;
}

/// Control register.
pub type Ctrl = RegValueT<Ctrl_SPEC>;

impl Ctrl {
    /// Global module enable.
    pub fn en(self) -> (r: RegisterFieldBool<0, 1, 0, Ctrl_SPEC, RW>)
        ensures
            r.spec_register() == self,
            r.spec_offset() == 0,
    {
        RegisterFieldBool::from_register(self, 0)
    }

    /// 0 to latch on first edge, 1 to shift.
    pub fn cpha(self) -> (r: RegisterField<1, 0x1, 1, 0, crate::pac::spi::ctrl::Cpha, Ctrl_SPEC, RW>)
        ensures
            r.spec_register() == self,
            r.spec_offset() == 1,
    {
        RegisterField::from_register(self, 0)
    }

    /// Clock idle polarity.
    pub fn cpol(self) -> (r: RegisterFieldBool<2, 1, 0, Ctrl_SPEC, RW>)
        ensures
            r.spec_register() == self,
            r.spec_offset() == 2,
    {
        RegisterFieldBool::from_register(self, 0)
    }
}

/// The kind of the register rx.
#[allow(non_camel_case_types)]
#[derive(Copy, Clone, Eq, PartialEq, Debug)]
pub struct Rx_SPEC;

impl RegSpec for Rx_SPEC {
    type DataType = u32;
}

/// Receive FIFO.
pub type Rx = RegValueT<Rx_SPEC>;

impl Rx {
    /// Read data from RX FIFO.
    pub fn data(self) -> (r: RegisterField<0, 0xff, 1, 0, u8, Rx_SPEC, R>)
        ensures
            r.spec_register() == self,
            r.spec_offset() == 0,
    {
        RegisterField::from_register(self, 0)
    }

    /// A byte was available when the read occured.
    pub fn valid(self) -> (r: RegisterFieldBool<31, 1, 0, Rx_SPEC, R>)
        ensures
            r.spec_register() == self,
            r.spec_offset() == 31,
    {
        RegisterFieldBool::from_register(self, 0)
    }
}

/// The kind of the register status.
#[allow(non_camel_case_types)]
#[derive(Copy, Clone, Eq, PartialEq, Debug)]
pub struct Status_SPEC;

impl RegSpec for Status_SPEC {
    type DataType = u32;
}

/// Status register.
pub type Status = RegValueT<Status_SPEC>;

impl Status {
    /// A byte is being transmitted.
    pub fn busy(self) -> (r: RegisterFieldBool<0, 1, 0, Status_SPEC, R>)
        ensures
            r.spec_register() == self,
            r.spec_offset() == 0,
    {
        RegisterFieldBool::from_register(self, 0)
    }

    /// The device is selected via CS.
    pub fn selected(self) -> (r: RegisterFieldBool<1, 1, 0, Status_SPEC, R>)
        ensures
            r.spec_register() == self,
            r.spec_offset() == 1,
    {
        RegisterFieldBool::from_register(self, 0)
    }

    /// The RX FIFO is empty.
    pub fn rxe(self) -> (r: RegisterFieldBool<2, 1, 0, Status_SPEC, R>)
        ensures
            r.spec_register() == self,
            r.spec_offset() == 2,
    {
        RegisterFieldBool::from_register(self, 0)
    }

    /// The RX FIFO is not full.
    pub fn rxnf(self) -> (r: RegisterFieldBool<3, 1, 0, Status_SPEC, R>)
        ensures
            r.spec_register() == self,
            r.spec_offset() == 3,
    {
        RegisterFieldBool::from_register(self, 0)
    }

    /// The RX FIFO overflowed since the last clear.
    pub fn rxovfl(self) -> (r: RegisterFieldBool<4, 1, 0, Status_SPEC, R>)
        ensures
            r.spec_register() == self,
            r.spec_offset() == 4,
    {
        RegisterFieldBool::from_register(self, 0)
    }

    /// The TX FIFO is full.
    pub fn txf(self) -> (r: RegisterFieldBool<5, 1, 0, Status_SPEC, R>)
        ensures
            r.spec_register() == self,
            r.spec_offset() == 5,
    {
        RegisterFieldBool::from_register(self, 0)
    }

    /// The TX FIFO is not empty.
    pub fn txne(self) -> (r: RegisterFieldBool<6, 1, 0, Status_SPEC, R>)
        ensures
            r.spec_register() == self,
            r.spec_offset() == 6,
    {
        RegisterFieldBool::from_register(self, 0)
    }

    /// Number of bytes to be read from the RX FIFO.
    pub fn rx_fill(self) -> (r: RegisterField<16, 0xf, 1, 0, u8, Status_SPEC, R>)
        ensures
            r.spec_register() == self,
            r.spec_offset() == 16,
    {
        RegisterField::from_register(self, 0)
    }

    /// Number of bytes to be sent from the TX FIFO.
    pub fn tx_fill(self) -> (r: RegisterField<24, 0xf, 1, 0, u8, Status_SPEC, R>)
        ensures
            r.spec_register() == self,
            r.spec_offset() == 24,
    {
        RegisterField::from_register(self, 0)
    }

    /// Write 1 to clear the rxovfl bit.
    pub fn clear_rxovfl(self) -> (r: RegisterFieldBool<30, 1, 0, Status_SPEC, W>)
        ensures
            r.spec_register() == self,
            r.spec_offset() == 30,
    {
        RegisterFieldBool::from_register(self, 0)
    }

    /// Write 1 to empty TX and RX FIFO.
    pub fn flush(self) -> (r: RegisterFieldBool<31, 1, 0, Status_SPEC, W>)
        ensures
            r.spec_register() == self,
            r.spec_offset() == 31,
    {
        RegisterFieldBool::from_register(self, 0)
    }
}

/// The kind of the register tx.
#[allow(non_camel_case_types)]
#[derive(Copy, Clone, Eq, PartialEq, Debug)]
pub struct Tx_SPEC;

impl RegSpec for Tx_SPEC {
    type DataType = u32;
}

/// Transmit FIFO.
pub type Tx = RegValueT<Tx_SPEC>;

impl Tx {
    /// Write to TX FIFO.
    pub fn data(self) -> (r: RegisterField<0, 0xff, 1, 0, u8, Tx_SPEC, W>)
        ensures
            r.spec_register() == self,
            r.spec_offset() == 0,
    {
        RegisterField::from_register(self, 0)
    }
}

} // verus!
