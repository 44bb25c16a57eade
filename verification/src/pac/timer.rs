//! The timer peripheral: two clusters of a control and status register, a
//! counter and its maximum.
use vstd::prelude::*;

pub mod timercluster;

use crate::pac::common::{Reg, RW};
use crate::pac::timer::timercluster::{Count_SPEC, Ctrlstat_SPEC, Max_SPEC};

verus! {

/// Timer Peripheral.
#[derive(Copy, Clone, Debug)]
pub struct Timer(pub(crate) usize);

impl Timer {
    /// The registers of the peripheral lie within the address space.
    #[verifier::type_invariant]
    spec fn in_address_space(self) -> bool {
        self.0 + 20 <= usize::MAX
    }

    /// The address at which the registers of the peripheral begin.
    pub closed spec fn spec_base(&self) -> usize {
        self.0
    }

    /// The peripheral whose registers begin at `base`.
    pub fn at(base: usize) -> (r: Self)
        requires
            base + 20 <= usize::MAX,
        ensures
            r.spec_base() == base,
    {
        Timer(base)
    }

    /// The two clusters of the timer, twelve bytes apart.
    pub fn timercluster(self) -> (r: [Timercluster; 2])
        ensures
            r[0].spec_base() == self.spec_base(),
            r[1].spec_base() == self.spec_base() + 12,
    {
        proof {
            use_type_invariant(self);
        }
        [Timercluster(self.0), Timercluster(self.0 + 12)]
    }
}

/// One cluster of the timer.
#[derive(Copy, Clone, Debug)]
pub struct Timercluster(pub(crate) usize);

impl Timercluster {
    /// The registers of the peripheral lie within the address space.
    #[verifier::type_invariant]
    spec fn in_address_space(self) -> bool {
        self.0 + 8 <= usize::MAX
    }

    /// The address at which the registers of the peripheral begin.
    pub closed spec fn spec_base(&self) -> usize {
        self.0
    }

    /// The peripheral whose registers begin at `base`.
    pub fn at(base: usize) -> (r: Self)
        requires
            base + 8 <= usize::MAX,
        ensures
            r.spec_base() == base,
    {
        Timercluster(base)
    }

    /// The register count.
    pub fn count(&self) -> (r: Reg<Count_SPEC, RW>)
        ensures
            r.spec_addr() == self.spec_base() + 4,
    {
        proof {
            use_type_invariant(self);
        }
        Reg::from_ptr(self.0 + 4)
    }

    /// The register ctrlstat.
    pub fn ctrlstat(&self) -> (r: Reg<Ctrlstat_SPEC, RW>)
        ensures
            r.spec_addr() == self.spec_base() + 0,
    {
        proof {
            use_type_invariant(self);
        }
        Reg::from_ptr(self.0 + 0)
    }

    /// The register max.
    pub fn max(&self) -> (r: Reg<Max_SPEC, RW>)
        ensures
            r.spec_addr() == self.spec_base() + 8,
    {
        proof {
            use_type_invariant(self);
        }
        Reg::from_ptr(self.0 + 8)
    }
}

} // verus!
