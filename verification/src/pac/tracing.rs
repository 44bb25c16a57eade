//! Reads of registers that are only written, and writes to registers that
//! are only read.
//!
//! A test has to give a value to a register that the device only reads, such
//! as an input buffer, and to look at a register that it only writes. The two
//! traits of this module open such registers to the access that they do not
//! have on the device. They are kept apart from the accesses that the device
//! allows: code for the device has no use for them.
use vstd::prelude::*;
use crate::pac::common::{
    read_gave, write_took, Access, CastFrom, IntoRaw, Read, Reg, RegNumberT, RegSpec, RegValueT,
    RegisterValue, Write, R, W,
};
use crate::utils::{MockState, ReadFunction, Regmock, WriteFunction};

verus! {

/// The kinds of access that allow no read on the device.
pub trait WriteOnlyRead: Access {

}

impl WriteOnlyRead for W {

}

/// The kinds of access that allow no write on the device.
pub trait ReadOnlyWrite: Access {

}

impl ReadOnlyWrite for R {

}

impl<T: RegSpec, A: WriteOnlyRead> Reg<T, A> {
    /// Reads a register that is only written: see [`Reg::read`].
    pub fn read_write_only<F: ReadFunction, G: WriteFunction>(
        &self,
        mock: &mut Regmock<F, G>,
    ) -> (r: RegValueT<T>)
        ensures
            exists|apparent: u64| #[trigger]
                read_gave(
                    old(mock)@,
                    final(mock)@,
                    self.spec_addr(),
                    Self::spec_len(),
                    apparent,
                    r,
                ),
            final(mock).name_resolver == old(mock).name_resolver,
    {
        let buf = mock.read_volatile(self.addr(), T::DataType::bits() / 8);
        let r = RegValueT::<T>::new(T::DataType::cast_from(buf));
        proof {
            assert(read_gave(old(mock)@, mock@, self.spec_addr(), Self::spec_len(), buf, r));
        }
        r
    }
}

impl<T: RegSpec, A: ReadOnlyWrite> Reg<T, A> {
    /// Writes `reg_value` to a register that is only read: see
    /// [`Reg::write`].
    pub fn write_read_only<F: ReadFunction, G: WriteFunction>(
        &self,
        mock: &mut Regmock<F, G>,
        reg_value: RegValueT<T>,
    )
        ensures
            write_took(old(mock)@, final(mock)@, self.spec_addr(), Self::spec_len(), reg_value),
            final(mock).name_resolver == old(mock).name_resolver,
    {
        mock.write_volatile(self.addr(), T::DataType::bits() / 8, reg_value.data.into_raw());
    }

    /// Writes to a register that is only read what `f` makes of the
    /// register value zero: see [`Reg::init`].
    pub fn init_read_only<
        F: ReadFunction,
        G: WriteFunction,
        C: FnOnce(RegValueT<T>) -> RegValueT<T>,
    >(&self, mock: &mut Regmock<F, G>, f: C)
        requires
            forall|start: RegValueT<T>| call_requires(f, (start,)),
        ensures
            exists|start: RegValueT<T>, made: RegValueT<T>|
                start.data == T::DataType::spec_cast_from(0) && start.mask
                    == T::DataType::spec_cast_from(0) && #[trigger] write_took(
                    old(mock)@,
                    final(mock)@,
                    self.spec_addr(),
                    Self::spec_len(),
                    made,
                ) && #[trigger] call_ensures(f, (start,), made),
            final(mock).name_resolver == old(mock).name_resolver,
    {
        let val = RegValueT::<T>::default();
        let res = f(val);
        self.write_read_only(mock, res);
        proof {
            assert(write_took(old(mock)@, mock@, self.spec_addr(), Self::spec_len(), res));
            assert(call_ensures(f, (val,), res));
        }
    }
}

impl<T: RegSpec, A: WriteOnlyRead + Write> Reg<T, A> {
    /// Reads a register that is only written and writes back what `f`
    /// makes of the value read: see [`Reg::modify`].
    pub fn modify_write_only<
        F: ReadFunction,
        G: WriteFunction,
        C: FnOnce(RegValueT<T>) -> RegValueT<T>,
    >(&self, mock: &mut Regmock<F, G>, f: C)
        requires
            forall|seen: RegValueT<T>| call_requires(f, (seen,)),
        ensures
            exists|mid: MockState, apparent: u64, seen: RegValueT<T>, made: RegValueT<T>|
                #[trigger] read_gave(
                    old(mock)@,
                    mid,
                    self.spec_addr(),
                    Self::spec_len(),
                    apparent,
                    seen,
                ) && call_ensures(f, (seen,), made) && #[trigger] write_took(
                    mid,
                    final(mock)@,
                    self.spec_addr(),
                    Self::spec_len(),
                    made,
                ),
            final(mock).name_resolver == old(mock).name_resolver,
    {
        let buf = mock.read_volatile(self.addr(), T::DataType::bits() / 8);
        let val = RegValueT::<T>::new(T::DataType::cast_from(buf));
        let ghost mid = mock@;
        proof {
            assert(read_gave(old(mock)@, mid, self.spec_addr(), Self::spec_len(), buf, val));
        }
        let res = f(val);
        mock.write_volatile(self.addr(), T::DataType::bits() / 8, res.data.into_raw());
        proof {
            assert(write_took(mid, mock@, self.spec_addr(), Self::spec_len(), res));
        }
    }
}

impl<T: RegSpec, A: Read + ReadOnlyWrite> Reg<T, A> {
    /// Reads a register that is only read and writes back what `f` makes
    /// of the value read: see [`Reg::modify`].
    pub fn modify_read_only<
        F: ReadFunction,
        G: WriteFunction,
        C: FnOnce(RegValueT<T>) -> RegValueT<T>,
    >(&self, mock: &mut Regmock<F, G>, f: C)
        requires
            forall|seen: RegValueT<T>| call_requires(f, (seen,)),
        ensures
            exists|mid: MockState, apparent: u64, seen: RegValueT<T>, made: RegValueT<T>|
                #[trigger] read_gave(
                    old(mock)@,
                    mid,
                    self.spec_addr(),
                    Self::spec_len(),
                    apparent,
                    seen,
                ) && call_ensures(f, (seen,), made) && #[trigger] write_took(
                    mid,
                    final(mock)@,
                    self.spec_addr(),
                    Self::spec_len(),
                    made,
                ),
            final(mock).name_resolver == old(mock).name_resolver,
    {
        let buf = mock.read_volatile(self.addr(), T::DataType::bits() / 8);
        let val = RegValueT::<T>::new(T::DataType::cast_from(buf));
        let ghost mid = mock@;
        proof {
            assert(read_gave(old(mock)@, mid, self.spec_addr(), Self::spec_len(), buf, val));
        }
        let res = f(val);
        mock.write_volatile(self.addr(), T::DataType::bits() / 8, res.data.into_raw());
        proof {
            assert(write_took(mid, mock@, self.spec_addr(), Self::spec_len(), res));
        }
    }
}

} // verus!
