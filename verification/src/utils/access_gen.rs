//! Short constructors for the partial records that expected sequences are
//! made of.
use vstd::prelude::*;
use crate::utils::{RegisterAccess, RegisterAccessType};

verus! {

/// A read of the register at `address`, whatever the length and the values.
pub fn read(address: usize) -> (r: RegisterAccess)
    ensures
        r == (RegisterAccess {
            ty: Some(RegisterAccessType::READ),
            addr: Some(address),
            len: None,
            before: None,
            after: None,
        }),
{
    RegisterAccess {
        ty: Some(RegisterAccessType::READ),
        addr: Some(address),
        len: None,
        before: None,
        after: None,
    }
}

/// A read of the register at `address` that gave `value`.
pub fn read_value(address: usize, value: u64) -> (r: RegisterAccess)
    ensures
        r == (RegisterAccess {
            ty: Some(RegisterAccessType::READ),
            addr: Some(address),
            len: None,
            before: None,
            after: Some(value),
        }),
{
    RegisterAccess {
        ty: Some(RegisterAccessType::READ),
        addr: Some(address),
        len: None,
        before: None,
        after: Some(value),
    }
}

/// A write to the register at `address`, whatever the length and the values.
pub fn write(address: usize) -> (r: RegisterAccess)
    ensures
        r == (RegisterAccess {
            ty: Some(RegisterAccessType::WRITE),
            addr: Some(address),
            len: None,
            before: None,
            after: None,
        }),
{
    RegisterAccess {
        ty: Some(RegisterAccessType::WRITE),
        addr: Some(address),
        len: None,
        before: None,
        after: None,
    }
}

/// A write of `value` to the register at `address`.
pub fn write_value(address: usize, value: u64) -> (r: RegisterAccess)
    ensures
        r == (RegisterAccess {
            ty: Some(RegisterAccessType::WRITE),
            addr: Some(address),
            len: None,
            before: None,
            after: Some(value),
        }),
{
    RegisterAccess {
        ty: Some(RegisterAccessType::WRITE),
        addr: Some(address),
        len: None,
        before: None,
        after: Some(value),
    }
}

} // verus!
