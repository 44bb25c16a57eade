//! Typed access to registers: a register at an address, the value read
//! from it or to be written to it, and the bit fields of such a value.
use vstd::prelude::*;
use std::marker::PhantomData;
use crate::utils::{MockState, ReadFunction, Regmock, WriteFunction};

verus! {

/// Access to a register that is read and written.
#[derive(Copy, Clone, PartialEq, Eq, Debug)]
pub struct RW;

/// Access to a register that is only read.
#[derive(Copy, Clone, PartialEq, Eq, Debug)]
pub struct R;

/// Access to a register that is only written.
#[derive(Copy, Clone, PartialEq, Eq, Debug)]
pub struct W;

/// The kinds of access to a register.
pub trait Access: Copy {

}

impl Access for R {

}

impl Access for W {

}

impl Access for RW {

}

/// The kinds of access that allow a read.
pub trait Read: Access {

}

impl Read for RW {

}

impl Read for R {

}

/// The kinds of access that allow a write.
pub trait Write: Access {

}

impl Write for RW {

}

impl Write for W {

}

/// A conversion that keeps the low bits of a number and drops the rest.
pub trait CastFrom<A>: Sized {
    /// What `val` becomes.
    spec fn spec_cast_from(val: A) -> Self;

    /// Converts `val`.
    fn cast_from(val: A) -> (r: Self)
        ensures
            r == Self::spec_cast_from(val),
    ;
}

/// A value that can be held in the bits of a register.
pub trait IntoRaw {
    /// The value as bits.
    spec fn spec_into_raw(self) -> u64;

    /// The value as bits.
    fn into_raw(self) -> (r: u64)
        ensures
            r == self.spec_into_raw(),
    ;
}

/// The numbers that a register can hold: unsigned, of 8 to 64 bits.
pub trait RegNumberT: Copy + CastFrom<u64> + IntoRaw {
    /// The width of the number in bits.
    spec fn spec_bits() -> usize;

    /// The width of the number in bits.
    fn bits() -> (r: usize)
        ensures
            r == Self::spec_bits(),
            r == 8 || r == 16 || r == 32 || r == 64,
    ;
}

impl CastFrom<u64> for u8 {
    open spec fn spec_cast_from(val: u64) -> u8 {
        val as u8
    }

    fn cast_from(val: u64) -> (r: u8) {
        #[verifier::truncate]
        (val as u8)
    }
}

impl CastFrom<u64> for u16 {
    open spec fn spec_cast_from(val: u64) -> u16 {
        val as u16
    }

    fn cast_from(val: u64) -> (r: u16) {
        #[verifier::truncate]
        (val as u16)
    }
}

impl CastFrom<u64> for u32 {
    open spec fn spec_cast_from(val: u64) -> u32 {
        val as u32
    }

    fn cast_from(val: u64) -> (r: u32) {
        #[verifier::truncate]
        (val as u32)
    }
}

impl CastFrom<u64> for u64 {
    open spec fn spec_cast_from(val: u64) -> u64 {
        val
    }

    fn cast_from(val: u64) -> (r: u64) {
        val
    }
}

impl IntoRaw for u8 {
    open spec fn spec_into_raw(self) -> u64 {
        self as u64
    }

    fn into_raw(self) -> (r: u64) {
        self as u64
    }
}

impl IntoRaw for u16 {
    open spec fn spec_into_raw(self) -> u64 {
        self as u64
    }

    fn into_raw(self) -> (r: u64) {
        self as u64
    }
}

impl IntoRaw for u32 {
    open spec fn spec_into_raw(self) -> u64 {
        self as u64
    }

    fn into_raw(self) -> (r: u64) {
        self as u64
    }
}

impl IntoRaw for u64 {
    open spec fn spec_into_raw(self) -> u64 {
        self
    }

    fn into_raw(self) -> (r: u64) {
        self
    }
}

impl RegNumberT for u8 {
    open spec fn spec_bits() -> usize {
        8
    }

    fn bits() -> (r: usize) {
        8
    }
}

impl RegNumberT for u16 {
    open spec fn spec_bits() -> usize {
        16
    }

    fn bits() -> (r: usize) {
        16
    }
}

impl RegNumberT for u32 {
    open spec fn spec_bits() -> usize {
        32
    }

    fn bits() -> (r: usize) {
        32
    }
}

impl RegNumberT for u64 {
    open spec fn spec_bits() -> usize {
        64
    }

    fn bits() -> (r: usize) {
        64
    }
}

/// What is fixed for one register: the number that it holds.
pub trait RegSpec {
    /// The number that the register holds.
    type DataType: RegNumberT;
}

/// A register of the kind `T` at an address, with the access `A`.
#[derive(Debug)]
pub struct Reg<T, A: Access> {
    ptr: usize,
    phantom: PhantomData<(T, A)>,
}

impl<T, A: Access> Clone for Reg<T, A> {
    fn clone(&self) -> (r: Self)
        ensures
            r == *self,
    {
        Reg { ptr: self.ptr, phantom: PhantomData }
    }
}

impl<T, A: Access> Copy for Reg<T, A> {

}

/// The value of a register of the kind `Reg`, with the bits of it that were
/// set since it was read or made.
#[derive(Copy, Clone, Debug)]
pub struct RegValueT<Reg: RegSpec> {
    /// The value.
    pub data: Reg::DataType,
    /// One for each bit that was set.
    pub mask: Reg::DataType,
}

/// The value of a register as a whole.
pub trait RegisterValue<T: RegSpec>: Sized {
    /// The value of the register.
    spec fn spec_raw(&self) -> T::DataType;

    /// A register value from the number `data`.
    fn new(data: T::DataType) -> (r: Self)
        ensures
            r.spec_raw() == data,
    ;

    /// The value of the register.
    fn get_raw(&self) -> (r: T::DataType)
        ensures
            r == self.spec_raw(),
    ;

    /// The register value with `value` in place of its value.
    fn set_raw(self, value: T::DataType) -> (r: Self)
        ensures
            r.spec_raw() == value,
    ;
}

impl<T: RegSpec> RegValueT<T> {
    /// The value as bits.
    pub open spec fn spec_data(&self) -> u64 {
        self.data.spec_into_raw()
    }

    /// The bits that were set: one for each bit that a write is to change.
    pub open spec fn spec_mask(&self) -> u64 {
        self.mask.spec_into_raw()
    }
}

impl<T: RegSpec> RegisterValue<T> for RegValueT<T> {
    open spec fn spec_raw(&self) -> T::DataType {
        self.data
    }

    /// A register value from the number `data`, with no bit set.
    fn new(data: T::DataType) -> (r: RegValueT<T>)
        ensures
            r.mask == T::DataType::spec_cast_from(0),
    {
        RegValueT { data, mask: T::DataType::cast_from(0) }
    }

    fn get_raw(&self) -> (r: T::DataType) {
        self.data
    }

    /// The register value with `value` in place of its value, and all bits
    /// set.
    fn set_raw(self, value: T::DataType) -> (r: Self)
        ensures
            r.mask == T::DataType::spec_cast_from(u64::MAX),
    {
        RegValueT { data: value, mask: T::DataType::cast_from(u64::MAX) }
    }
}

impl<T: RegSpec> Default for RegValueT<T> {
    /// The register value zero, with no bit set.
    fn default() -> (r: Self)
        ensures
            r.data == T::DataType::spec_cast_from(0),
            r.mask == T::DataType::spec_cast_from(0),
    {
        RegValueT { data: T::DataType::cast_from(0), mask: T::DataType::cast_from(0) }
    }
}

/// A register without bit fields: its value is got and set as a whole.
pub trait NoBitfieldReg<Reg: RegSpec>: RegisterValue<Reg> {
    /// The value of the register.
    fn get(&self) -> (r: Reg::DataType)
        ensures
            r == self.spec_raw(),
    {
        self.get_raw()
    }

    /// The register value with `value` in place of its value.
    fn set(self, value: Reg::DataType) -> (r: Self)
        ensures
            r.spec_raw() == value,
    {
        self.set_raw(value)
    }
}

impl<T: RegSpec, A: Access> Reg<T, A> {
    /// The address of the register.
    pub closed spec fn spec_addr(&self) -> usize {
        self.ptr
    }

    /// The register at the address `ptr`.
    pub fn from_ptr(ptr: usize) -> (r: Self)
        ensures
            r.spec_addr() == ptr,
    {
        Reg { ptr, phantom: PhantomData }
    }

    /// The address of the register.
    pub fn addr(&self) -> (r: usize)
        ensures
            r == self.spec_addr(),
    {
        self.ptr
    }

    /// The number of bytes that an access to the register moves.
    pub open spec fn spec_len() -> usize {
        (T::DataType::spec_bits() / 8) as usize
    }
}

/// Whether `after` is the state of a mock after a read of `len` bytes at
/// `addr` in the state `before` that gave the value `seen`.
pub open spec fn read_gave<T: RegSpec>(
    before: MockState,
    after: MockState,
    addr: usize,
    len: usize,
    apparent: u64,
    seen: RegValueT<T>,
) -> bool {
    &&& after == before.after_read(addr, len, after.registers, apparent)
    &&& seen.data == T::DataType::spec_cast_from(apparent)
    &&& seen.mask == T::DataType::spec_cast_from(0)
    &&& !before.read_is_hooked(addr) ==> apparent == before.stored(addr) && after
        == before.plain_read(addr, len)
}

/// Whether `after` is the state of a mock after a write of `made`, `len`
/// bytes at `addr`, in the state `before`.
pub open spec fn write_took<T: RegSpec>(
    before: MockState,
    after: MockState,
    addr: usize,
    len: usize,
    made: RegValueT<T>,
) -> bool {
    &&& after.registers.contains_key(addr)
    &&& after == before.after_write(addr, len, after.registers, after.registers[addr])
    &&& !before.write_is_hooked(addr) ==> after == before.plain_write(
        addr,
        len,
        made.spec_data(),
    )
}

impl<T: RegSpec, A: Read> Reg<T, A> {
    /// Reads the register through `mock` and returns its value, with no
    /// bit set. The value is what the mock gives, cut to the width of the
    /// register.
    pub fn read<F: ReadFunction, G: WriteFunction>(&self, mock: &mut Regmock<F, G>) -> (r:
        RegValueT<T>)
        ensures
            exists|apparent: u64| #[trigger]
                read_gave(
                    old(mock)@,
                    final(mock)@,
                    self.spec_addr(),
                    Self::spec_len(),
                    apparent,
                    r,
                ),
            final(mock).name_resolver == old(mock).name_resolver,
    {
        let buf = mock.read_volatile(self.ptr, T::DataType::bits() / 8);
        let r = RegValueT::<T>::new(T::DataType::cast_from(buf));
        proof {
            assert(read_gave(old(mock)@, mock@, self.spec_addr(), Self::spec_len(), buf, r));
        }
        r
    }
}

impl<T: RegSpec, A: Write> Reg<T, A> {
    /// Writes `reg_value` to the register through `mock`.
    pub fn write<F: ReadFunction, G: WriteFunction>(
        &self,
        mock: &mut Regmock<F, G>,
        reg_value: RegValueT<T>,
    )
        ensures
            write_took(old(mock)@, final(mock)@, self.spec_addr(), Self::spec_len(), reg_value),
            final(mock).name_resolver == old(mock).name_resolver,
    {
        mock.write_volatile(self.ptr, T::DataType::bits() / 8, reg_value.data.into_raw());
    }

    /// Writes to the register what `f` makes of the register value zero.
    pub fn init<F: ReadFunction, G: WriteFunction, C: FnOnce(RegValueT<T>) -> RegValueT<T>>(
        &self,
        mock: &mut Regmock<F, G>,
        f: C,
    )
        requires
            forall|start: RegValueT<T>| call_requires(f, (start,)),
        ensures
            exists|start: RegValueT<T>, made: RegValueT<T>|
                start.data == T::DataType::spec_cast_from(0) && start.mask
                    == T::DataType::spec_cast_from(0) && call_ensures(f, (start,), made)
                    && #[trigger] write_took(
                    old(mock)@,
                    final(mock)@,
                    self.spec_addr(),
                    Self::spec_len(),
                    made,
                ) && #[trigger] call_ensures(f, (start,), made),
            final(mock).name_resolver == old(mock).name_resolver,
    {
        let val = RegValueT::<T>::default();
        let res = f(val);
        self.write(mock, res);
        proof {
            assert(write_took(old(mock)@, mock@, self.spec_addr(), Self::spec_len(), res));
            assert(call_ensures(f, (val,), res));
        }
    }
}

impl<T: RegSpec, A: Read + Write> Reg<T, A> {
    /// Reads the register through `mock` and writes back what `f` makes of
    /// the value read.
    pub fn modify<F: ReadFunction, G: WriteFunction, C: FnOnce(RegValueT<T>) -> RegValueT<T>>(
        &self,
        mock: &mut Regmock<F, G>,
        f: C,
    )
        requires
            forall|seen: RegValueT<T>| call_requires(f, (seen,)),
        ensures
            exists|mid: MockState, apparent: u64, seen: RegValueT<T>, made: RegValueT<T>|
                #[trigger] read_gave(
                    old(mock)@,
                    mid,
                    self.spec_addr(),
                    Self::spec_len(),
                    apparent,
                    seen,
                ) && call_ensures(f, (seen,), made) && #[trigger] write_took(
                    mid,
                    final(mock)@,
                    self.spec_addr(),
                    Self::spec_len(),
                    made,
                ),
            final(mock).name_resolver == old(mock).name_resolver,
    {
        let buf = mock.read_volatile(self.ptr, T::DataType::bits() / 8);
        let val = RegValueT::<T>::new(T::DataType::cast_from(buf));
        let ghost mid = mock@;
        proof {
            assert(read_gave(old(mock)@, mid, self.spec_addr(), Self::spec_len(), buf, val));
        }
        let res = f(val);
        mock.write_volatile(self.ptr, T::DataType::bits() / 8, res.data.into_raw());
        proof {
            assert(write_took(mid, mock@, self.spec_addr(), Self::spec_len(), res));
        }
    }
}

/// A number that stands for one of the named values of a bit field of the
/// kind `T`.
#[derive(Debug)]
pub struct EnumBitfieldStruct<Q: RegNumberT, T>(pub Q, pub PhantomData<T>);

impl<Q: RegNumberT, T> Clone for EnumBitfieldStruct<Q, T> {
    fn clone(&self) -> (r: Self)
        ensures
            r == *self,
    {
        EnumBitfieldStruct(self.0, PhantomData)
    }
}

impl<Q: RegNumberT, T> Copy for EnumBitfieldStruct<Q, T> {

}

impl<Q: RegNumberT, T> EnumBitfieldStruct<Q, T> {
    /// The value that the number `value` stands for.
    pub fn new(value: Q) -> (r: Self)
        ensures
            r.0 == value,
    {
        EnumBitfieldStruct(value, PhantomData)
    }
}

impl<Q: RegNumberT, T> IntoRaw for EnumBitfieldStruct<Q, T> {
    open spec fn spec_into_raw(self) -> u64 {
        self.0.spec_into_raw()
    }

    fn into_raw(self) -> (r: u64) {
        self.0.into_raw()
    }
}

impl<Q: RegNumberT, T> CastFrom<u64> for EnumBitfieldStruct<Q, T> {
    open spec fn spec_cast_from(val: u64) -> Self {
        EnumBitfieldStruct(Q::spec_cast_from(val), PhantomData)
    }

    fn cast_from(val: u64) -> (r: Self) {
        EnumBitfieldStruct(Q::cast_from(val), PhantomData)
    }
}

impl CastFrom<u64> for bool {
    open spec fn spec_cast_from(val: u64) -> bool {
        val & 1 == 1
    }

    fn cast_from(val: u64) -> (r: bool) {
        val & 1 == 1
    }
}

/// The place of a bit field: `index` fields of `increment` bits each after
/// the bit `start`.
pub open spec fn field_offset(start: usize, index: u8, increment: u8) -> int {
    start + index * increment
}

/// A bit field of a register value: `MASK`, moved up by the offset of the
/// field, covers its bits.
pub struct RegisterField<
    const START_OFFSET: usize,
    const MASK: u64,
    const DIM: u8,
    const DIM_INCREMENT: u8,
    ValueType,
    T: RegSpec,
    A: Access,
> {
    data: RegValueT<T>,
    index: u8,
    marker: PhantomData<(ValueType, A)>,
}

impl<
    const START_OFFSET: usize,
    const MASK: u64,
    const DIM: u8,
    const DIM_INCREMENT: u8,
    ValueType,
    T: RegSpec,
    A: Access,
> RegisterField<START_OFFSET, MASK, DIM, DIM_INCREMENT, ValueType, T, A> {
    /// The field lies within the register.
    #[verifier::type_invariant]
    spec fn within_register(self) -> bool {
        &&& self.index * DIM_INCREMENT <= u8::MAX
        &&& field_offset(START_OFFSET, self.index, DIM_INCREMENT) < T::DataType::spec_bits()
    }

    /// The register value that the field is a part of.
    pub closed spec fn spec_register(&self) -> RegValueT<T> {
        self.data
    }

    /// The number of the bit at which the field begins.
    pub closed spec fn spec_offset(&self) -> int {
        field_offset(START_OFFSET, self.index, DIM_INCREMENT)
    }

    /// The field number `index` of the register value `data`.
    pub fn from_register(data: RegValueT<T>, index: u8) -> (r: Self)
        requires
            index * DIM_INCREMENT <= u8::MAX,
            field_offset(START_OFFSET, index, DIM_INCREMENT) < T::DataType::spec_bits(),
        ensures
            r.spec_register() == data,
            r.spec_offset() == field_offset(START_OFFSET, index, DIM_INCREMENT),
    {
        RegisterField { data, index, marker: PhantomData }
    }

    /// The bits of the field, not moved.
    pub fn mask(&self) -> (r: T::DataType)
        ensures
            r == T::DataType::spec_cast_from(MASK),
    {
        T::DataType::cast_from(MASK)
    }

    /// The number of the bit at which the field begins.
    pub fn offset(&self) -> (r: usize)
        ensures
            r == self.spec_offset(),
            r < T::DataType::spec_bits(),
            r < 64,
    {
        proof {
            use_type_invariant(self);
        }
        let bits = T::DataType::bits();
        START_OFFSET + (self.index * DIM_INCREMENT) as usize
    }
}

impl<
    const START_OFFSET: usize,
    const MASK: u64,
    const DIM: u8,
    const DIM_INCREMENT: u8,
    ValueType: CastFrom<u64>,
    T: RegSpec,
    A: Read,
> RegisterField<START_OFFSET, MASK, DIM, DIM_INCREMENT, ValueType, T, A> {
    /// The value of the field: the bits of the register value from the
    /// offset of the field on, as far as `MASK` covers them.
    pub fn get(&self) -> (r: ValueType)
        ensures
            r == ValueType::spec_cast_from(
                (self.spec_register().spec_data() >> (self.spec_offset() as u64)) & MASK,
            ),
    {
        let offset = self.offset() as u64;
        let filtered: u64 = (self.data.data.into_raw() >> offset) & MASK;
        ValueType::cast_from(filtered)
    }
}

/// The bits of a register value after the bits that `mask` covers, moved up
/// by `offset`, were replaced by those of `value`.
pub open spec fn with_field(data: u64, mask: u64, offset: u64, value: u64) -> u64 {
    (data & !(mask << offset)) | ((value & mask) << offset)
}

impl<
    const START_OFFSET: usize,
    const MASK: u64,
    const DIM: u8,
    const DIM_INCREMENT: u8,
    ValueType: IntoRaw,
    T: RegSpec,
    A: Write,
> RegisterField<START_OFFSET, MASK, DIM, DIM_INCREMENT, ValueType, T, A> {
    /// The register value with `value` in the field: its other bits are
    /// kept, and the bits of the field count as set.
    pub fn set(self, value: ValueType) -> (r: RegValueT<T>)
        ensures
            r.data == T::DataType::spec_cast_from(
                with_field(
                    self.spec_register().spec_data(),
                    MASK,
                    self.spec_offset() as u64,
                    value.spec_into_raw(),
                ),
            ),
            r.mask == T::DataType::spec_cast_from(
                self.spec_register().spec_mask() | (MASK << (self.spec_offset() as u64)),
            ),
    {
        let offset = self.offset() as u64;
        let masked_offset: u64 = MASK << offset;
        let raw: u64 = value.into_raw() & MASK;
        let mask: u64 = self.data.mask.into_raw() | masked_offset;
        let data: u64 = (self.data.data.into_raw() & !masked_offset) | (raw << offset);
        RegValueT { data: T::DataType::cast_from(data), mask: T::DataType::cast_from(mask) }
    }
}

/// A bit field of one bit.
pub struct RegisterFieldBool<
    const START_OFFSET: usize,
    const DIM: u8,
    const DIM_INCREMENT: u8,
    T: RegSpec,
    A: Access,
> {
    data: RegValueT<T>,
    index: u8,
    marker: PhantomData<A>,
}

impl<
    const START_OFFSET: usize,
    const DIM: u8,
    const DIM_INCREMENT: u8,
    T: RegSpec,
    A: Access,
> RegisterFieldBool<START_OFFSET, DIM, DIM_INCREMENT, T, A> {
    /// The field lies within the register.
    #[verifier::type_invariant]
    spec fn within_register(self) -> bool {
        &&& self.index * DIM_INCREMENT <= u8::MAX
        &&& field_offset(START_OFFSET, self.index, DIM_INCREMENT) < T::DataType::spec_bits()
    }

    /// The register value that the field is a part of.
    pub closed spec fn spec_register(&self) -> RegValueT<T> {
        self.data
    }

    /// The number of the bit that is the field.
    pub closed spec fn spec_offset(&self) -> int {
        field_offset(START_OFFSET, self.index, DIM_INCREMENT)
    }

    /// The field number `index` of the register value `data`.
    pub fn from_register(data: RegValueT<T>, index: u8) -> (r: Self)
        requires
            index * DIM_INCREMENT <= u8::MAX,
            field_offset(START_OFFSET, index, DIM_INCREMENT) < T::DataType::spec_bits(),
        ensures
            r.spec_register() == data,
            r.spec_offset() == field_offset(START_OFFSET, index, DIM_INCREMENT),
    {
        RegisterFieldBool { data, index, marker: PhantomData }
    }

    /// The bit of the field, not moved.
    pub fn mask(&self) -> (r: T::DataType)
        ensures
            r == T::DataType::spec_cast_from(1),
    {
        T::DataType::cast_from(1)
    }

    /// The number of the bit that is the field.
    pub fn offset(&self) -> (r: usize)
        ensures
            r == self.spec_offset(),
            r < T::DataType::spec_bits(),
            r < 64,
    {
        proof {
            use_type_invariant(self);
        }
        let bits = T::DataType::bits();
        START_OFFSET + (self.index * DIM_INCREMENT) as usize
    }
}

impl<
    const START_OFFSET: usize,
    const DIM: u8,
    const DIM_INCREMENT: u8,
    T: RegSpec,
    A: Read,
> RegisterFieldBool<START_OFFSET, DIM, DIM_INCREMENT, T, A> {
    /// Whether the bit of the field is one.
    pub fn get(&self) -> (r: bool)
        ensures
            r == (((self.spec_register().spec_data() >> (self.spec_offset() as u64)) & 1) == 1),
    {
        let offset = self.offset() as u64;
        let filtered: u64 = (self.data.data.into_raw() >> offset) & 1;
        filtered == 1
    }
}

impl<
    const START_OFFSET: usize,
    const DIM: u8,
    const DIM_INCREMENT: u8,
    T: RegSpec,
    A: Write,
> RegisterFieldBool<START_OFFSET, DIM, DIM_INCREMENT, T, A> {
    /// The register value with the bit of the field one where `value` is
    /// true and zero where it is not: its other bits are kept, and the bit
    /// of the field counts as set.
    pub fn set(self, value: bool) -> (r: RegValueT<T>)
        ensures
            r.data == T::DataType::spec_cast_from(
                with_field(
                    self.spec_register().spec_data(),
                    1,
                    self.spec_offset() as u64,
                    if value {
                        1
                    } else {
                        0
                    },
                ),
            ),
            r.mask == T::DataType::spec_cast_from(
                self.spec_register().spec_mask() | (1u64 << (self.spec_offset() as u64)),
            ),
    {
        let offset = self.offset() as u64;
        let bit: u64 = if value {
            1
        } else {
            0
        };
        let masked_offset: u64 = 1u64 << offset;
        let mask: u64 = self.data.mask.into_raw() | masked_offset;
        let data: u64 = (self.data.data.into_raw() & !masked_offset) | ((bit & 1) << offset);
        RegValueT { data: T::DataType::cast_from(data), mask: T::DataType::cast_from(mask) }
    }
}

/// Whether `mask`, moved up by `offset`, lies within 64 bits.
pub open spec fn field_fits(mask: u64, offset: u64) -> bool {
    offset < 64 && (mask << offset) >> offset == mask
}

/// A field that was set is got back: the bits of the value that the mask
/// covers.
pub proof fn set_field_is_got_back(data: u64, mask: u64, offset: u64, value: u64)
    requires
        field_fits(mask, offset),
    ensures
        (with_field(data, mask, offset, value) >> offset) & mask == value & mask,
{
    assert((((data & !(mask << offset)) | ((value & mask) << offset)) >> offset) & mask == value
        & mask) by (bit_vector)
        requires
            offset < 64,
            (mask << offset) >> offset == mask,
    ;
}

/// Setting a field keeps the bits of the register value that lie outside
/// the field.
pub proof fn set_field_keeps_other_bits(data: u64, mask: u64, offset: u64, value: u64)
    requires
        offset < 64,
    ensures
        with_field(data, mask, offset, value) & !(mask << offset) == data & !(mask << offset),
{
    assert(((data & !(mask << offset)) | ((value & mask) << offset)) & !(mask << offset) == data
        & !(mask << offset)) by (bit_vector)
        requires
            offset < 64,
    ;
}

/// Setting a field twice is setting it to the second value.
pub proof fn set_field_twice(data: u64, mask: u64, offset: u64, first: u64, second: u64)
    requires
        offset < 64,
    ensures
        with_field(with_field(data, mask, offset, first), mask, offset, second) == with_field(
            data,
            mask,
            offset,
            second,
        ),
{
    assert((((data & !(mask << offset)) | ((first & mask) << offset)) & !(mask << offset)) | ((
    second & mask) << offset) == (data & !(mask << offset)) | ((second & mask) << offset))
        by (bit_vector)
        requires
            offset < 64,
    ;
}

} // verus!
