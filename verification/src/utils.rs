//! The record of one register access, and the mock that produces such records.
use vstd::prelude::*;

pub mod access_gen;
pub mod log;
pub mod mock;
pub mod names;

pub use crate::utils::log::{IterRegmockLogDecoded, IterRegmockLogNoPolling, RegmockLog};
pub use crate::utils::mock::{
    MockState, Passthrough, ReadFunction, RegisterMap, Regmock, WriteFunction,
};
pub use crate::utils::names::NameTable;
use crate::text::{decimal, decimal_string, joined};

verus! {

/// The kinds of register access.
#[derive(Debug, Clone, Copy, PartialEq, Eq, Structural)]
pub enum RegisterAccessType {
    /// The register is read.
    READ,
    /// The register is written.
    WRITE,
}

impl RegisterAccessType {
    /// The name of the kind, as diagnostics print it.
    pub open spec fn spec_name(self) -> Seq<char> {
        match self {
            RegisterAccessType::READ => "READ"@,
            RegisterAccessType::WRITE => "WRITE"@,
        }
    }

    /// The name of the kind, as diagnostics print it.
    pub fn name(&self) -> (r: &'static str)
        ensures
            r@ == self.spec_name(),
    {
        match self {
            RegisterAccessType::READ => "READ",
            RegisterAccessType::WRITE => "WRITE",
        }
    }
}

/// One access to a register.
///
/// Every member is optional, so that a record can stand for all the accesses
/// that agree with it on the members it holds: see [`RegisterAccess::matches`].
#[derive(Debug, Clone, Copy)]
pub struct RegisterAccess {
    /// Kind of the access.
    pub ty: Option<RegisterAccessType>,
    /// Address of the accessed register.
    pub addr: Option<usize>,
    /// Length of the access in bytes.
    pub len: Option<usize>,
    /// Value of the register before the access.
    pub before: Option<u64>,
    /// Value of the register after the access.
    pub after: Option<u64>,
}

/// Two optional members agree unless both are present and differ.
pub open spec fn member_matches<T>(a: Option<T>, b: Option<T>) -> bool {
    a.is_some() && b.is_some() ==> a == b
}

impl Default for RegisterAccess {
    /// The record with no member present.
    fn default() -> (r: Self)
        ensures
            r == RegisterAccess::spec_empty(),
    {
        RegisterAccess { ty: None, addr: None, len: None, before: None, after: None }
    }
}

impl RegisterAccess {
    /// The record with no member present.
    pub open spec fn spec_empty() -> Self {
        RegisterAccess { ty: None, addr: None, len: None, before: None, after: None }
    }

    /// The record with every member present.
    pub open spec fn spec_new(
        ty: RegisterAccessType,
        addr: usize,
        len: usize,
        before: u64,
        after: u64,
    ) -> Self {
        RegisterAccess {
            ty: Some(ty),
            addr: Some(addr),
            len: Some(len),
            before: Some(before),
            after: Some(after),
        }
    }

    /// A record with every member present.
    pub fn new(ty: RegisterAccessType, addr: usize, len: usize, before: u64, after: u64) -> (r:
        Self)
        ensures
            r == Self::spec_new(ty, addr, len, before, after),
    {
        RegisterAccess {
            ty: Some(ty),
            addr: Some(addr),
            len: Some(len),
            before: Some(before),
            after: Some(after),
        }
    }

    /// The relation "matches": each member that is present in both records
    /// is the same in both.
    pub open spec fn spec_matches(self, other: Self) -> bool {
        &&& member_matches(self.ty, other.ty)
        &&& member_matches(self.addr, other.addr)
        &&& member_matches(self.len, other.len)
        &&& member_matches(self.before, other.before)
        &&& member_matches(self.after, other.after)
    }

    /// Whether the two records match: a member is compared only where both
    /// records hold it, so the record without members matches every record.
    /// The relation is reflexive and symmetric, and it is not transitive.
    pub fn matches(&self, other: &Self) -> (r: bool)
        ensures
            r == self.spec_matches(*other),
    {
        let ty = match (self.ty, other.ty) {
            (Some(a), Some(b)) => a == b,
            _ => true,
        };
        let addr = match (self.addr, other.addr) {
            (Some(a), Some(b)) => a == b,
            _ => true,
        };
        let len = match (self.len, other.len) {
            (Some(a), Some(b)) => a == b,
            _ => true,
        };
        let before = match (self.before, other.before) {
            (Some(a), Some(b)) => a == b,
            _ => true,
        };
        let after = match (self.after, other.after) {
            (Some(a), Some(b)) => a == b,
            _ => true,
        };
        ty && addr && len && before && after
    }

    /// Whether the two records are the same, member by member: a member that
    /// is absent in one is absent in the other.
    pub fn identical(&self, other: &Self) -> (r: bool)
        ensures
            r == (*self == *other),
    {
        let ty = match (self.ty, other.ty) {
            (Some(a), Some(b)) => a == b,
            (None, None) => true,
            _ => false,
        };
        let addr = match (self.addr, other.addr) {
            (Some(a), Some(b)) => a == b,
            (None, None) => true,
            _ => false,
        };
        let len = match (self.len, other.len) {
            (Some(a), Some(b)) => a == b,
            (None, None) => true,
            _ => false,
        };
        let before = match (self.before, other.before) {
            (Some(a), Some(b)) => a == b,
            (None, None) => true,
            _ => false,
        };
        let after = match (self.after, other.after) {
            (Some(a), Some(b)) => a == b,
            (None, None) => true,
            _ => false,
        };
        ty && addr && len && before && after
    }

    /// Whether the record is a read.
    pub open spec fn spec_is_read(self) -> bool {
        self.ty == Some(RegisterAccessType::READ)
    }

    /// Whether the record is a write.
    pub open spec fn spec_is_write(self) -> bool {
        self.ty == Some(RegisterAccessType::WRITE)
    }

    /// Whether the record is an access to the register at `addr`.
    pub open spec fn spec_targets(self, addr: usize) -> bool {
        self.addr == Some(addr)
    }

    /// Whether the record is a read.
    pub fn is_read(&self) -> (r: bool)
        ensures
            r == self.spec_is_read(),
    {
        match self.ty {
            Some(RegisterAccessType::READ) => true,
            _ => false,
        }
    }

    /// Whether the record is a write.
    pub fn is_write(&self) -> (r: bool)
        ensures
            r == self.spec_is_write(),
    {
        match self.ty {
            Some(RegisterAccessType::WRITE) => true,
            _ => false,
        }
    }

    /// Whether the record is an access to the register at `addr`.
    pub fn targets(&self, addr: usize) -> (r: bool)
        ensures
            r == self.spec_targets(addr),
    {
        match self.addr {
            Some(a) => a == addr,
            None => false,
        }
    }
}

/// The text of an optional kind: `Some(..)` around its name, or `None`.
pub open spec fn spec_kind_text(ty: Option<RegisterAccessType>) -> Seq<char> {
    match ty {
        Some(t) => "Some("@ + t.spec_name() + ")"@,
        None => "None"@,
    }
}

/// Appends the text of an optional kind to `out`.
pub fn push_kind_text(out: &mut String, ty: Option<RegisterAccessType>)
    ensures
        final(out)@ == old(out)@ + spec_kind_text(ty),
{
    match ty {
        Some(t) => {
            out.push_str("Some(");
            out.push_str(t.name());
            out.push_str(")");
            proof {
                assert(out@ =~= old(out)@ + spec_kind_text(ty));
            }
        },
        None => {
            out.push_str("None");
        },
    }
}

/// One member of a record as text: nothing where it is absent.
pub open spec fn spec_member_text(name: Seq<char>, value: Option<Seq<char>>) -> Seq<Seq<char>> {
    match value {
        Some(v) => seq![name + v],
        None => Seq::empty(),
    }
}

/// The members as text, between braces; nothing where there is none.
pub open spec fn spec_braced(members: Seq<Seq<char>>) -> Seq<char> {
    if members.len() == 0 {
        Seq::empty()
    } else {
        " { "@ + joined(members, ", "@) + " }"@
    }
}

/// The members as text after the opening brace, before the closing one.
pub open spec fn spec_opened(members: Seq<Seq<char>>) -> Seq<char> {
    if members.len() == 0 {
        Seq::empty()
    } else {
        " { "@ + joined(members, ", "@)
    }
}

/// The text of a value that may be absent.
pub open spec fn spec_value_text(value: Option<String>) -> Option<Seq<char>> {
    match value {
        Some(v) => Some(v@),
        None => None,
    }
}

/// Appends one member, with what parts it from the one before, to `out`,
/// where the member is present. Returns whether any member was appended so
/// far.
fn push_member(
    out: &mut String,
    any: bool,
    name: &str,
    value: Option<String>,
    Ghost(head): Ghost<Seq<char>>,
    Ghost(members): Ghost<Seq<Seq<char>>>,
) -> (r: bool)
    requires
        any == (members.len() > 0),
        old(out)@ == head + spec_opened(members),
    ensures
        r == ((members + spec_member_text(name@, spec_value_text(value))).len() > 0),
        final(out)@ == head + spec_opened(
            members + spec_member_text(name@, spec_value_text(value)),
        ),
{
    match value {
        Some(v) => {
            if any {
                out.push_str(", ");
            } else {
                out.push_str(" { ");
            }
            out.push_str(name);
            out.push_str(v.as_str());
            proof {
                let next = members.push(name@ + v@);
                assert(next =~= members + spec_member_text(name@, spec_value_text(value)));
                assert(next.drop_last() =~= members);
                assert(next.last() == name@ + v@);
                if members.len() == 0 {
                    assert(joined(next, ", "@) == name@ + v@);
                    assert(out@ =~= head + (" { "@ + (name@ + v@)));
                } else {
                    assert(joined(next, ", "@) == joined(members, ", "@) + ", "@ + (name@ + v@));
                    assert(out@ =~= head + (" { "@ + (joined(members, ", "@) + ", "@ + (name@
                        + v@))));
                }
            }
            true
        },
        None => {
            proof {
                assert(members + spec_member_text(name@, spec_value_text(value)) =~= members);
            }
            any
        },
    }
}

/// The number in decimal, where there is one.
fn decimal_text(v: Option<u64>) -> (r: Option<String>)
    ensures
        spec_value_text(r) == match v {
            Some(n) => Some(decimal(n as nat)),
            None => None,
        },
{
    match v {
        Some(n) => Some(decimal_string(n)),
        None => None,
    }
}

/// The address or length as a number of 64 bits, where there is one.
fn widened(v: Option<usize>) -> (r: Option<u64>)
    ensures
        r == match v {
            Some(n) => Some(n as u64),
            None => None,
        },
{
    match v {
        Some(n) => Some(n as u64),
        None => None,
    }
}

impl RegisterAccess {
    /// The members that are present, each as its name, a colon and its
    /// value, numbers in decimal.
    pub open spec fn spec_members_text(self) -> Seq<Seq<char>> {
        spec_member_text(
            "ty: "@,
            match self.ty {
                Some(t) => Some(t.spec_name()),
                None => None,
            },
        ) + spec_member_text(
            "addr: "@,
            match self.addr {
                Some(v) => Some(decimal(v as nat)),
                None => None,
            },
        ) + spec_member_text(
            "len: "@,
            match self.len {
                Some(v) => Some(decimal(v as nat)),
                None => None,
            },
        ) + spec_member_text(
            "before: "@,
            match self.before {
                Some(v) => Some(decimal(v as nat)),
                None => None,
            },
        ) + spec_member_text(
            "after: "@,
            match self.after {
                Some(v) => Some(decimal(v as nat)),
                None => None,
            },
        )
    }

    /// The record as text: its name, then the members that are present
    /// between braces.
    pub open spec fn spec_debug_text(self) -> Seq<char> {
        "RegisterAccess"@ + spec_braced(self.spec_members_text())
    }

    /// The record as text for diagnostics; absent members are left out.
    pub fn debug_string(&self) -> (r: String)
        ensures
            r@ == self.spec_debug_text(),
    {
        let mut out = String::new();
        out.push_str("RegisterAccess");
        let ghost head = "RegisterAccess"@;
        let ghost m0: Seq<Seq<char>> = Seq::empty();
        proof {
            assert(out@ =~= head + spec_opened(m0));
        }
        let ty = match self.ty {
            Some(t) => Some(t.name().to_owned()),
            None => None,
        };
        let any = push_member(&mut out, false, "ty: ", ty, Ghost(head), Ghost(m0));
        let ghost m1 = m0 + spec_member_text("ty: "@, spec_value_text(ty));
        let addr = decimal_text(widened(self.addr));
        let any = push_member(&mut out, any, "addr: ", addr, Ghost(head), Ghost(m1));
        let ghost m2 = m1 + spec_member_text("addr: "@, spec_value_text(addr));
        let len = decimal_text(widened(self.len));
        let any = push_member(&mut out, any, "len: ", len, Ghost(head), Ghost(m2));
        let ghost m3 = m2 + spec_member_text("len: "@, spec_value_text(len));
        let before = decimal_text(self.before);
        let any = push_member(&mut out, any, "before: ", before, Ghost(head), Ghost(m3));
        let ghost m4 = m3 + spec_member_text("before: "@, spec_value_text(before));
        let after = decimal_text(self.after);
        let any = push_member(&mut out, any, "after: ", after, Ghost(head), Ghost(m4));
        let ghost m5 = m4 + spec_member_text("after: "@, spec_value_text(after));
        proof {
            assert(m5 =~= self.spec_members_text());
        }
        if any {
            out.push_str(" }");
        }
        proof {
            assert(out@ =~= head + spec_braced(m5));
        }
        out
    }
}

/// What can go wrong when a record is built from a builder.
#[derive(Debug, Clone, Copy)]
pub enum RegisterAccessBuilderError {
    /// A member without a default was not set.
    UninitializedField,
    /// The members set do not make a valid record.
    ValidationError,
}

/// Builds a [`RegisterAccess`] member by member; a member that was not set
/// is absent from the record.
#[derive(Debug, Clone, Copy)]
pub struct RegisterAccessBuilder {
    /// The record as set so far.
    pub access: RegisterAccess,
}

impl Default for RegisterAccessBuilder {
    /// The builder with no member set.
    fn default() -> (r: Self)
        ensures
            r.access == RegisterAccess::spec_empty(),
    {
        RegisterAccessBuilder { access: RegisterAccess::default() }
    }
}

impl RegisterAccessBuilder {
    /// Sets the kind of the access.
    pub fn ty(&mut self, value: RegisterAccessType) -> (r: &mut Self)
        ensures
            *r == (RegisterAccessBuilder {
                access: RegisterAccess { ty: Some(value), ..old(self).access },
            }),
            *final(self) == *final(r),
    {
        self.access.ty = Some(value);
        self
    }

    /// Sets the address of the accessed register.
    pub fn addr(&mut self, value: usize) -> (r: &mut Self)
        ensures
            *r == (RegisterAccessBuilder {
                access: RegisterAccess { addr: Some(value), ..old(self).access },
            }),
            *final(self) == *final(r),
    {
        self.access.addr = Some(value);
        self
    }

    /// Sets the length of the access in bytes.
    pub fn len(&mut self, value: usize) -> (r: &mut Self)
        ensures
            *r == (RegisterAccessBuilder {
                access: RegisterAccess { len: Some(value), ..old(self).access },
            }),
            *final(self) == *final(r),
    {
        self.access.len = Some(value);
        self
    }

    /// Sets the value of the register before the access.
    pub fn before(&mut self, value: u64) -> (r: &mut Self)
        ensures
            *r == (RegisterAccessBuilder {
                access: RegisterAccess { before: Some(value), ..old(self).access },
            }),
            *final(self) == *final(r),
    {
        self.access.before = Some(value);
        self
    }

    /// Sets the value of the register after the access.
    pub fn after(&mut self, value: u64) -> (r: &mut Self)
        ensures
            *r == (RegisterAccessBuilder {
                access: RegisterAccess { after: Some(value), ..old(self).access },
            }),
            *final(self) == *final(r),
    {
        self.access.after = Some(value);
        self
    }

    /// The record with the members that were set. It never fails: every
    /// member has a default, which is to be absent.
    pub fn build(&self) -> (r: Result<RegisterAccess, RegisterAccessBuilderError>)
        ensures
            r == Ok::<RegisterAccess, RegisterAccessBuilderError>(self.access),
    {
        Ok(self.access)
    }
}

/// Every record matches itself.
pub proof fn matches_is_reflexive(a: RegisterAccess)
    ensures
        a.spec_matches(a),
{
}

/// If one record matches another, the other matches the first.
pub proof fn matches_is_symmetric(a: RegisterAccess, b: RegisterAccess)
    ensures
        a.spec_matches(b) == b.spec_matches(a),
{
}

/// The record without members matches every record.
pub proof fn empty_record_matches_all(a: RegisterAccess)
    ensures
        RegisterAccess::spec_empty().spec_matches(a),
        a.spec_matches(RegisterAccess::spec_empty()),
{
}

/// A record that holds only its kind matches every record of that kind,
/// whatever its address, length and values.
pub proof fn kind_only_matches_every_record_of_kind(kind: RegisterAccessType, a: RegisterAccess)
    requires
        a.ty == Some(kind),
    ensures
        (RegisterAccess { ty: Some(kind), ..RegisterAccess::spec_empty() }).spec_matches(a),
        a.spec_matches(RegisterAccess { ty: Some(kind), ..RegisterAccess::spec_empty() }),
{
}

/// "Matches" is not an equivalence: two records that differ can both match a
/// third.
pub proof fn matches_is_not_transitive()
    ensures
        exists|a: RegisterAccess, b: RegisterAccess, c: RegisterAccess|
            a.spec_matches(b) && b.spec_matches(c) && !a.spec_matches(c),
{
    let a = RegisterAccess { addr: Some(1), ..RegisterAccess::spec_empty() };
    let b = RegisterAccess::spec_empty();
    let c = RegisterAccess { addr: Some(2), ..RegisterAccess::spec_empty() };
    assert(a.spec_matches(b) && b.spec_matches(c) && !a.spec_matches(c));
}

} // verus!
