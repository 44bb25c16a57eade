//! Matchers: properties of a sequence of recorded accesses, each checked in
//! one pass and reported with a reason where it does not hold.
use vstd::prelude::*;

pub mod counts;
pub mod diff;
pub mod order;
pub mod sequence;

pub use crate::matchers::counts::{NotWrittenMatcher, WrittenOnceMatcher};
pub use crate::matchers::sequence::{LogSequenceMatcher, ValuesWrittenAre};
pub use crate::matchers::order::{
    AllWritesBeforeWritesTo, ReadLastMatcher, WrittenToBeforeWriteTo,
};

use crate::text::{hex8, push_hex8};
use crate::utils::{NameTable, RegisterAccess};

verus! {

/// Why a matcher did not accept a sequence of accesses.
#[derive(Debug)]
pub struct MatchError {
    /// Name of the matcher.
    pub name: &'static str,
    /// What the matcher found.
    pub reason: String,
}

impl MatchError {
    /// The failure of the matcher `name` for the reason `reason`.
    pub fn error(name: &'static str, reason: String) -> (r: Result<(), MatchError>)
        ensures
            r == Err::<(), MatchError>(MatchError { name, reason }),
    {
        Err(MatchError { name, reason })
    }
}

/// A property of a sequence of accesses.
///
/// The caller chooses the sequence: the accesses of a log with or without
/// the repeated reads, or any part of them.
pub trait LogMatcher: Sized {
    /// The name under which the matcher reports.
    spec fn spec_name(&self) -> Seq<char>;

    /// Whether the property holds of `log`.
    spec fn accepts(&self, log: Seq<RegisterAccess>) -> bool;

    /// What the matcher reports where the property does not hold of `log`.
    spec fn spec_reason(&self, log: Seq<RegisterAccess>, names: Option<&NameTable>) -> Seq<char>;

    /// Checks the property on `log`. Registers are named by `names` in the
    /// reason, where it knows them, and by their address elsewhere.
    fn match_log(self, log: &Vec<RegisterAccess>, names: Option<&NameTable>) -> (r: Result<
        (),
        MatchError,
    >)
        ensures
            r.is_ok() == self.accepts(log@),
            match r {
                Ok(_) => true,
                Err(e) => e.name@ == self.spec_name() && e.reason@ == self.spec_reason(
                    log@,
                    names,
                ),
            },
    ;
}

/// Whether `access` is a write to the register at `addr`.
pub open spec fn is_write_to(access: RegisterAccess, addr: usize) -> bool {
    access.spec_is_write() && access.spec_targets(addr)
}

/// The test for the writes to the register at `addr`.
pub open spec fn write_to(addr: usize) -> spec_fn(RegisterAccess) -> bool {
    |access: RegisterAccess| is_write_to(access, addr)
}

/// The test for the accesses to the register at `addr`.
pub open spec fn access_to(addr: usize) -> spec_fn(RegisterAccess) -> bool {
    |access: RegisterAccess| access.spec_targets(addr)
}

/// The test for the writes to one of the registers at `target` and `other`.
pub open spec fn write_to_either(target: usize, other: usize) -> spec_fn(RegisterAccess) -> bool {
    |access: RegisterAccess| is_write_to(access, target) || is_write_to(access, other)
}

/// The writes to the register at `addr`, in their order.
pub open spec fn writes_to(log: Seq<RegisterAccess>, addr: usize) -> Seq<RegisterAccess> {
    log.filter(write_to(addr))
}

/// The accesses to the register at `addr`, in their order.
pub open spec fn accesses_to(log: Seq<RegisterAccess>, addr: usize) -> Seq<RegisterAccess> {
    log.filter(access_to(addr))
}

/// The writes to one of the registers at `target` and `other`, in their
/// order.
pub open spec fn writes_to_either(log: Seq<RegisterAccess>, target: usize, other: usize) -> Seq<
    RegisterAccess,
> {
    log.filter(write_to_either(target, other))
}

/// What one more access adds to the accesses that pass a test: itself where
/// it passes, nothing where it does not.
pub proof fn lemma_filter_step(
    log: Seq<RegisterAccess>,
    pred: spec_fn(RegisterAccess) -> bool,
    i: int,
)
    requires
        0 <= i < log.len(),
    ensures
        log.take(i + 1).filter(pred) == if pred(log[i]) {
            log.take(i).filter(pred).push(log[i])
        } else {
            log.take(i).filter(pred)
        },
{
    reveal(Seq::filter);
    assert(log.take(i + 1).drop_last() =~= log.take(i));
    assert(log.take(i + 1).last() == log[i]);
}

/// No access passes a test before the first one is looked at.
pub proof fn lemma_filter_start(log: Seq<RegisterAccess>, pred: spec_fn(RegisterAccess) -> bool)
    ensures
        log.take(0).filter(pred) == Seq::<RegisterAccess>::empty(),
{
    reveal(Seq::filter);
    assert(log.take(0) =~= Seq::empty());
}

/// How a register is called in a reason: by its name where `names` has
/// one, else by its address in hexadecimal.
pub open spec fn spec_register_id(names: Option<&NameTable>, address: usize) -> Seq<char> {
    match names {
        Some(table) => match table.spec_name(address as u64) {
            Some(name) => name,
            None => "0x"@ + hex8(address as nat, false),
        },
        None => "0x"@ + hex8(address as nat, false),
    }
}

/// How a register is called in a reason: by its name where `names` has
/// one, else by its address in hexadecimal.
pub fn register_id(names: Option<&NameTable>, address: usize) -> (r: String)
    ensures
        r@ == spec_register_id(names, address),
{
    let known = match names {
        Some(table) => table.name(address as u64),
        None => None,
    };
    match known {
        Some(name) => name.to_owned(),
        None => {
            let mut out = String::new();
            out.push_str("0x");
            push_hex8(&mut out, address as u64, false);
            proof {
                assert(out@ =~= "0x"@ + hex8(address as nat, false));
            }
            out
        },
    }
}

/// The number of writes to the register at `addr`.
pub fn count_writes(log: &Vec<RegisterAccess>, addr: usize) -> (r: usize)
    ensures
        r == writes_to(log@, addr).len(),
{
    let mut count: usize = 0;
    let mut i: usize = 0;
    proof {
        lemma_filter_start(log@, write_to(addr));
    }
    while i < log.len()
        invariant
            i <= log@.len(),
            count == writes_to(log@.take(i as int), addr).len(),
            count <= i,
        decreases log@.len() - i,
    {
        proof {
            lemma_filter_step(log@, write_to(addr), i as int);
        }
        if log[i].is_write() && log[i].targets(addr) {
            count = count + 1;
        }
        i = i + 1;
    }
    proof {
        assert(log@.take(i as int) =~= log@);
    }
    count
}

} // verus!
