//! Matchers that count the writes to one register.
use vstd::prelude::*;
use crate::matchers::{
    count_writes, register_id, spec_register_id, writes_to, LogMatcher, MatchError,
};
use crate::text::{decimal, push_decimal};
use crate::utils::{NameTable, RegisterAccess};

verus! {

/// What is reported where a register was not written as often as it should.
pub open spec fn spec_write_count_reason(id: Seq<char>, count: nat) -> Seq<char> {
    "Register: "@ + id + " was written to "@ + decimal(count) + " times"@
}

/// What is reported where a register was not written as often as it should.
fn write_count_reason(id: String, count: usize) -> (r: String)
    ensures
        r@ == spec_write_count_reason(id@, count as nat),
{
    let mut out = String::new();
    out.push_str("Register: ");
    out.push_str(id.as_str());
    out.push_str(" was written to ");
    push_decimal(&mut out, count);
    out.push_str(" times");
    proof {
        assert(out@ =~= spec_write_count_reason(id@, count as nat));
    }
    out
}

/// The register was written exactly once. Reads are ignored.
#[derive(Debug, Clone, Copy)]
pub struct WrittenOnceMatcher {
    /// Register that must be written once.
    pub target: usize,
}

impl WrittenOnceMatcher {
    /// The matcher for the register at `target`.
    pub fn new(target: usize) -> (r: Self)
        ensures
            r.target == target,
    {
        WrittenOnceMatcher { target }
    }
}

impl LogMatcher for WrittenOnceMatcher {
    open spec fn spec_name(&self) -> Seq<char> {
        "WrittenOnceMatcher"@
    }

    open spec fn accepts(&self, log: Seq<RegisterAccess>) -> bool {
        writes_to(log, self.target).len() == 1
    }

    open spec fn spec_reason(&self, log: Seq<RegisterAccess>, names: Option<&NameTable>) -> Seq<
        char,
    > {
        spec_write_count_reason(
            spec_register_id(names, self.target),
            writes_to(log, self.target).len(),
        )
    }

    /// Succeeds where exactly one write to the register is in `log`;
    /// reports the number of writes elsewhere.
    fn match_log(self, log: &Vec<RegisterAccess>, names: Option<&NameTable>) -> (r: Result<
        (),
        MatchError,
    >) {
        let count = count_writes(log, self.target);
        if count == 1 {
            Ok(())
        } else {
            MatchError::error(
                "WrittenOnceMatcher",
                write_count_reason(register_id(names, self.target), count),
            )
        }
    }
}

/// The register was never written. Reads are ignored.
#[derive(Debug, Clone, Copy)]
pub struct NotWrittenMatcher {
    /// Register that must not be written.
    pub target: usize,
}

impl NotWrittenMatcher {
    /// The matcher for the register at `target`.
    pub fn new(target: usize) -> (r: Self)
        ensures
            r.target == target,
    {
        NotWrittenMatcher { target }
    }
}

impl LogMatcher for NotWrittenMatcher {
    open spec fn spec_name(&self) -> Seq<char> {
        "NotWrittenMatcher"@
    }

    open spec fn accepts(&self, log: Seq<RegisterAccess>) -> bool {
        writes_to(log, self.target).len() == 0
    }

    open spec fn spec_reason(&self, log: Seq<RegisterAccess>, names: Option<&NameTable>) -> Seq<
        char,
    > {
        spec_write_count_reason(
            spec_register_id(names, self.target),
            writes_to(log, self.target).len(),
        )
    }

    /// Succeeds where no write to the register is in `log`; reports the
    /// number of writes elsewhere.
    fn match_log(self, log: &Vec<RegisterAccess>, names: Option<&NameTable>) -> (r: Result<
        (),
        MatchError,
    >) {
        let count = count_writes(log, self.target);
        if count == 0 {
            Ok(())
        } else {
            MatchError::error(
                "NotWrittenMatcher",
                write_count_reason(register_id(names, self.target), count),
            )
        }
    }
}

} // verus!
