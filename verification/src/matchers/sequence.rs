//! Matchers that hold a sequence of accesses, or of written values, against
//! an expected one, element by element.
use vstd::prelude::*;
use crate::matchers::diff::{
    diff_with, lemma_describes_is_diff, lemma_diff_in_range, lemma_no_diff_iff_agree, spec_diff,
    SeqDiff,
};
use crate::matchers::{is_write_to, register_id, spec_register_id, LogMatcher, MatchError};
use crate::text::{decimal, hex8, join, joined, push_decimal, push_hex8, texts};
use crate::utils::{NameTable, RegisterAccess};

verus! {

/// The value that `access` writes to the register at `addr`, where it is a
/// write to that register and holds the value.
pub open spec fn written_value(addr: usize) -> spec_fn(RegisterAccess) -> Option<u64> {
    |access: RegisterAccess|
        if is_write_to(access, addr) {
            access.after
        } else {
            None
        }
}

/// The values written to the register at `addr`, in their order.
pub open spec fn spec_written_values(log: Seq<RegisterAccess>, addr: usize) -> Seq<u64> {
    log.filter_map(written_value(addr))
}

/// Whether two values are the same.
pub open spec fn same_value() -> spec_fn(u64, u64) -> bool {
    |actual: u64, expected: u64| actual == expected
}

/// Whether an access matches the one that was expected.
pub open spec fn matches_expected() -> spec_fn(RegisterAccess, RegisterAccess) -> bool {
    |actual: RegisterAccess, expected: RegisterAccess| expected.spec_matches(actual)
}

/// Each value in hexadecimal, upper case and at least eight digits wide,
/// behind `prefix`.
pub open spec fn spec_hex_lines(values: Seq<u64>, prefix: Seq<char>) -> Seq<Seq<char>> {
    Seq::new(values.len(), |i: int| prefix + hex8(values[i] as nat, true))
}

/// Each access as text.
pub open spec fn spec_debug_lines(accesses: Seq<RegisterAccess>) -> Seq<Seq<char>> {
    Seq::new(accesses.len(), |i: int| accesses[i].spec_debug_text())
}

/// The values written to the register at `addr`, in their order.
pub fn written_values(log: &Vec<RegisterAccess>, addr: usize) -> (r: Vec<u64>)
    ensures
        r@ == spec_written_values(log@, addr),
{
    let mut out: Vec<u64> = Vec::new();
    let mut i: usize = 0;
    proof {
        assert(log@.take(0) =~= Seq::empty());
    }
    while i < log.len()
        invariant
            i <= log@.len(),
            out@ == spec_written_values(log@.take(i as int), addr),
        decreases log@.len() - i,
    {
        proof {
            assert(log@.take(i + 1).drop_last() =~= log@.take(i as int));
            assert(log@.take(i + 1).last() == log@[i as int]);
        }
        let access = &log[i];
        if access.is_write() && access.targets(addr) {
            if let Some(value) = access.after {
                out.push(value);
                proof {
                    assert(out@ =~= spec_written_values(log@.take(i as int), addr) + seq![value]);
                }
            }
        }
        i = i + 1;
    }
    proof {
        assert(log@.take(i as int) =~= log@);
    }
    out
}

/// The values from index `from` on, each in hexadecimal behind `prefix`.
fn hex_lines(values: &Vec<u64>, from: usize, prefix: &str) -> (r: Vec<String>)
    requires
        from <= values@.len(),
    ensures
        texts(r@) == spec_hex_lines(values@.skip(from as int), prefix@),
{
    let mut out: Vec<String> = Vec::new();
    let mut i: usize = from;
    while i < values.len()
        invariant
            from <= i <= values@.len(),
            out@.len() == i - from,
            forall|k: int|
                0 <= k < out@.len() ==> (#[trigger] out@[k])@ == prefix@ + hex8(
                    values@[from + k] as nat,
                    true,
                ),
        decreases values@.len() - i,
    {
        let mut line = String::new();
        line.push_str(prefix);
        push_hex8(&mut line, values[i], true);
        proof {
            assert(line@ =~= prefix@ + hex8(values@[i as int] as nat, true));
        }
        out.push(line);
        i = i + 1;
    }
    proof {
        assert(texts(out@) =~= spec_hex_lines(values@.skip(from as int), prefix@));
    }
    out
}

/// The accesses from index `from` on, each as text.
fn debug_lines(accesses: &Vec<RegisterAccess>, from: usize) -> (r: Vec<String>)
    requires
        from <= accesses@.len(),
    ensures
        texts(r@) == spec_debug_lines(accesses@.skip(from as int)),
{
    let mut out: Vec<String> = Vec::new();
    let mut i: usize = from;
    while i < accesses.len()
        invariant
            from <= i <= accesses@.len(),
            out@.len() == i - from,
            forall|k: int|
                0 <= k < out@.len() ==> (#[trigger] out@[k])@ == accesses@[from
                    + k].spec_debug_text(),
        decreases accesses@.len() - i,
    {
        out.push(accesses[i].debug_string());
        i = i + 1;
    }
    proof {
        assert(texts(out@) =~= spec_debug_lines(accesses@.skip(from as int)));
    }
    out
}

/// How the written values differ from the expected ones.
pub fn diff_values(actual: &Vec<u64>, expected: &Vec<u64>) -> (r: Option<SeqDiff>)
    ensures
        r == spec_diff(actual@, expected@, same_value()),
{
    let is_equal = |a: &u64, b: &u64| -> (same: bool)
        ensures
            same == (*a == *b),
        { *a == *b };
    let r = diff_with(actual, expected, is_equal);
    proof {
        lemma_describes_is_diff(
            r,
            actual@,
            expected@,
            same_value(),
            |a: u64, b: u64| call_ensures(is_equal, (&a, &b), true),
            |a: u64, b: u64| call_ensures(is_equal, (&a, &b), false),
        );
    }
    r
}

/// How the accesses differ from the expected ones, where an access is held
/// against the expected one by the relation "matches".
pub fn diff_accesses(actual: &Vec<RegisterAccess>, expected: &Vec<RegisterAccess>) -> (r: Option<
    SeqDiff,
>)
    ensures
        r == spec_diff(actual@, expected@, matches_expected()),
{
    let is_equal = |a: &RegisterAccess, b: &RegisterAccess| -> (same: bool)
        ensures
            same == b.spec_matches(*a),
        { b.matches(a) };
    let r = diff_with(actual, expected, is_equal);
    proof {
        lemma_describes_is_diff(
            r,
            actual@,
            expected@,
            matches_expected(),
            |a: RegisterAccess, b: RegisterAccess| call_ensures(is_equal, (&a, &b), true),
            |a: RegisterAccess, b: RegisterAccess| call_ensures(is_equal, (&a, &b), false),
        );
    }
    r
}

/// The values written to a register are exactly the expected ones, in
/// their number and order. Reads, and writes to other registers, are
/// ignored.
#[derive(Debug, Clone)]
pub struct ValuesWrittenAre {
    /// Address of the register.
    pub address: usize,
    /// The values that are expected to be written to it, in their order.
    pub write_sequence: Vec<u64>,
}

impl ValuesWrittenAre {
    /// The matcher for the register at `address` and the values
    /// `write_sequence`.
    pub fn new(address: usize, write_sequence: Vec<u64>) -> (r: Self)
        ensures
            r.address == address,
            r.write_sequence == write_sequence,
    {
        ValuesWrittenAre { address, write_sequence }
    }

    /// How the values written in `log` differ from the expected ones.
    pub open spec fn spec_difference(&self, log: Seq<RegisterAccess>) -> Option<SeqDiff> {
        spec_diff(spec_written_values(log, self.address), self.write_sequence@, same_value())
    }
}

/// What is reported of written values that differ from the expected ones.
pub open spec fn spec_values_reason(
    diff: SeqDiff,
    id: Seq<char>,
    actual: Seq<u64>,
    expected: Seq<u64>,
) -> Seq<char> {
    match diff {
        SeqDiff::FirstMismatch(index) => "Actual writes to "@ + id
            + " differ from expected writes at index:"@ + decimal(index as nat)
            + " with actual: 0x"@ + hex8(actual[index as int] as nat, true)
            + " and expected: 0x"@ + hex8(expected[index as int] as nat, true),
        SeqDiff::Shorter(count) => "Found more writes to "@ + id + " than expected. Expected "@
            + decimal(count as nat) + " writes.\nValues of the surplus writes are:\n"@ + joined(
            spec_hex_lines(actual.skip(count as int), "0x"@),
            "\n"@,
        ),
        SeqDiff::Longer(count) => "Expected more writes to "@ + id + ". Only "@ + decimal(
            count as nat,
        ) + " elements were written.\nValues of the remaining expected writes are:\n"@ + joined(
            spec_hex_lines(expected.skip(count as int), "0X"@),
            "\n"@,
        ),
    }
}

/// What is reported of written values that differ from the expected ones.
fn values_reason(diff: SeqDiff, id: String, actual: &Vec<u64>, expected: &Vec<u64>) -> (r: String)
    requires
        match diff {
            SeqDiff::FirstMismatch(index) => index < actual@.len() && index < expected@.len(),
            SeqDiff::Shorter(count) => count <= actual@.len(),
            SeqDiff::Longer(count) => count <= expected@.len(),
        },
    ensures
        r@ == spec_values_reason(diff, id@, actual@, expected@),
{
    let mut out = String::new();
    match diff {
        SeqDiff::FirstMismatch(index) => {
            out.push_str("Actual writes to ");
            out.push_str(id.as_str());
            out.push_str(" differ from expected writes at index:");
            push_decimal(&mut out, index);
            out.push_str(" with actual: 0x");
            push_hex8(&mut out, actual[index], true);
            out.push_str(" and expected: 0x");
            push_hex8(&mut out, expected[index], true);
        },
        SeqDiff::Shorter(count) => {
            out.push_str("Found more writes to ");
            out.push_str(id.as_str());
            out.push_str(" than expected. Expected ");
            push_decimal(&mut out, count);
            out.push_str(" writes.\nValues of the surplus writes are:\n");
            let lines = hex_lines(actual, count, "0x");
            out.push_str(join(&lines, "\n").as_str());
        },
        SeqDiff::Longer(count) => {
            out.push_str("Expected more writes to ");
            out.push_str(id.as_str());
            out.push_str(". Only ");
            push_decimal(&mut out, count);
            out.push_str(" elements were written.\nValues of the remaining expected writes are:\n");
            let lines = hex_lines(expected, count, "0X");
            out.push_str(join(&lines, "\n").as_str());
        },
    }
    proof {
        assert(out@ =~= spec_values_reason(diff, id@, actual@, expected@));
    }
    out
}

impl LogMatcher for ValuesWrittenAre {
    open spec fn spec_name(&self) -> Seq<char> {
        "ValuesWrittenAre"@
    }

    open spec fn accepts(&self, log: Seq<RegisterAccess>) -> bool {
        self.spec_difference(log).is_none()
    }

    open spec fn spec_reason(&self, log: Seq<RegisterAccess>, names: Option<&NameTable>) -> Seq<
        char,
    > {
        match self.spec_difference(log) {
            Some(diff) => spec_values_reason(
                diff,
                spec_register_id(names, self.address),
                spec_written_values(log, self.address),
                self.write_sequence@,
            ),
            None => Seq::empty(),
        }
    }

    /// Succeeds where the values written to the register in `log` are the
    /// expected ones. Elsewhere it reports the first index at which a value
    /// differs, with the two values; or, where one sequence only goes on,
    /// the values that are surplus or missing.
    fn match_log(self, log: &Vec<RegisterAccess>, names: Option<&NameTable>) -> (r: Result<
        (),
        MatchError,
    >) {
        let actual = written_values(log, self.address);
        let found = actual.len();
        let wanted = self.write_sequence.len();
        match diff_values(&actual, &self.write_sequence) {
            Some(diff) => {
                proof {
                    assert(found == actual@.len() && wanted == self.write_sequence@.len());
                    lemma_diff_in_range(actual@, self.write_sequence@, same_value());
                }
                let id = register_id(names, self.address);
                MatchError::error(
                    "ValuesWrittenAre",
                    values_reason(diff, id, &actual, &self.write_sequence),
                )
            },
            None => Ok(()),
        }
    }
}

/// The accesses are the expected ones, one by one: each access matches the
/// expected access at its place, and there are as many of the one as of the
/// other. All registers and both kinds of access count.
#[derive(Debug, Clone)]
pub struct LogSequenceMatcher {
    /// The expected accesses, in their order.
    pub seq: Vec<RegisterAccess>,
}

impl LogSequenceMatcher {
    /// The matcher for the expected accesses `seq`.
    pub fn new(seq: Vec<RegisterAccess>) -> (r: Self)
        ensures
            r.seq == seq,
    {
        LogSequenceMatcher { seq }
    }

    /// How the accesses in `log` differ from the expected ones.
    pub open spec fn spec_difference(&self, log: Seq<RegisterAccess>) -> Option<SeqDiff> {
        spec_diff(log, self.seq@, matches_expected())
    }
}

/// What is reported of accesses that differ from the expected ones.
pub open spec fn spec_accesses_reason(
    diff: SeqDiff,
    actual: Seq<RegisterAccess>,
    expected: Seq<RegisterAccess>,
) -> Seq<char> {
    match diff {
        SeqDiff::FirstMismatch(index) =>
            "Actual register accesses differ from expected accesses at index:"@ + decimal(
                index as nat,
            ) + " with\nexpected: "@ + expected[index as int].spec_debug_text() + "\nactual:   "@
                + actual[index as int].spec_debug_text(),
        SeqDiff::Shorter(count) => "Found more accesses than expected. Expected "@ + decimal(
            count as nat,
        ) + " writes.\nValues of the surplus accesses are:\n"@ + joined(
            spec_debug_lines(actual.skip(count as int)),
            "\n"@,
        ),
        SeqDiff::Longer(count) => "Expected more accesse. Only "@ + decimal(count as nat)
            + " accesses were recorded.\nValues of the remaining expected accesses are:\n"@
            + joined(spec_debug_lines(expected.skip(count as int)), "\n"@),
    }
}

/// What is reported of accesses that differ from the expected ones.
fn accesses_reason(diff: SeqDiff, actual: &Vec<RegisterAccess>, expected: &Vec<RegisterAccess>)
    -> (r: String)
    requires
        match diff {
            SeqDiff::FirstMismatch(index) => index < actual@.len() && index < expected@.len(),
            SeqDiff::Shorter(count) => count <= actual@.len(),
            SeqDiff::Longer(count) => count <= expected@.len(),
        },
    ensures
        r@ == spec_accesses_reason(diff, actual@, expected@),
{
    let mut out = String::new();
    match diff {
        SeqDiff::FirstMismatch(index) => {
            out.push_str("Actual register accesses differ from expected accesses at index:");
            push_decimal(&mut out, index);
            out.push_str(" with\nexpected: ");
            out.push_str(expected[index].debug_string().as_str());
            out.push_str("\nactual:   ");
            out.push_str(actual[index].debug_string().as_str());
        },
        SeqDiff::Shorter(count) => {
            out.push_str("Found more accesses than expected. Expected ");
            push_decimal(&mut out, count);
            out.push_str(" writes.\nValues of the surplus accesses are:\n");
            let lines = debug_lines(actual, count);
            out.push_str(join(&lines, "\n").as_str());
        },
        SeqDiff::Longer(count) => {
            out.push_str("Expected more accesse. Only ");
            push_decimal(&mut out, count);
            out.push_str(
                " accesses were recorded.\nValues of the remaining expected accesses are:\n",
            );
            let lines = debug_lines(expected, count);
            out.push_str(join(&lines, "\n").as_str());
        },
    }
    proof {
        assert(out@ =~= spec_accesses_reason(diff, actual@, expected@));
    }
    out
}

impl LogMatcher for LogSequenceMatcher {
    open spec fn spec_name(&self) -> Seq<char> {
        "LogSequenceMatcher"@
    }

    open spec fn accepts(&self, log: Seq<RegisterAccess>) -> bool {
        self.spec_difference(log).is_none()
    }

    open spec fn spec_reason(&self, log: Seq<RegisterAccess>, names: Option<&NameTable>) -> Seq<
        char,
    > {
        match self.spec_difference(log) {
            Some(diff) => spec_accesses_reason(diff, log, self.seq@),
            None => Seq::empty(),
        }
    }

    /// Succeeds where each access in `log` matches the expected access at
    /// its place and none is surplus or missing. Elsewhere it reports the
    /// first index at which the two do not match, with both accesses; or,
    /// where one sequence only goes on, the accesses that are surplus or
    /// missing.
    fn match_log(self, log: &Vec<RegisterAccess>, names: Option<&NameTable>) -> (r: Result<
        (),
        MatchError,
    >) {
        let found = log.len();
        let wanted = self.seq.len();
        match diff_accesses(log, &self.seq) {
            Some(diff) => {
                proof {
                    assert(found == log@.len() && wanted == self.seq@.len());
                    lemma_diff_in_range(log@, self.seq@, matches_expected());
                }
                MatchError::error("LogSequenceMatcher", accesses_reason(diff, log, &self.seq))
            },
            None => Ok(()),
        }
    }
}

/// The values written are accepted exactly where they are the expected
/// ones.
pub proof fn values_accepted_iff_equal(matcher: ValuesWrittenAre, log: Seq<RegisterAccess>)
    requires
        spec_written_values(log, matcher.address).len() <= usize::MAX,
        matcher.write_sequence@.len() <= usize::MAX,
    ensures
        matcher.accepts(log) <==> spec_written_values(log, matcher.address)
            == matcher.write_sequence@,
{
    let actual = spec_written_values(log, matcher.address);
    let expected = matcher.write_sequence@;
    lemma_diff_in_range(actual, expected, same_value());
    lemma_no_diff_iff_agree(actual, expected, same_value());
    if matcher.accepts(log) {
        assert forall|i: int| 0 <= i < actual.len() implies actual[i] == expected[i] by {
            assert(same_value()(actual[i], expected[i]));
        }
        assert(actual =~= expected);
    }
}

/// The accesses are accepted exactly where there are as many as expected
/// and each matches the expected access at its place.
pub proof fn accesses_accepted_iff_all_match(matcher: LogSequenceMatcher, log: Seq<RegisterAccess>)
    ensures
        matcher.accepts(log) <==> (log.len() == matcher.seq@.len() && forall|i: int|
            0 <= i < log.len() ==> (#[trigger] matcher.seq@[i]).spec_matches(log[i])),
{
    lemma_no_diff_iff_agree(log, matcher.seq@, matches_expected());
    if matcher.accepts(log) {
        assert forall|i: int| 0 <= i < log.len() implies (#[trigger] matcher.seq@[i]).spec_matches(
            log[i],
        ) by {
            assert(matches_expected()(log[i], matcher.seq@[i]));
        }
    }
}

} // verus!
