//! Matchers on the order of the accesses to one or two registers.
use vstd::prelude::*;
use crate::matchers::{
    access_to, accesses_to, lemma_filter_start, lemma_filter_step, register_id, spec_register_id,
    write_to_either, writes_to_either, LogMatcher, MatchError,
};
use crate::utils::{push_kind_text, spec_kind_text, NameTable, RegisterAccess};

verus! {

/// The last access to the register was a read. Accesses to other registers
/// are ignored.
#[derive(Debug, Clone, Copy)]
pub struct ReadLastMatcher {
    /// Register whose last access must be a read.
    pub target: usize,
}

impl ReadLastMatcher {
    /// The matcher for the register at `target`.
    pub fn new(target: usize) -> (r: Self)
        ensures
            r.target == target,
    {
        ReadLastMatcher { target }
    }
}

impl LogMatcher for ReadLastMatcher {
    open spec fn spec_name(&self) -> Seq<char> {
        "ReadLastMatcher"@
    }

    open spec fn accepts(&self, log: Seq<RegisterAccess>) -> bool {
        let touching = accesses_to(log, self.target);
        touching.len() > 0 && touching.last().spec_is_read()
    }

    open spec fn spec_reason(&self, log: Seq<RegisterAccess>, names: Option<&NameTable>) -> Seq<
        char,
    > {
        let touching = accesses_to(log, self.target);
        let id = spec_register_id(names, self.target);
        if touching.len() == 0 {
            "Register: "@ + id + " was not accessed."@
        } else {
            "Last access to register: "@ + id + " was: "@ + spec_kind_text(touching.last().ty)
        }
    }

    /// Succeeds where the register was accessed and the last access to it
    /// is a read; reports the kind of the last access, or that there was
    /// none, elsewhere.
    fn match_log(self, log: &Vec<RegisterAccess>, names: Option<&NameTable>) -> (r: Result<
        (),
        MatchError,
    >) {
        let mut last: Option<RegisterAccess> = None;
        let mut i: usize = 0;
        proof {
            lemma_filter_start(log@, access_to(self.target));
        }
        while i < log.len()
            invariant
                i <= log@.len(),
                last.is_some() == (accesses_to(log@.take(i as int), self.target).len() > 0),
                last.is_some() ==> last == Some(
                    accesses_to(log@.take(i as int), self.target).last(),
                ),
            decreases log@.len() - i,
        {
            proof {
                lemma_filter_step(log@, access_to(self.target), i as int);
            }
            if log[i].targets(self.target) {
                last = Some(log[i]);
            }
            i = i + 1;
        }
        proof {
            assert(log@.take(i as int) =~= log@);
        }
        let id = register_id(names, self.target);
        let mut reason = String::new();
        match last {
            Some(access) => {
                if access.is_read() {
                    return Ok(());
                }
                reason.push_str("Last access to register: ");
                reason.push_str(id.as_str());
                reason.push_str(" was: ");
                push_kind_text(&mut reason, access.ty);
            },
            None => {
                reason.push_str("Register: ");
                reason.push_str(id.as_str());
                reason.push_str(" was not accessed.");
            },
        }
        proof {
            assert(reason@ =~= self.spec_reason(log@, names));
        }
        MatchError::error("ReadLastMatcher", reason)
    }
}

/// How far the writes to two registers have come.
enum Progress {
    /// Neither register was written.
    Unwritten,
    /// The first write went to the other register.
    OtherFirst,
    /// The first write went to the target, and no later one to the other
    /// register.
    TargetFirst,
    /// The first write went to the target, and a later one to the other
    /// register.
    Followed,
}

/// The target was written before the other register was: of the writes to
/// the two, the first goes to the target and a later one to the other
/// register. Reads, and writes to other registers, are ignored.
#[derive(Debug, Clone, Copy)]
pub struct WrittenToBeforeWriteTo {
    /// Register that must be written first.
    pub target: usize,
    /// Register that must be written after it.
    pub other: usize,
}

impl WrittenToBeforeWriteTo {
    /// The matcher for the registers at `target` and `other`.
    pub fn new(target: usize, other: usize) -> (r: Self)
        ensures
            r.target == target,
            r.other == other,
    {
        WrittenToBeforeWriteTo { target, other }
    }

    /// Whether one of the writes after the first goes to the other register.
    pub open spec fn followed(&self, writes: Seq<RegisterAccess>) -> bool {
        exists|j: int| 1 <= j < writes.len() && #[trigger] writes[j].spec_targets(self.other)
    }
}

impl LogMatcher for WrittenToBeforeWriteTo {
    open spec fn spec_name(&self) -> Seq<char> {
        "WrittenToBeforeWriteTo"@
    }

    open spec fn accepts(&self, log: Seq<RegisterAccess>) -> bool {
        let writes = writes_to_either(log, self.target, self.other);
        &&& writes.len() > 0
        &&& !writes[0].spec_targets(self.other)
        &&& self.followed(writes)
    }

    open spec fn spec_reason(&self, log: Seq<RegisterAccess>, names: Option<&NameTable>) -> Seq<
        char,
    > {
        let writes = writes_to_either(log, self.target, self.other);
        let target_id = spec_register_id(names, self.target);
        let other_id = spec_register_id(names, self.other);
        if writes.len() == 0 {
            "No writes to target register: "@ + target_id + " or other register: "@ + other_id
                + " recorded"@
        } else if writes[0].spec_targets(self.other) {
            "Other register: "@ + other_id + " was written to before target register: "@
                + target_id
        } else {
            "Other register: "@ + other_id
                + " was not written to after write to target register: "@ + target_id
        }
    }

    /// Succeeds where the first write to one of the two registers goes to
    /// the target and a later write goes to the other register. Reports that
    /// neither was written, that the other register was written first, or
    /// that it was not written afterwards.
    fn match_log(self, log: &Vec<RegisterAccess>, names: Option<&NameTable>) -> (r: Result<
        (),
        MatchError,
    >) {
        let mut progress = Progress::Unwritten;
        let mut i: usize = 0;
        proof {
            lemma_filter_start(log@, write_to_either(self.target, self.other));
        }
        while i < log.len()
            invariant
                i <= log@.len(),
                match progress {
                    Progress::Unwritten => writes_to_either(
                        log@.take(i as int),
                        self.target,
                        self.other,
                    ).len() == 0,
                    Progress::OtherFirst => {
                        let writes = writes_to_either(log@.take(i as int), self.target, self.other);
                        writes.len() > 0 && writes[0].spec_targets(self.other)
                    },
                    Progress::TargetFirst => {
                        let writes = writes_to_either(log@.take(i as int), self.target, self.other);
                        writes.len() > 0 && !writes[0].spec_targets(self.other) && !self.followed(
                            writes,
                        )
                    },
                    Progress::Followed => {
                        let writes = writes_to_either(log@.take(i as int), self.target, self.other);
                        writes.len() > 0 && !writes[0].spec_targets(self.other) && self.followed(
                            writes,
                        )
                    },
                },
            decreases log@.len() - i,
        {
            let ghost before = writes_to_either(log@.take(i as int), self.target, self.other);
            let ghost after = writes_to_either(log@.take(i + 1), self.target, self.other);
            proof {
                lemma_filter_step(log@, write_to_either(self.target, self.other), i as int);
            }
            let access = &log[i];
            if access.is_write() && (access.targets(self.target) || access.targets(self.other)) {
                proof {
                    assert(after == before.push(*access));
                    assert(forall|j: int| 0 <= j < before.len() ==> after[j] == before[j]);
                }
                match progress {
                    Progress::Unwritten => {
                        if access.targets(self.other) {
                            progress = Progress::OtherFirst;
                        } else {
                            progress = Progress::TargetFirst;
                        }
                    },
                    Progress::OtherFirst => {},
                    Progress::TargetFirst => {
                        if access.targets(self.other) {
                            proof {
                                assert(after[before.len() as int].spec_targets(self.other));
                            }
                            progress = Progress::Followed;
                        } else {
                            proof {
                                assert forall|j: int| 1 <= j < after.len() implies !(
                                #[trigger] after[j].spec_targets(self.other)) by {
                                    if j < before.len() {
                                        assert(after[j] == before[j]);
                                    }
                                }
                            }
                        }
                    },
                    Progress::Followed => {
                        proof {
                            let j = choose|j: int|
                                1 <= j < before.len() && #[trigger] before[j].spec_targets(
                                    self.other,
                                );
                            assert(after[j].spec_targets(self.other));
                        }
                    },
                }
            }
            i = i + 1;
        }
        proof {
            assert(log@.take(i as int) =~= log@);
        }
        let target_id = register_id(names, self.target);
        let other_id = register_id(names, self.other);
        let mut reason = String::new();
        match progress {
            Progress::Followed => {
                return Ok(());
            },
            Progress::Unwritten => {
                reason.push_str("No writes to target register: ");
                reason.push_str(target_id.as_str());
                reason.push_str(" or other register: ");
                reason.push_str(other_id.as_str());
                reason.push_str(" recorded");
            },
            Progress::OtherFirst => {
                reason.push_str("Other register: ");
                reason.push_str(other_id.as_str());
                reason.push_str(" was written to before target register: ");
                reason.push_str(target_id.as_str());
            },
            Progress::TargetFirst => {
                reason.push_str("Other register: ");
                reason.push_str(other_id.as_str());
                reason.push_str(" was not written to after write to target register: ");
                reason.push_str(target_id.as_str());
            },
        }
        proof {
            assert(reason@ =~= self.spec_reason(log@, names));
        }
        MatchError::error("WrittenToBeforeWriteTo", reason)
    }
}

/// All the writes to the target come before the writes to the other
/// register: of the writes to the two, once one does not go to the target,
/// all that follow go to the other register. Reads, and writes to other
/// registers, are ignored; it holds where neither register is written.
#[derive(Debug, Clone, Copy)]
pub struct AllWritesBeforeWritesTo {
    /// Register whose writes must all come first.
    pub target: usize,
    /// Register that is written after them.
    pub other: usize,
}

impl AllWritesBeforeWritesTo {
    /// The matcher for the registers at `target` and `other`.
    pub fn new(target: usize, other: usize) -> (r: Self)
        ensures
            r.target == target,
            r.other == other,
    {
        AllWritesBeforeWritesTo { target, other }
    }

    /// Whether one of the writes does not go to the target.
    pub open spec fn left_target(&self, writes: Seq<RegisterAccess>) -> bool {
        exists|i: int| 0 <= i < writes.len() && !(#[trigger] writes[i].spec_targets(self.target))
    }

    /// Whether, from the first write that does not go to the target on,
    /// every write goes to the other register.
    pub open spec fn in_order(&self, writes: Seq<RegisterAccess>) -> bool {
        forall|i: int, j: int|
            0 <= i <= j < writes.len() && !(#[trigger] writes[i].spec_targets(self.target))
                ==> #[trigger] writes[j].spec_targets(self.other)
    }
}

impl LogMatcher for AllWritesBeforeWritesTo {
    open spec fn spec_name(&self) -> Seq<char> {
        "AllWritesBeforeWritesTo"@
    }

    open spec fn accepts(&self, log: Seq<RegisterAccess>) -> bool {
        self.in_order(writes_to_either(log, self.target, self.other))
    }

    open spec fn spec_reason(&self, log: Seq<RegisterAccess>, names: Option<&NameTable>) -> Seq<
        char,
    > {
        "Target register: "@ + spec_register_id(names, self.target)
            + " was written to after write to other register: "@ + spec_register_id(
            names,
            self.other,
        )
    }

    /// Succeeds where no write to the target follows a write to the other
    /// register; reports that one does elsewhere.
    fn match_log(self, log: &Vec<RegisterAccess>, names: Option<&NameTable>) -> (r: Result<
        (),
        MatchError,
    >) {
        let mut past_target = false;
        let mut in_order = true;
        let mut i: usize = 0;
        proof {
            lemma_filter_start(log@, write_to_either(self.target, self.other));
        }
        while i < log.len()
            invariant
                i <= log@.len(),
                past_target == self.left_target(
                    writes_to_either(log@.take(i as int), self.target, self.other),
                ),
                in_order == self.in_order(
                    writes_to_either(log@.take(i as int), self.target, self.other),
                ),
            decreases log@.len() - i,
        {
            let ghost before = writes_to_either(log@.take(i as int), self.target, self.other);
            let ghost after = writes_to_either(log@.take(i + 1), self.target, self.other);
            proof {
                lemma_filter_step(log@, write_to_either(self.target, self.other), i as int);
            }
            let access = &log[i];
            if access.is_write() && (access.targets(self.target) || access.targets(self.other)) {
                let ghost n = before.len() as int;
                proof {
                    assert(after == before.push(*access));
                    assert(after[n] == *access);
                    assert(forall|j: int| 0 <= j < n ==> after[j] == before[j]);
                }
                let was_past = past_target;
                let was_in_order = in_order;
                if !access.targets(self.target) {
                    past_target = true;
                }
                if past_target && !access.targets(self.other) {
                    in_order = false;
                }
                proof {
                    if was_past {
                        let k = choose|k: int|
                            0 <= k < n && !(#[trigger] before[k].spec_targets(self.target));
                        assert(!after[k].spec_targets(self.target));
                    }
                    if past_target {
                        if !was_past {
                            assert(!after[n].spec_targets(self.target));
                        }
                    } else {
                        assert forall|k: int| 0 <= k < after.len() implies #[trigger] after[k].spec_targets(
                            self.target,
                        ) by {
                            if k < n {
                                assert(after[k] == before[k]);
                            }
                        }
                    }
                    if in_order {
                        assert forall|a: int, b: int|
                            0 <= a <= b < after.len() && !(#[trigger] after[a].spec_targets(
                                self.target,
                            )) implies #[trigger] after[b].spec_targets(self.other) by {
                            if b < n {
                                assert(after[a] == before[a]);
                                assert(after[b] == before[b]);
                            }
                        }
                    } else if was_in_order {
                        let k = if was_past {
                            choose|k: int|
                                0 <= k < n && !(#[trigger] before[k].spec_targets(self.target))
                        } else {
                            n
                        };
                        assert(!after[k].spec_targets(self.target));
                        assert(!after[n].spec_targets(self.other));
                    } else {
                        let (a, b) = choose|a: int, b: int|
                            0 <= a <= b < n && !(#[trigger] before[a].spec_targets(self.target))
                                && !(#[trigger] before[b].spec_targets(self.other));
                        assert(!after[a].spec_targets(self.target));
                        assert(!after[b].spec_targets(self.other));
                    }
                }
            }
            i = i + 1;
        }
        proof {
            assert(log@.take(i as int) =~= log@);
        }
        if in_order {
            Ok(())
        } else {
            let target_id = register_id(names, self.target);
            let other_id = register_id(names, self.other);
            let mut reason = String::new();
            reason.push_str("Target register: ");
            reason.push_str(target_id.as_str());
            reason.push_str(" was written to after write to other register: ");
            reason.push_str(other_id.as_str());
            proof {
                assert(reason@ =~= self.spec_reason(log@, names));
            }
            MatchError::error("AllWritesBeforeWritesTo", reason)
        }
    }
}

} // verus!
