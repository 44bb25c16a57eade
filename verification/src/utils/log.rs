//! The recorded accesses, with runs of the same read held as one group.
use vstd::prelude::*;
use crate::utils::RegisterAccess;

verus! {

/// `count` times the record `access`.
pub open spec fn repeated(access: RegisterAccess, count: nat) -> Seq<RegisterAccess> {
    Seq::new(count, |i: int| access)
}

/// The literal sequence of accesses that the groups stand for: each record
/// as many times as its group counts.
pub open spec fn expanded(groups: Seq<(RegisterAccess, usize)>) -> Seq<RegisterAccess>
    decreases groups.len(),
{
    if groups.len() == 0 {
        Seq::empty()
    } else {
        repeated(groups[0].0, groups[0].1 as nat) + expanded(groups.skip(1))
    }
}

/// One record for each group, whatever the group counts.
pub open spec fn compressed(groups: Seq<(RegisterAccess, usize)>) -> Seq<RegisterAccess> {
    Seq::new(groups.len(), |i: int| groups[i].0)
}

/// Whether a new access `entry` is counted into the last group: the group
/// holds a read with the very same members, and its count can still grow.
pub open spec fn merges(groups: Seq<(RegisterAccess, usize)>, entry: RegisterAccess) -> bool {
    &&& groups.len() > 0
    &&& groups.last().0.spec_is_read()
    &&& groups.last().0 == entry
    &&& groups.last().1 < usize::MAX
}

/// Whether the groups show the register at `addr` being polled: the last
/// group is a read of it that counts more than `count`.
pub open spec fn being_polled(groups: Seq<(RegisterAccess, usize)>, addr: usize, count: usize)
    -> bool {
    &&& groups.len() > 0
    &&& groups.last().0.spec_targets(addr)
    &&& groups.last().0.spec_is_read()
    &&& groups.last().1 > count
}

/// The groups after the access `entry` was recorded.
pub open spec fn recorded(groups: Seq<(RegisterAccess, usize)>, entry: RegisterAccess) -> Seq<
    (RegisterAccess, usize),
> {
    if merges(groups, entry) {
        groups.update(groups.len() - 1, (entry, (groups.last().1 + 1) as usize))
    } else {
        groups.push((entry, 1usize))
    }
}

/// The groups after the accesses `entries` were recorded one after the other.
pub open spec fn recorded_all(
    groups: Seq<(RegisterAccess, usize)>,
    entries: Seq<RegisterAccess>,
) -> Seq<(RegisterAccess, usize)>
    decreases entries.len(),
{
    if entries.len() == 0 {
        groups
    } else {
        recorded(recorded_all(groups, entries.drop_last()), entries.last())
    }
}

/// The recorded accesses. Reads are run-length encoded: a read that repeats
/// the one before it in every member is counted, not stored again. Writes
/// are never counted together.
#[derive(Debug, Clone)]
pub struct RegmockLog {
    /// The groups: a record, and how many times in a row it occurred.
    pub log: Vec<(RegisterAccess, usize)>,
}

impl Default for RegmockLog {
    /// The log without entries.
    fn default() -> (r: Self)
        ensures
            r.log@ == Seq::<(RegisterAccess, usize)>::empty(),
    {
        RegmockLog { log: Vec::new() }
    }
}

impl RegmockLog {
    /// The accesses without the repetitions: one record for each group.
    pub open spec fn spec_compressed(&self) -> Seq<RegisterAccess> {
        compressed(self.log@)
    }

    /// All the accesses, in the order in which they were recorded.
    pub open spec fn spec_full(&self) -> Seq<RegisterAccess> {
        expanded(self.log@)
    }

    /// Whether the register at `addr` is being polled: the last group is a
    /// read of it that occurred more than `count` times in a row.
    pub open spec fn spec_is_being_polled(&self, addr: usize, count: usize) -> bool {
        being_polled(self.log@, addr, count)
    }

    /// Records one access. A read that is the same, member by member, as the
    /// read in the last group is counted into that group; every other access
    /// starts a group of its own.
    pub fn push_log_entry(&mut self, entry: RegisterAccess)
        ensures
            final(self).log@ == recorded(old(self).log@, entry),
            final(self).spec_full() == old(self).spec_full().push(entry),
    {
        proof {
            lemma_recorded_expands(self.log@, entry);
        }
        let n = self.log.len();
        if n > 0 {
            let last = self.log[n - 1];
            if last.0.is_read() && last.0.identical(&entry) && last.1 < usize::MAX {
                self.log[n - 1] = (entry, last.1 + 1);
                return ;
            }
        }
        self.log.push((entry, 1));
    }

    /// Whether the register at `addr` is being polled: the last access was a
    /// read of it, and that read has occurred more than `count` times in a
    /// row.
    pub fn is_being_polled(&self, addr: usize, count: usize) -> (r: bool)
        ensures
            r == self.spec_is_being_polled(addr, count),
    {
        let n = self.log.len();
        if n == 0 {
            false
        } else {
            let last = &self.log[n - 1];
            last.0.targets(addr) && last.0.is_read() && last.1 > count
        }
    }

    /// The number of groups: the length of the log without repetitions.
    pub fn len(&self) -> (r: usize)
        ensures
            r == self.spec_compressed().len(),
    {
        self.log.len()
    }

    /// The number of all recorded accesses, where it fits the machine's
    /// word; `None` where it does not.
    pub fn checked_len_full(&self) -> (r: Option<usize>)
        ensures
            match r {
                Some(n) => n == self.spec_full().len(),
                None => self.spec_full().len() > usize::MAX,
            },
    {
        let mut total: usize = 0;
        let mut i: usize = self.log.len();
        proof {
            assert(self.log@.skip(i as int) =~= Seq::empty());
        }
        while i > 0
            invariant
                i <= self.log.len(),
                total == expanded(self.log@.skip(i as int)).len(),
            decreases i,
        {
            i = i - 1;
            proof {
                let rest = self.log@.skip(i as int);
                assert(rest.skip(1) =~= self.log@.skip(i + 1));
                assert(rest[0] == self.log@[i as int]);
                assert(expanded(rest).len() == self.log@[i as int].1 + total);
                lemma_expanded_suffix_len(self.log@, i as int);
            }
            let count = self.log[i].1;
            if count > usize::MAX - total {
                return None;
            }
            total = total + count;
        }
        proof {
            assert(self.log@.skip(0) =~= self.log@);
        }
        Some(total)
    }

    /// The number of all recorded accesses.
    pub fn len_full(&self) -> (r: usize)
        requires
            self.spec_full().len() <= usize::MAX,
        ensures
            r == self.spec_full().len(),
    {
        match self.checked_len_full() {
            Some(n) => n,
            None => 0,
        }
    }
}

/// Walks the accesses without the repetitions: one record for each group.
pub struct IterRegmockLogNoPolling<'a> {
    inner: &'a RegmockLog,
    pos: usize,
}

impl<'a> IterRegmockLogNoPolling<'a> {
    /// The records that are still to come.
    pub closed spec fn spec_remaining(&self) -> Seq<RegisterAccess> {
        if self.pos <= self.inner.log@.len() {
            compressed(self.inner.log@).skip(self.pos as int)
        } else {
            Seq::empty()
        }
    }

    /// The next record, or `None` at the end.
    pub fn next(&mut self) -> (r: Option<&'a RegisterAccess>)
        ensures
            match r {
                Some(access) => old(self).spec_remaining().len() > 0 && *access == old(
                    self,
                ).spec_remaining()[0] && final(self).spec_remaining() == old(
                    self,
                ).spec_remaining().skip(1),
                None => old(self).spec_remaining().len() == 0 && final(self).spec_remaining().len()
                    == 0,
            },
    {
        if self.pos >= self.inner.log.len() {
            None
        } else {
            let entry = &self.inner.log[self.pos];
            self.pos = self.pos + 1;
            proof {
                assert(self.spec_remaining() =~= old(self).spec_remaining().skip(1));
            }
            Some(&entry.0)
        }
    }

    /// The records that are still to come, in a vector.
    pub fn collect(self) -> (r: Vec<RegisterAccess>)
        ensures
            r@ == self.spec_remaining(),
    {
        let mut out: Vec<RegisterAccess> = Vec::new();
        let mut i: usize = self.pos;
        let n = self.inner.log.len();
        while i < n
            invariant
                n == self.inner.log@.len(),
                self.pos <= i,
                self.pos <= n ==> i <= n,
                self.pos > n ==> out@.len() == 0,
                i <= n ==> out@ == compressed(self.inner.log@).subrange(self.pos as int, i as int),
            decreases n - i,
        {
            out.push(self.inner.log[i].0);
            i = i + 1;
            proof {
                assert(out@ =~= compressed(self.inner.log@).subrange(self.pos as int, i as int));
            }
        }
        proof {
            let all = compressed(self.inner.log@);
            assert(all.len() == n);
            if self.pos <= n {
                assert(i == n);
                assert(all.subrange(self.pos as int, n as int) =~= all.skip(self.pos as int));
            }
            assert(out@ =~= self.spec_remaining());
        }
        out
    }
}

/// Walks all the accesses: the record of each group as many times as the
/// group counts. A group that counts nothing gives nothing.
pub struct IterRegmockLogDecoded<'a> {
    inner: &'a RegmockLog,
    pos: usize,
    counter: usize,
}

impl<'a> IterRegmockLogDecoded<'a> {
    /// The records that are still to come.
    pub closed spec fn spec_remaining(&self) -> Seq<RegisterAccess> {
        if self.pos < self.inner.log@.len() {
            let group = self.inner.log@[self.pos as int];
            let left = if group.1 >= self.counter {
                (group.1 - self.counter) as nat
            } else {
                0
            };
            repeated(group.0, left) + expanded(self.inner.log@.skip(self.pos + 1))
        } else {
            Seq::empty()
        }
    }

    /// The next record, or `None` at the end.
    pub fn next(&mut self) -> (r: Option<&'a RegisterAccess>)
        ensures
            match r {
                Some(access) => old(self).spec_remaining().len() > 0 && *access == old(
                    self,
                ).spec_remaining()[0] && final(self).spec_remaining() == old(
                    self,
                ).spec_remaining().skip(1),
                None => old(self).spec_remaining().len() == 0 && final(self).spec_remaining().len()
                    == 0,
            },
    {
        let n = self.inner.log.len();
        while self.pos < n && self.counter >= self.inner.log[self.pos].1
            invariant
                n == self.inner.log@.len(),
                self.inner == old(self).inner,
                self.spec_remaining() == old(self).spec_remaining(),
            decreases n - self.pos,
        {
            proof {
                let rest = self.inner.log@.skip(self.pos + 1);
                if self.pos + 1 < n {
                    assert(rest[0] == self.inner.log@[self.pos + 1]);
                    assert(rest.skip(1) =~= self.inner.log@.skip(self.pos + 2));
                    assert(self.spec_remaining() =~= expanded(rest));
                } else {
                    assert(rest =~= Seq::empty());
                    assert(self.spec_remaining() =~= Seq::empty());
                }
            }
            self.counter = 0;
            self.pos = self.pos + 1;
        }
        if self.pos < n {
            let entry = &self.inner.log[self.pos];
            proof {
                let left = (entry.1 - self.counter) as nat;
                assert(repeated(entry.0, left).skip(1) =~= repeated(entry.0, (left - 1) as nat));
                assert(repeated(entry.0, left)[0] == entry.0);
            }
            self.counter = self.counter + 1;
            proof {
                assert(self.spec_remaining() =~= old(self).spec_remaining().skip(1));
            }
            Some(&entry.0)
        } else {
            None
        }
    }

    /// The records that are still to come, in a vector.
    pub fn collect(self) -> (r: Vec<RegisterAccess>)
        ensures
            r@ == self.spec_remaining(),
    {
        let mut it = self;
        let mut out: Vec<RegisterAccess> = Vec::new();
        loop
            invariant
                out@ + it.spec_remaining() == self.spec_remaining(),
            decreases it.spec_remaining().len(),
        {
            let ghost before = it.spec_remaining();
            let ghost out_before = out@;
            match it.next() {
                Some(access) => {
                    out.push(*access);
                    proof {
                        assert(out@ + it.spec_remaining() =~= out_before + before);
                    }
                },
                None => {
                    proof {
                        assert(out@ =~= out@ + it.spec_remaining());
                    }
                    return out;
                },
            }
        }
    }
}

impl RegmockLog {
    /// Walks the accesses without the repetitions.
    pub fn iter(&self) -> (r: IterRegmockLogNoPolling<'_>)
        ensures
            r.spec_remaining() == self.spec_compressed(),
    {
        proof {
            assert(compressed(self.log@).skip(0) =~= compressed(self.log@));
        }
        IterRegmockLogNoPolling { inner: self, pos: 0 }
    }

    /// Walks all the accesses, repetitions included.
    pub fn iter_full(&self) -> (r: IterRegmockLogDecoded<'_>)
        ensures
            r.spec_remaining() == self.spec_full(),
    {
        IterRegmockLogDecoded { inner: self, pos: 0, counter: 0 }
    }
}

/// A single group stands for its record, as many times as it counts.
pub proof fn lemma_expanded_single(access: RegisterAccess, count: usize)
    ensures
        expanded(seq![(access, count)]) == repeated(access, count as nat),
{
    let one = seq![(access, count)];
    assert(one.skip(1) =~= Seq::empty());
    assert(expanded(one.skip(1)) =~= Seq::empty());
    assert(expanded(one) =~= repeated(access, count as nat));
}

/// The literal sequence of groups put one after the other is the literal
/// sequences put one after the other.
pub proof fn lemma_expanded_concat(
    front: Seq<(RegisterAccess, usize)>,
    back: Seq<(RegisterAccess, usize)>,
)
    ensures
        expanded(front + back) == expanded(front) + expanded(back),
    decreases front.len(),
{
    if front.len() == 0 {
        assert(front + back =~= back);
        assert(expanded(front) + expanded(back) =~= expanded(back));
    } else {
        lemma_expanded_concat(front.skip(1), back);
        assert((front + back).skip(1) =~= front.skip(1) + back);
        assert((front + back)[0] == front[0]);
        assert(expanded(front + back) =~= expanded(front) + expanded(back));
    }
}

/// Recording one more access adds that access, and nothing else, to the end
/// of the literal sequence: counting repeated reads loses nothing.
pub proof fn lemma_recorded_expands(groups: Seq<(RegisterAccess, usize)>, entry: RegisterAccess)
    ensures
        expanded(recorded(groups, entry)) == expanded(groups).push(entry),
{
    let after = recorded(groups, entry);
    if merges(groups, entry) {
        let init = groups.drop_last();
        let count = groups.last().1;
        let grown = (count + 1) as usize;
        assert(groups =~= init + seq![(entry, count)]);
        assert(after =~= init + seq![(entry, grown)]);
        lemma_expanded_concat(init, seq![(entry, count)]);
        lemma_expanded_concat(init, seq![(entry, grown)]);
        lemma_expanded_single(entry, count);
        lemma_expanded_single(entry, grown);
        assert(repeated(entry, grown as nat) =~= repeated(entry, count as nat).push(entry));
        assert(expanded(after) =~= expanded(groups).push(entry));
    } else {
        assert(after =~= groups + seq![(entry, 1usize)]);
        lemma_expanded_concat(groups, seq![(entry, 1usize)]);
        lemma_expanded_single(entry, 1usize);
        assert(repeated(entry, 1) =~= seq![entry]);
        assert(expanded(after) =~= expanded(groups).push(entry));
    }
}

/// The literal sequence of a part of the groups is no longer than that of
/// all of them.
pub proof fn lemma_expanded_suffix_len(groups: Seq<(RegisterAccess, usize)>, from: int)
    requires
        0 <= from <= groups.len(),
    ensures
        expanded(groups.skip(from)).len() <= expanded(groups).len(),
    decreases from,
{
    if from == 0 {
        assert(groups.skip(0) =~= groups);
    } else {
        lemma_expanded_suffix_len(groups.skip(1), from - 1);
        assert(groups.skip(1).skip(from - 1) =~= groups.skip(from));
    }
}

/// Recording accesses one after the other adds exactly those accesses, in
/// their order, to the literal sequence.
pub proof fn lemma_recorded_all_expands(
    groups: Seq<(RegisterAccess, usize)>,
    entries: Seq<RegisterAccess>,
)
    ensures
        expanded(recorded_all(groups, entries)) == expanded(groups) + entries,
    decreases entries.len(),
{
    if entries.len() == 0 {
        assert(expanded(groups) + entries =~= expanded(groups));
    } else {
        lemma_recorded_all_expands(groups, entries.drop_last());
        lemma_recorded_expands(recorded_all(groups, entries.drop_last()), entries.last());
        assert(expanded(groups) + entries =~= (expanded(groups) + entries.drop_last()).push(
            entries.last(),
        ));
    }
}

/// The same read, recorded `n` times in a row with nothing in between,
/// makes one group that counts `n`, and stands `n` times in the literal
/// sequence.
pub proof fn repeated_reads_make_one_group(
    groups: Seq<(RegisterAccess, usize)>,
    entry: RegisterAccess,
    n: nat,
)
    requires
        entry.spec_is_read(),
        1 <= n <= usize::MAX,
        !merges(groups, entry),
    ensures
        recorded_all(groups, repeated(entry, n)) == groups.push((entry, n as usize)),
        compressed(recorded_all(groups, repeated(entry, n))) == compressed(groups).push(entry),
        expanded(recorded_all(groups, repeated(entry, n))) == expanded(groups) + repeated(
            entry,
            n,
        ),
    decreases n,
{
    let entries = repeated(entry, n);
    lemma_recorded_all_expands(groups, entries);
    assert(entries.drop_last() =~= repeated(entry, (n - 1) as nat));
    assert(entries.last() == entry);
    if n == 1 {
        assert(recorded_all(groups, entries.drop_last()) == groups);
    } else {
        repeated_reads_make_one_group(groups, entry, (n - 1) as nat);
        let before = groups.push((entry, (n - 1) as usize));
        assert(merges(before, entry));
        assert(recorded(before, entry) =~= groups.push((entry, n as usize)));
    }
    assert(compressed(groups.push((entry, n as usize))) =~= compressed(groups).push(entry));
}

/// An access that is not a read always starts a group of its own.
pub proof fn only_reads_are_counted(groups: Seq<(RegisterAccess, usize)>, entry: RegisterAccess)
    requires
        !entry.spec_is_read(),
    ensures
        recorded(groups, entry) == groups.push((entry, 1usize)),
{
}

/// Two writes recorded one after the other make two groups that count one
/// each, also where the two are the same in every member.
pub proof fn writes_never_merge(
    groups: Seq<(RegisterAccess, usize)>,
    first: RegisterAccess,
    second: RegisterAccess,
)
    requires
        first.spec_is_write(),
        second.spec_is_write(),
    ensures
        recorded(recorded(groups, first), second) == groups.push((first, 1usize)).push(
            (second, 1usize),
        ),
{
}

/// A register is being polled once the same read of it was recorded more
/// often in a row than the threshold. Under a threshold of one or more it
/// stops being polled with the next access that is not that read.
pub proof fn polled_after_repeated_reads(
    groups: Seq<(RegisterAccess, usize)>,
    entry: RegisterAccess,
    n: nat,
    addr: usize,
    count: usize,
    next: RegisterAccess,
)
    requires
        entry.spec_is_read(),
        entry.spec_targets(addr),
        1 <= n <= usize::MAX,
        !merges(groups, entry),
        next != entry,
    ensures
        being_polled(recorded_all(groups, repeated(entry, n)), addr, count) == (n > count),
        count >= 1 ==> !being_polled(
            recorded(recorded_all(groups, repeated(entry, n)), next),
            addr,
            count,
        ),
{
    repeated_reads_make_one_group(groups, entry, n);
}

} // verus!
