//! Names of registers, for diagnostics.
use vstd::prelude::*;

verus! {

/// The name that the first entry for `addr` gives, if there is one.
pub open spec fn first_name(entries: Seq<(u64, &'static str)>, addr: u64) -> Option<Seq<char>>
    decreases entries.len(),
{
    if entries.len() == 0 {
        None
    } else if entries[0].0 == addr {
        Some(entries[0].1@)
    } else {
        first_name(entries.skip(1), addr)
    }
}

/// Resolves the address of a register to its name.
#[derive(Debug, Clone)]
pub struct NameTable {
    /// Addresses and the names of the registers at them. Where an address
    /// occurs more than once, the first entry counts.
    pub entries: Vec<(u64, &'static str)>,
}

impl NameTable {
    /// The name of the register at `addr`, if the table has one.
    pub open spec fn spec_name(&self, addr: u64) -> Option<Seq<char>> {
        first_name(self.entries@, addr)
    }

    /// A table of the given entries.
    pub fn new(entries: Vec<(u64, &'static str)>) -> (r: Self)
        ensures
            r.entries == entries,
    {
        NameTable { entries }
    }

    /// The name of the register at `addr`, if the table has one.
    pub fn name(&self, addr: u64) -> (r: Option<&'static str>)
        ensures
            match r {
                Some(s) => self.spec_name(addr) == Some(s@),
                None => self.spec_name(addr).is_none(),
            },
    {
        let mut i: usize = 0;
        proof {
            assert(self.entries@.skip(0) =~= self.entries@);
        }
        while i < self.entries.len()
            invariant
                i <= self.entries@.len(),
                first_name(self.entries@, addr) == first_name(self.entries@.skip(i as int), addr),
            decreases self.entries@.len() - i,
        {
            proof {
                let rest = self.entries@.skip(i as int);
                assert(rest[0] == self.entries@[i as int]);
                assert(rest.skip(1) =~= self.entries@.skip(i + 1));
            }
            if self.entries[i].0 == addr {
                return Some(self.entries[i].1);
            }
            i = i + 1;
        }
        None
    }
}

} // verus!
