//! The names of the registers of the device, by address.
//!
//! A recorded access holds the address of a register and not the path by
//! which the register was reached. The names make a record of accesses
//! readable: each address is given the paths of the registers that lie at
//! it.
use vstd::prelude::*;
use crate::utils::names::first_name;
use crate::utils::NameTable;

verus! {

/// The name of the register at `addr`, where the device has one there.
pub open spec fn spec_reg_name_from_addr(addr: u64) -> Option<&'static str> {
    if addr == 0x8000 {
        Some("\n      TIMER.timercluster()[0].ctrlstat(),\n    ")
    } else if addr == 0x8004 {
        Some("\n      TIMER.timercluster()[0].count(),\n    ")
    } else if addr == 0x8008 {
        Some("\n      TIMER.timercluster()[0].max(),\n    ")
    } else if addr == 0x800c {
        Some("\n      TIMER.timercluster()[1].ctrlstat(),\n    ")
    } else if addr == 0x8010 {
        Some("\n      TIMER.timercluster()[1].count(),\n    ")
    } else if addr == 0x8014 {
        Some("\n      TIMER.timercluster()[1].max(),\n    ")
    } else if addr == 0x8200 {
        Some("\n      SPI.status(),\n    ")
    } else if addr == 0x8204 {
        Some("\n      SPI.ctrl(),\n    ")
    } else if addr == 0x8208 {
        Some("\n      SPI.tx(),\n    ")
    } else if addr == 0x820c {
        Some("\n      SPI.rx(),\n    ")
    } else if addr == 0x8420 {
        Some("\n      GPIO.r#in(),\n    ")
    } else if addr == 0x8424 {
        Some("\n      GPIO.we(),\n    ")
    } else if addr == 0x842c {
        Some("\n      GPIO.out(),\n    ")
    } else {
        None
    }
}

/// The name of the register at `addr`, where the device has one there.
pub fn reg_name_from_addr(addr: u64) -> (r: Option<&'static str>)
    ensures
        r == spec_reg_name_from_addr(addr),
{
    if addr == 0x8000 {
        Some("\n      TIMER.timercluster()[0].ctrlstat(),\n    ")
    } else if addr == 0x8004 {
        Some("\n      TIMER.timercluster()[0].count(),\n    ")
    } else if addr == 0x8008 {
        Some("\n      TIMER.timercluster()[0].max(),\n    ")
    } else if addr == 0x800c {
        Some("\n      TIMER.timercluster()[1].ctrlstat(),\n    ")
    } else if addr == 0x8010 {
        Some("\n      TIMER.timercluster()[1].count(),\n    ")
    } else if addr == 0x8014 {
        Some("\n      TIMER.timercluster()[1].max(),\n    ")
    } else if addr == 0x8200 {
        Some("\n      SPI.status(),\n    ")
    } else if addr == 0x8204 {
        Some("\n      SPI.ctrl(),\n    ")
    } else if addr == 0x8208 {
        Some("\n      SPI.tx(),\n    ")
    } else if addr == 0x820c {
        Some("\n      SPI.rx(),\n    ")
    } else if addr == 0x8420 {
        Some("\n      GPIO.r#in(),\n    ")
    } else if addr == 0x8424 {
        Some("\n      GPIO.we(),\n    ")
    } else if addr == 0x842c {
        Some("\n      GPIO.out(),\n    ")
    } else {
        None
    }
}

/// The addresses at which the device has registers.
pub fn register_addresses() -> (r: Vec<u64>)
    ensures
        r@ == seq![
            0x8000u64,
            0x8004u64,
            0x8008u64,
            0x800cu64,
            0x8010u64,
            0x8014u64,
            0x8200u64,
            0x8204u64,
            0x8208u64,
            0x820cu64,
            0x8420u64,
            0x8424u64,
            0x842cu64,
        ],
{
    vec![
        0x8000u64,
        0x8004u64,
        0x8008u64,
        0x800cu64,
        0x8010u64,
        0x8014u64,
        0x8200u64,
        0x8204u64,
        0x8208u64,
        0x820cu64,
        0x8420u64,
        0x8424u64,
        0x842cu64,
    ]
}

/// The names of the registers of the device as a table for a mock: it
/// names each address as [`reg_name_from_addr`] does.
pub fn register_names() -> (r: NameTable)
    ensures
        forall|addr: u64|
            #[trigger] r.spec_name(addr) == match spec_reg_name_from_addr(addr) {
                Some(name) => Some(name@),
                None => None,
            },
{
    let addresses = register_addresses();
    let mut entries: Vec<(u64, &'static str)> = Vec::new();
    let mut i: usize = 0;
    while i < addresses.len()
        invariant
            i <= addresses@.len(),
            entries@.len() == i,
            forall|k: int|
                0 <= k < i ==> (#[trigger] entries@[k]).0 == addresses@[k]
                    && spec_reg_name_from_addr(addresses@[k]) == Some(entries@[k].1),
            forall|k: int|
                0 <= k < addresses@.len() ==> spec_reg_name_from_addr(
                    #[trigger] addresses@[k],
                ).is_some(),
            forall|addr: u64|
                spec_reg_name_from_addr(addr).is_some() ==> exists|k: int|
                    0 <= k < addresses@.len() && #[trigger] addresses@[k] == addr,
        decreases addresses@.len() - i,
    {
        let addr = addresses[i];
        match reg_name_from_addr(addr) {
            Some(name) => {
                entries.push((addr, name));
            },
            None => {},
        }
        i = i + 1;
    }
    let r = NameTable::new(entries);
    proof {
        assert forall|addr: u64|
            #[trigger] r.spec_name(addr) == match spec_reg_name_from_addr(addr) {
                Some(name) => Some(name@),
                None => None,
            } by {
            lemma_first_name(r.entries@, addr, 0);
            assert(r.entries@.skip(0) =~= r.entries@);
            if spec_reg_name_from_addr(addr).is_some() {
                let k = choose|k: int| 0 <= k < addresses@.len() && #[trigger] addresses@[k] == addr;
                assert(r.entries@[k].0 == addr);
            }
        }
    }
    r
}

/// The first entry for an address decides its name: where one entry from
/// `from` on has the address, the name is that of an entry which has it;
/// where none has, there is no name.
pub proof fn lemma_first_name(entries: Seq<(u64, &'static str)>, addr: u64, from: int)
    requires
        0 <= from <= entries.len(),
    ensures
        match first_name(entries.skip(from), addr) {
            Some(name) => exists|k: int|
                from <= k < entries.len() && (#[trigger] entries[k]).0 == addr && entries[k].1@
                    == name,
            None => forall|k: int| from <= k < entries.len() ==> (#[trigger] entries[k]).0 != addr,
        },
    decreases entries.len() - from,
{
    let rest = entries.skip(from);
    if from < entries.len() {
        assert(rest[0] == entries[from]);
        assert(rest.skip(1) =~= entries.skip(from + 1));
        if entries[from].0 != addr {
            lemma_first_name(entries, addr, from + 1);
        }
    }
}

} // verus!
