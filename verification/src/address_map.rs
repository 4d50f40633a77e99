//! The address map of a function: for the offsets in its code at which a
//! trap can happen or a call is made, the position in the source and the
//! places of the values that are alive there. The generator records the
//! entries as it emits code; who inspects a stack reads them.

use crate::machine_state::Location;
use vstd::prelude::*;

verus! {

/// One entry: an offset in the code, the offset in the source that the code
/// there was compiled from, and the places of the values alive there.
#[derive(Debug)]
pub struct AddressMapEntry {
    pub code_offset: usize,
    pub source_offset: u32,
    pub locations: Vec<Location>,
}

/// An entry as a value.
pub ghost struct EntryView {
    pub code_offset: nat,
    pub source_offset: nat,
    pub locations: Seq<Location>,
}

impl View for AddressMapEntry {
    type V = EntryView;

    open spec fn view(&self) -> EntryView {
        EntryView {
            code_offset: self.code_offset as nat,
            source_offset: self.source_offset as nat,
            locations: self.locations@,
        }
    }
}

/// Why an entry was not recorded.
#[derive(Clone, Copy, Debug, PartialEq, Eq, Structural)]
pub enum AddressMapError {
    /// The entry lies before the last one: code is emitted front to back.
    OutOfOrder,
}

/// Whether entries are in the order of their code offsets.
pub open spec fn in_order(entries: Seq<EntryView>) -> bool {
    forall|i: int, j: int|
        0 <= i < j < entries.len() ==> (#[trigger] entries[i]).code_offset <= (
        #[trigger] entries[j]).code_offset
}

/// Whether `index` is the position of the entry that covers a code offset:
/// the last entry that does not lie behind the offset.
pub open spec fn covers(entries: Seq<EntryView>, index: int, address: nat) -> bool {
    &&& 0 <= index < entries.len()
    &&& entries[index].code_offset <= address
    &&& forall|k: int| index < k < entries.len() ==> (#[trigger] entries[k]).code_offset > address
}

/// Whether no entry covers a code offset: all lie behind it.
pub open spec fn uncovered(entries: Seq<EntryView>, address: nat) -> bool {
    forall|k: int| 0 <= k < entries.len() ==> (#[trigger] entries[k]).code_offset > address
}

/// The address map of one function.
pub struct AddressMap {
    entries: Vec<AddressMapEntry>,
}

impl View for AddressMap {
    type V = Seq<EntryView>;

    closed spec fn view(&self) -> Seq<EntryView> {
        Seq::new(self.entries@.len(), |i: int| self.entries@[i]@)
    }
}

impl AddressMap {
    /// A map without entries.
    pub fn new() -> (map: AddressMap)
        ensures
            map@.len() == 0,
            in_order(map@),
    {
        AddressMap { entries: Vec::new() }
    }

    /// The number of entries.
    pub fn len(&self) -> (count: usize)
        ensures
            count == self@.len(),
    {
        self.entries.len()
    }

    /// The entry at a position, if there is one.
    pub fn entry(&self, index: usize) -> (found: Option<&AddressMapEntry>)
        ensures
            match found {
                Some(entry) => index < self@.len() && entry@ == self@[index as int],
                None => index >= self@.len(),
            },
    {
        if index < self.entries.len() {
            Some(&self.entries[index])
        } else {
            None
        }
    }

    /// Records an entry behind the others. It is refused, and nothing
    /// changes, where its code offset lies before that of the last entry.
    pub fn record(&mut self, entry: AddressMapEntry) -> (done: Result<(), AddressMapError>)
        requires
            in_order(old(self)@),
        ensures
            in_order(final(self)@),
            match done {
                Ok(_) => {
                    &&& old(self)@.len() == 0 || old(self)@.last().code_offset <= entry@.code_offset
                    &&& final(self)@ == old(self)@.push(entry@)
                },
                Err(error) => {
                    &&& error == AddressMapError::OutOfOrder
                    &&& old(self)@.len() > 0
                    &&& entry@.code_offset < old(self)@.last().code_offset
                    &&& final(self)@ == old(self)@
                },
            },
    {
        let ghost before = self@;
        let count = self.entries.len();
        if count > 0 && entry.code_offset < self.entries[count - 1].code_offset {
            return Err(AddressMapError::OutOfOrder);
        }
        let ghost added = entry@;
        self.entries.push(entry);
        proof {
            let after = self@;
            assert(after =~= before.push(added));
            assert forall|i: int, j: int| 0 <= i < j < after.len() implies (
            #[trigger] after[i]).code_offset <= (#[trigger] after[j]).code_offset by {
                if j < before.len() {
                    assert(before[i].code_offset <= before[j].code_offset);
                } else if i < before.len() - 1 {
                    assert(before[i].code_offset <= before[before.len() - 1].code_offset);
                }
            }
        }
        Ok(())
    }

    /// The position of the entry that covers a code offset: the last entry
    /// that does not lie behind it. There is none where the map is empty or
    /// all entries lie behind the offset.
    pub fn lookup(&self, address: usize) -> (found: Option<usize>)
        requires
            in_order(self@),
        ensures
            match found {
                Some(index) => covers(self@, index as int, address as nat),
                None => uncovered(self@, address as nat),
            },
    {
        let mut low: usize = 0;
        let mut high: usize = self.entries.len();
        while low < high
            invariant
                low <= high <= self@.len(),
                self@.len() == self.entries@.len(),
                in_order(self@),
                forall|k: int| 0 <= k < low ==> (#[trigger] self@[k]).code_offset <= address,
                forall|k: int| high <= k < self@.len() ==> (#[trigger] self@[k]).code_offset > address,
            decreases high - low,
        {
            let middle = low + (high - low) / 2;
            assert(self@[middle as int] == self.entries@[middle as int]@);
            if self.entries[middle].code_offset <= address {
                proof {
                    assert forall|k: int| 0 <= k < middle + 1 implies (
                    #[trigger] self@[k]).code_offset <= address by {
                        if k < middle {
                            assert(self@[k].code_offset <= self@[middle as int].code_offset);
                        }
                    }
                }
                low = middle + 1;
            } else {
                proof {
                    assert forall|k: int| middle <= k < self@.len() implies (
                    #[trigger] self@[k]).code_offset > address by {
                        if k > middle {
                            assert(self@[middle as int].code_offset <= self@[k].code_offset);
                        }
                    }
                }
                high = middle;
            }
        }
        if low == 0 {
            None
        } else {
            Some(low - 1)
        }
    }
}

/// A code offset has at most one covering entry: who looks an address up
/// twice finds the same entry.
pub proof fn covering_entry_is_unique(entries: Seq<EntryView>, first: int, second: int, address: nat)
    requires
        covers(entries, first, address),
        covers(entries, second, address),
    ensures
        first == second,
{
    if first < second {
        assert(entries[second].code_offset > address);
    } else if second < first {
        assert(entries[first].code_offset > address);
    }
}

} // verus!
