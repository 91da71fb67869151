//! The segment descriptor table and the selectors that it hands out.
use vstd::prelude::*;
use x86_64::registers::segmentation::SegmentSelector;
use x86_64::PrivilegeLevel;

verus! {

/// Number of 8-byte slots in the table, the mandatory null slot included.
pub const TABLE_SLOTS: usize = 8;

/// A descriptor that the table can hold.
#[derive(Debug, Clone, Copy, PartialEq, Eq, Structural)]
pub enum Descriptor {
    /// The 64-bit kernel code segment.
    KernelCode,
    /// The segment of a task descriptor that lives at address `base`.
    TaskState { base: u64 },
}

/// A reference into a segment descriptor table, as loaded into a segment
/// register: the slot index times eight, requested privilege level 0.
#[derive(Debug, Clone, Copy, PartialEq, Eq, Structural)]
pub struct Selector {
    pub bits: u16,
}

/// Slots that a descriptor takes: a system segment takes two.
pub open spec fn width(d: Descriptor) -> nat {
    match d {
        Descriptor::KernelCode => 1,
        Descriptor::TaskState { .. } => 2,
    }
}

/// Slots in use once the descriptors `s` have been appended, the null slot included.
pub open spec fn slots_used(s: Seq<Descriptor>) -> nat
    decreases s.len(),
{
    if s.len() == 0 {
        1
    } else {
        slots_used(s.drop_last()) + width(s.last())
    }
}

/// The kernel-mode selector of slot `index`.
pub open spec fn selector_at(index: nat) -> Selector {
    Selector { bits: (index * 8) as u16 }
}

/// Relies on `SegmentSelector::new`: the index shifted left by three, ored with
/// the privilege level, which is 0 for ring 0.
#[verifier::external_body]
fn kernel_selector(index: u16) -> (r: u16)
    requires
        index < 8192,
    ensures
        r == index * 8,
{
    SegmentSelector::new(index, PrivilegeLevel::Ring0).0
}

/// Why a descriptor could not be appended.
#[derive(Debug, Clone, Copy, PartialEq, Eq, Structural)]
pub enum TableError {
    /// Too few free slots are left for the descriptor.
    TableFull,
}

/// The descriptors in the order they were appended; slot 0 stays null.
pub struct SegmentTable {
    entries: Vec<Descriptor>,
    used: usize,
}

impl View for SegmentTable {
    type V = Seq<Descriptor>;

    closed spec fn view(&self) -> Seq<Descriptor> {
        self.entries@
    }
}

impl SegmentTable {
    /// The count of used slots matches the descriptors and fits the table.
    pub closed spec fn wf(&self) -> bool {
        &&& self.used == slots_used(self.entries@)
        &&& self.used <= TABLE_SLOTS
    }

    /// A table with only the null slot.
    pub fn new() -> (r: SegmentTable)
        ensures
            r.wf(),
            r@ == Seq::<Descriptor>::empty(),
    {
        SegmentTable { entries: Vec::new(), used: 1 }
    }

    /// Slots in use, the null slot included.
    pub fn len(&self) -> (r: usize)
        requires
            self.wf(),
        ensures
            r == slots_used(self@),
            r <= TABLE_SLOTS,
    {
        self.used
    }

    /// Appends a descriptor and returns the selector of its first slot, or
    /// fails, leaving the table as it was, where too few slots are free.
    pub fn append(&mut self, d: Descriptor) -> (r: Result<Selector, TableError>)
        requires
            old(self).wf(),
        ensures
            final(self).wf(),
            match r {
                Ok(sel) => slots_used(old(self)@) + width(d) <= TABLE_SLOTS
                    && final(self)@ == old(self)@.push(d)
                    && sel == selector_at(slots_used(old(self)@)),
                Err(e) => slots_used(old(self)@) + width(d) > TABLE_SLOTS
                    && final(self)@ == old(self)@
                    && e == TableError::TableFull,
            },
    {
        let w: usize = match d {
            Descriptor::KernelCode => 1,
            Descriptor::TaskState { .. } => 2,
        };
        if self.used + w > TABLE_SLOTS {
            return Err(TableError::TableFull);
        }
        let index = self.used;
        let ghost before = self.entries@;
        self.entries.push(d);
        self.used = self.used + w;
        proof {
            assert(self.entries@.drop_last() == before);
        }
        let bits = kernel_selector(index as u16);
        Ok(Selector { bits })
    }

    /// The descriptor appended in position `i`.
    pub fn entry(&self, i: usize) -> (r: Descriptor)
        requires
            i < self@.len(),
        ensures
            r == self@[i as int],
    {
        self.entries[i]
    }
}

} // verus!
