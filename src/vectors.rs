//! The exception vector table: for each hardware exception number, the
//! handler to run and the alternate stack, if any, to switch to first.
use vstd::prelude::*;
use crate::stack::{DOUBLE_FAULT_IST_INDEX, IST_SLOTS};

verus! {

/// Number of slots in the table, one per vector number.
pub const VECTOR_COUNT: usize = 256;

/// Vector number of the breakpoint exception.
pub const BREAKPOINT: usize = 3;

/// Vector number of the invalid-opcode exception.
pub const INVALID_OPCODE: usize = 6;

/// Vector number of the double-fault exception.
pub const DOUBLE_FAULT: usize = 8;

/// Vector number of the general-protection exception.
pub const GENERAL_PROTECTION: usize = 13;

/// Vector number of the page-fault exception.
pub const PAGE_FAULT: usize = 14;

/// The handler routines of this kernel.
#[derive(Debug, Clone, Copy, PartialEq, Eq, Structural)]
pub enum Handler {
    Breakpoint,
    InvalidOpcode,
    GeneralProtection,
    PageFault,
    DoubleFault,
}

/// A populated slot: the handler, and the alternate-stack slot to switch to
/// before it runs, if any.
#[derive(Debug, Clone, Copy, PartialEq, Eq, Structural)]
pub struct VectorEntry {
    pub handler: Handler,
    pub stack_index: Option<u16>,
}

/// The entry that routes a vector to `h` on the interrupted stack.
pub open spec fn plain_entry(h: Handler) -> Option<VectorEntry> {
    Some(VectorEntry { handler: h, stack_index: None })
}

/// The documented routing: each of the five handled exceptions goes to its
/// handler, the double fault on the reserved alternate stack; every other
/// vector keeps the hardware default (no entry).
pub open spec fn documented_route(v: int) -> Option<VectorEntry> {
    if v == BREAKPOINT {
        plain_entry(Handler::Breakpoint)
    } else if v == INVALID_OPCODE {
        plain_entry(Handler::InvalidOpcode)
    } else if v == GENERAL_PROTECTION {
        plain_entry(Handler::GeneralProtection)
    } else if v == PAGE_FAULT {
        plain_entry(Handler::PageFault)
    } else if v == DOUBLE_FAULT {
        Some(VectorEntry { handler: Handler::DoubleFault, stack_index: Some(DOUBLE_FAULT_IST_INDEX) })
    } else {
        None
    }
}

/// A table whose every slot follows the documented routing.
pub open spec fn routes_documented(s: Seq<Option<VectorEntry>>) -> bool {
    &&& s.len() == VECTOR_COUNT
    &&& forall|v: int| 0 <= v < VECTOR_COUNT ==> #[trigger] s[v] == documented_route(v)
}

/// One slot per vector number; an empty slot keeps the hardware default.
pub struct VectorTable {
    entries: Vec<Option<VectorEntry>>,
}

impl View for VectorTable {
    type V = Seq<Option<VectorEntry>>;

    closed spec fn view(&self) -> Seq<Option<VectorEntry>> {
        self.entries@
    }
}

impl VectorTable {
    /// A table with every slot empty.
    pub fn new() -> (r: VectorTable)
        ensures
            r@.len() == VECTOR_COUNT,
            forall|v: int| 0 <= v < VECTOR_COUNT ==> #[trigger] r@[v] == None::<VectorEntry>,
    {
        let mut entries: Vec<Option<VectorEntry>> = Vec::new();
        let mut i: usize = 0;
        while i < VECTOR_COUNT
            invariant
                i <= VECTOR_COUNT,
                entries@.len() == i,
                forall|v: int| 0 <= v < i ==> #[trigger] entries@[v] == None::<VectorEntry>,
            decreases VECTOR_COUNT - i,
        {
            entries.push(None);
            i = i + 1;
        }
        VectorTable { entries }
    }

    /// Installs `h` for vector `v`, run on the interrupted stack. The last
    /// write to a vector wins.
    pub fn set_handler(&mut self, v: usize, h: Handler)
        requires
            v < old(self)@.len(),
        ensures
            final(self)@ == old(self)@.update(v as int, plain_entry(h)),
    {
        self.entries.set(v, Some(VectorEntry { handler: h, stack_index: None }));
    }

    /// Installs `h` for vector `v`, run after switching to alternate-stack
    /// slot `stack_index`. The last write to a vector wins.
    pub fn set_handler_with_stack(&mut self, v: usize, h: Handler, stack_index: u16)
        requires
            v < old(self)@.len(),
            stack_index < IST_SLOTS,
        ensures
            final(self)@ == old(self)@.update(
                v as int,
                Some(VectorEntry { handler: h, stack_index: Some(stack_index) }),
            ),
    {
        self.entries.set(v, Some(VectorEntry { handler: h, stack_index: Some(stack_index) }));
    }

    /// The slot of vector `v`.
    pub fn entry(&self, v: usize) -> (r: Option<VectorEntry>)
        requires
            v < self@.len(),
        ensures
            r == self@[v as int],
    {
        self.entries[v]
    }
}

/// Builds the kernel's exception vector table: the five handled exceptions go
/// to their handlers, the double fault on the reserved alternate stack, and
/// every other vector keeps the hardware default.
pub fn exception_vector_table() -> (r: VectorTable)
    ensures
        routes_documented(r@),
{
    let mut t = VectorTable::new();
    t.set_handler(BREAKPOINT, Handler::Breakpoint);
    t.set_handler(INVALID_OPCODE, Handler::InvalidOpcode);
    t.set_handler(GENERAL_PROTECTION, Handler::GeneralProtection);
    t.set_handler(PAGE_FAULT, Handler::PageFault);
    t.set_handler_with_stack(DOUBLE_FAULT, Handler::DoubleFault, DOUBLE_FAULT_IST_INDEX);
    assert forall|v: int| 0 <= v < VECTOR_COUNT implies #[trigger] t@[v] == documented_route(v) by {
    }
    t
}

} // verus!
