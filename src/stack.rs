//! The fault stack pool and the task descriptor that points the processor at it.
use vstd::prelude::*;
use x86_64::VirtAddr;

verus! {

/// Size in bytes of the stack reserved for double-fault handling (one page).
pub const STACK_SIZE: u64 = 4096;

/// Number of alternate-stack slots in a task descriptor.
pub const IST_SLOTS: usize = 7;

/// The alternate-stack slot that the double-fault vector switches to.
pub const DOUBLE_FAULT_IST_INDEX: u16 = 0;

/// An address whose bits 48..64 are copies of bit 47.
pub open spec fn canonical(a: u64) -> bool {
    a <= 0x0000_7fff_ffff_ffff || a >= 0xffff_8000_0000_0000
}

/// A stack of `STACK_SIZE` bytes can start at `start`: both ends are canonical
/// addresses and the end does not wrap around.
pub open spec fn placement_ok(start: u64) -> bool {
    &&& canonical(start)
    &&& start + STACK_SIZE <= u64::MAX
    &&& canonical((start + STACK_SIZE) as u64)
}

/// Relies on `VirtAddr::try_new`: it succeeds exactly on canonical addresses.
#[verifier::external_body]
fn is_canonical(a: u64) -> (r: bool)
    ensures
        r == canonical(a),
{
    VirtAddr::try_new(a).is_ok()
}

/// Relies on `VirtAddr + u64`: plain addition, which panics on overflow or on a
/// non-canonical sum.
#[verifier::external_body]
fn offset_address(start: u64, n: u64) -> (r: u64)
    requires
        canonical(start),
        start + n <= u64::MAX,
        canonical((start + n) as u64),
    ensures
        r == start + n,
{
    (VirtAddr::new(start) + n).as_u64()
}

/// Why a fault stack cannot be placed at a given start address.
#[derive(Debug, Clone, Copy, PartialEq, Eq, Structural)]
pub enum StackError {
    /// The start or the end of the stack is not a canonical address.
    NonCanonical,
    /// The end of the stack lies past the top of the address space.
    AddressOverflow,
}

/// The task descriptor: one stack pointer per alternate-stack slot. Only the
/// double-fault slot is populated, with the end of the fault stack, since the
/// stack grows downward. It is built once and offers no way to change it.
pub struct TaskDescriptor {
    stack_start: u64,
    interrupt_stack_table: [u64; 7],
}

impl TaskDescriptor {
    /// First byte of the fault stack pool.
    pub closed spec fn start(&self) -> u64 {
        self.stack_start
    }

    /// The stack pointer held in each alternate-stack slot.
    pub closed spec fn slots(&self) -> Seq<u64> {
        self.interrupt_stack_table@
    }

    /// The double-fault slot holds the end of the pool; every other slot is empty.
    pub open spec fn wf(&self) -> bool {
        &&& placement_ok(self.start())
        &&& self.slots().len() == IST_SLOTS
        &&& self.slots()[DOUBLE_FAULT_IST_INDEX as int] == self.start() + STACK_SIZE
        &&& forall|i: int|
            0 <= i < IST_SLOTS && i != DOUBLE_FAULT_IST_INDEX ==> #[trigger] self.slots()[i] == 0
    }

    /// Builds the task descriptor for a fault stack that starts at `stack_start`.
    pub fn with_fault_stack(stack_start: u64) -> (r: Result<TaskDescriptor, StackError>)
        ensures
            match r {
                Ok(t) => placement_ok(stack_start) && t.wf() && t.start() == stack_start,
                Err(e) => !placement_ok(stack_start) && (e == StackError::AddressOverflow
                    <==> canonical(stack_start) && stack_start + STACK_SIZE > u64::MAX),
            },
    {
        if !is_canonical(stack_start) {
            return Err(StackError::NonCanonical);
        }
        if stack_start > u64::MAX - STACK_SIZE {
            return Err(StackError::AddressOverflow);
        }
        if !is_canonical(stack_start + STACK_SIZE) {
            return Err(StackError::NonCanonical);
        }
        let end = offset_address(stack_start, STACK_SIZE);
        let mut table: [u64; 7] = [0u64; 7];
        table[DOUBLE_FAULT_IST_INDEX as usize] = end;
        Ok(TaskDescriptor { stack_start, interrupt_stack_table: table })
    }
    /// First byte of the fault stack pool.
    pub fn stack_start(&self) -> (r: u64)
        ensures
            r == self.start(),
    {
        self.stack_start
    }

    /// The address the double-fault slot points at: the end of the pool.
    pub fn fault_stack_top(&self) -> (r: u64)
        requires
            self.wf(),
        ensures
            r == self.start() + STACK_SIZE,
    {
        self.interrupt_stack_table[DOUBLE_FAULT_IST_INDEX as usize]
    }

    /// The stack pointer held in alternate-stack slot `index`.
    pub fn stack_pointer(&self, index: u16) -> (r: u64)
        requires
            self.wf(),
            index < IST_SLOTS,
        ensures
            r == self.slots()[index as int],
    {
        self.interrupt_stack_table[index as usize]
    }

    /// Whether `sp` lies within the fault stack pool, its end included.
    pub fn in_fault_stack(&self, sp: u64) -> (r: bool)
        requires
            self.wf(),
        ensures
            r == (self.start() <= sp && sp <= self.start() + STACK_SIZE),
    {
        self.stack_start <= sp && sp <= self.interrupt_stack_table[DOUBLE_FAULT_IST_INDEX as usize]
    }
}

/// The reserved stack address of a task descriptor is the start of its pool
/// plus `STACK_SIZE`, and it is the one address that every query of the
/// reserved slot gives.
pub proof fn lemma_reserved_slot_is_stack_end(t: TaskDescriptor)
    requires
        t.wf(),
    ensures
        t.slots()[DOUBLE_FAULT_IST_INDEX as int] == t.start() + STACK_SIZE,
        t.start() < t.slots()[DOUBLE_FAULT_IST_INDEX as int],
{
}

} // verus!
