//! The platform context that owns the three tables, a model of the processor
//! registers they are installed into, and the run-once initialization
//! sequence as a list of hardware commands for the caller to carry out.
use vstd::prelude::*;
use crate::segments::{selector_at, slots_used, Descriptor, SegmentTable, Selector};
use crate::stack::{
    canonical, placement_ok, StackError, TaskDescriptor, DOUBLE_FAULT_IST_INDEX, IST_SLOTS,
    STACK_SIZE,
};
use crate::vectors::{exception_vector_table, routes_documented, VectorTable, VECTOR_COUNT, DOUBLE_FAULT};

verus! {

/// The selectors returned when the kernel code segment and the task
/// descriptor segment were appended to the segment table.
#[derive(Debug, Clone, Copy, PartialEq, Eq, Structural)]
pub struct Selectors {
    pub code_selector: Selector,
    pub tss_selector: Selector,
}

/// The three tables, built together once and never changed afterwards.
pub struct Platform {
    tss: TaskDescriptor,
    gdt: SegmentTable,
    selectors: Selectors,
    idt: VectorTable,
}

impl Platform {
    pub closed spec fn task(&self) -> TaskDescriptor {
        self.tss
    }

    pub closed spec fn segments(&self) -> SegmentTable {
        self.gdt
    }

    pub closed spec fn selector_pair(&self) -> Selectors {
        self.selectors
    }

    pub closed spec fn vectors(&self) -> VectorTable {
        self.idt
    }

    /// The task descriptor is well formed; the segment table holds the kernel
    /// code segment and then the task descriptor segment, and the selectors
    /// are the ones their appends returned; the vector table routes as
    /// documented.
    pub open spec fn wf(&self) -> bool {
        &&& self.task().wf()
        &&& self.segments().wf()
        &&& self.segments()@.len() == 2
        &&& self.segments()@[0] == Descriptor::KernelCode
        &&& self.segments()@[1] is TaskState
        &&& self.selector_pair().code_selector == selector_at(slots_used(self.segments()@.take(0)))
        &&& self.selector_pair().tss_selector == selector_at(slots_used(self.segments()@.take(1)))
        &&& routes_documented(self.vectors()@)
    }

    /// Builds the tables for a fault stack at `stack_start` and a task
    /// descriptor stored at `tss_base`; fails only where the stack cannot be
    /// placed there.
    pub fn new(stack_start: u64, tss_base: u64) -> (r: Result<Platform, StackError>)
        ensures
            r is Ok <==> placement_ok(stack_start),
            match r {
                Ok(p) => p.wf() && p.task().start() == stack_start
                    && p.segments()@[1] == (Descriptor::TaskState { base: tss_base })
                    && p.selector_pair() == (Selectors {
                        code_selector: selector_at(1),
                        tss_selector: selector_at(2),
                    }),
                Err(e) => e == StackError::AddressOverflow
                    <==> canonical(stack_start) && stack_start + STACK_SIZE > u64::MAX,
            },
    {
        let tss = match TaskDescriptor::with_fault_stack(stack_start) {
            Ok(t) => t,
            Err(e) => return Err(e),
        };
        let mut gdt = SegmentTable::new();
        let ghost empty = gdt@;
        let code_selector = match gdt.append(Descriptor::KernelCode) {
            Ok(s) => s,
            Err(_) => {
                proof {
                    reveal_with_fuel(slots_used, 2);
                    assert(false);
                }
                return Err(StackError::NonCanonical);
            },
        };
        let ghost one = gdt@;
        proof {
            reveal_with_fuel(slots_used, 2);
            assert(one.drop_last() =~= empty);
        }
        let tss_selector = match gdt.append(Descriptor::TaskState { base: tss_base }) {
            Ok(s) => s,
            Err(_) => {
                proof {
                    assert(false);
                }
                return Err(StackError::NonCanonical);
            },
        };
        let idt = exception_vector_table();
        proof {
            assert(gdt@.take(0) =~= empty);
            assert(gdt@.take(1) =~= one);
        }
        Ok(Platform { tss, gdt, selectors: Selectors { code_selector, tss_selector }, idt })
    }

    pub fn task_descriptor(&self) -> (r: &TaskDescriptor)
        ensures
            *r == self.task(),
    {
        &self.tss
    }

    pub fn segment_table(&self) -> (r: &SegmentTable)
        ensures
            *r == self.segments(),
    {
        &self.gdt
    }

    pub fn selectors(&self) -> (r: Selectors)
        ensures
            r == self.selector_pair(),
    {
        self.selectors
    }

    pub fn vector_table(&self) -> (r: &VectorTable)
        ensures
            *r == self.vectors(),
    {
        &self.idt
    }
}

/// The processor state that the initialization sequence changes: the
/// selectors in the code-segment and task registers, and whether the segment
/// table and the vector table of the platform have been installed.
#[derive(Debug, Clone, Copy, PartialEq, Eq, Structural)]
pub struct Cpu {
    pub code_selector: Selector,
    pub task_register: Selector,
    pub segments_active: bool,
    pub vectors_active: bool,
}

impl Cpu {
    /// The state the boot loader hands over: its own selectors, none of the
    /// kernel's tables installed.
    pub fn at_boot(code_selector: Selector, task_register: Selector) -> (r: Cpu)
        ensures
            r == (Cpu { code_selector, task_register, segments_active: false, vectors_active: false }),
    {
        Cpu { code_selector, task_register, segments_active: false, vectors_active: false }
    }
}

/// A hardware operation for the caller to carry out, in the order given.
#[derive(Debug, Clone, Copy, PartialEq, Eq, Structural)]
pub enum Command {
    /// Install the segment descriptor table.
    LoadSegmentTable,
    /// Reload the code-segment register.
    SetCodeSegment(Selector),
    /// Load the task register.
    LoadTaskRegister(Selector),
    /// Install the exception vector table.
    LoadVectorTable,
}

/// Why the vector table cannot be installed yet.
#[derive(Debug, Clone, Copy, PartialEq, Eq, Structural)]
pub enum InitError {
    /// The segment table is not active: handlers would run under a stale code
    /// segment and the double-fault stack slot would not be reachable.
    SegmentsInactive,
}

/// The state after the segment step: unchanged once the segments are active.
pub open spec fn init_next(c: Cpu, s: Selectors) -> Cpu {
    if c.segments_active {
        c
    } else {
        Cpu { code_selector: s.code_selector, task_register: s.tss_selector, segments_active: true, ..c }
    }
}

/// The commands of the segment step: activate the table, then reload both
/// registers; nothing once the segments are active.
pub open spec fn init_commands(c: Cpu, s: Selectors) -> Seq<Command> {
    if c.segments_active {
        Seq::empty()
    } else {
        seq![
            Command::LoadSegmentTable,
            Command::SetCodeSegment(s.code_selector),
            Command::LoadTaskRegister(s.tss_selector),
        ]
    }
}

/// The state after the vector step: unchanged unless the segments are active
/// and the vectors are not.
pub open spec fn init_idt_next(c: Cpu) -> Cpu {
    if c.segments_active && !c.vectors_active {
        Cpu { vectors_active: true, ..c }
    } else {
        c
    }
}

/// The commands of the vector step, where it succeeds.
pub open spec fn init_idt_commands(c: Cpu) -> Seq<Command> {
    if c.vectors_active {
        Seq::empty()
    } else {
        seq![Command::LoadVectorTable]
    }
}

/// Activates the platform's segment table and reloads the code-segment and
/// task registers with its selectors, in that order. Once the segments are
/// active it does nothing.
pub fn init(cpu: &mut Cpu, platform: &Platform) -> (r: Vec<Command>)
    requires
        platform.wf(),
    ensures
        *final(cpu) == init_next(*old(cpu), platform.selector_pair()),
        r@ == init_commands(*old(cpu), platform.selector_pair()),
{
    let mut r: Vec<Command> = Vec::new();
    if cpu.segments_active {
        return r;
    }
    let s = platform.selectors();
    r.push(Command::LoadSegmentTable);
    r.push(Command::SetCodeSegment(s.code_selector));
    r.push(Command::LoadTaskRegister(s.tss_selector));
    cpu.code_selector = s.code_selector;
    cpu.task_register = s.tss_selector;
    cpu.segments_active = true;
    proof {
        assert(r@ =~= init_commands(*old(cpu), platform.selector_pair()));
    }
    r
}

/// Installs the exception vector table. It fails, changing nothing, while
/// the segment table is not active; once the vectors are active it does
/// nothing.
pub fn init_idt(cpu: &mut Cpu) -> (r: Result<Vec<Command>, InitError>)
    ensures
        *final(cpu) == init_idt_next(*old(cpu)),
        match r {
            Ok(cmds) => old(cpu).segments_active && cmds@ == init_idt_commands(*old(cpu)),
            Err(e) => !old(cpu).segments_active && e == InitError::SegmentsInactive,
        },
{
    if !cpu.segments_active {
        return Err(InitError::SegmentsInactive);
    }
    let mut r: Vec<Command> = Vec::new();
    if cpu.vectors_active {
        return Ok(r);
    }
    r.push(Command::LoadVectorTable);
    cpu.vectors_active = true;
    proof {
        assert(r@ =~= init_idt_commands(*old(cpu)));
    }
    Ok(r)
}

/// The whole initialization sequence: the segment step, then the vector step.
pub fn initialize(cpu: &mut Cpu, platform: &Platform) -> (r: Vec<Command>)
    requires
        platform.wf(),
    ensures
        *final(cpu) == init_idt_next(init_next(*old(cpu), platform.selector_pair())),
        r@ == init_commands(*old(cpu), platform.selector_pair()) + init_idt_commands(
            init_next(*old(cpu), platform.selector_pair()),
        ),
{
    let mut r = init(cpu, platform);
    match init_idt(cpu) {
        Ok(mut more) => {
            r.append(&mut more);
        },
        Err(_) => {
            proof {
                assert(false);
            }
        },
    }
    r
}

/// After the segment step the code-segment register holds the selector that
/// appending the kernel code segment returned, and the table was activated
/// before any register was reloaded.
pub proof fn lemma_code_selector_after_init(c: Cpu, p: Platform)
    requires
        p.wf(),
        !c.segments_active,
    ensures
        init_next(c, p.selector_pair()).code_selector == p.selector_pair().code_selector,
        p.segments()@[0] == Descriptor::KernelCode,
        p.selector_pair().code_selector == selector_at(slots_used(p.segments()@.take(0))),
        init_next(c, p.selector_pair()).task_register == p.selector_pair().tss_selector,
        init_commands(c, p.selector_pair())[0] == Command::LoadSegmentTable,
        init_commands(c, p.selector_pair())[1] == Command::SetCodeSegment(p.selector_pair().code_selector),
{
}

/// The double fault switches to the reserved alternate-stack slot, whose
/// stack pointer lies within the fault stack pool (at its end); no other
/// vector switches stacks.
pub proof fn lemma_double_fault_runs_on_fault_stack(p: Platform)
    requires
        p.wf(),
    ensures
        p.vectors()@[DOUBLE_FAULT as int] is Some,
        p.vectors()@[DOUBLE_FAULT as int].unwrap().stack_index == Some(DOUBLE_FAULT_IST_INDEX),
        DOUBLE_FAULT_IST_INDEX < IST_SLOTS,
        p.task().start() < p.task().slots()[DOUBLE_FAULT_IST_INDEX as int],
        p.task().slots()[DOUBLE_FAULT_IST_INDEX as int] == p.task().start() + STACK_SIZE,
        forall|v: int|
            0 <= v < VECTOR_COUNT && v != DOUBLE_FAULT && (#[trigger] p.vectors()@[v]) is Some
                ==> p.vectors()@[v].unwrap().stack_index is None,
{
    assert(p.vectors()@[DOUBLE_FAULT as int] == crate::vectors::documented_route(DOUBLE_FAULT as int));
}

/// Initialization runs once: a second run from the state the first one left
/// issues no command and changes nothing.
pub proof fn lemma_initialize_runs_once(c: Cpu, s: Selectors)
    ensures
        ({
            let after = init_idt_next(init_next(c, s));
            &&& init_next(after, s) == after
            &&& init_commands(after, s).len() == 0
            &&& init_idt_next(init_next(after, s)) == after
            &&& init_idt_commands(init_next(after, s)).len() == 0
        }),
{
}

} // verus!
