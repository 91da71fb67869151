use kernel_faults::faults::{classify_fault, respond, FaultDecision, Response};
use kernel_faults::platform::{init, init_idt, initialize, Command, Cpu, InitError, Platform};
use kernel_faults::segments::{Descriptor, SegmentTable, Selector, TableError};
use kernel_faults::stack::{StackError, TaskDescriptor, DOUBLE_FAULT_IST_INDEX, STACK_SIZE};
use kernel_faults::vectors::{
    exception_vector_table, Handler, VectorEntry, VectorTable, BREAKPOINT, DOUBLE_FAULT,
    GENERAL_PROTECTION, INVALID_OPCODE, PAGE_FAULT, VECTOR_COUNT,
};

fn boot_cpu() -> Cpu {
    Cpu::at_boot(Selector { bits: 0x28 }, Selector { bits: 0 })
}

#[test]
fn fault_stack_top_is_start_plus_size() {
    let t = TaskDescriptor::with_fault_stack(0x1000).unwrap();
    assert_eq!(t.stack_start(), 0x1000);
    assert_eq!(t.fault_stack_top(), 0x1000 + STACK_SIZE);
    assert_eq!(t.fault_stack_top(), 0x2000);
    assert_eq!(t.fault_stack_top(), 0x2000);
}

#[test]
fn only_the_reserved_slot_is_populated() {
    let t = TaskDescriptor::with_fault_stack(0x4444_0000).unwrap();
    assert_eq!(t.stack_pointer(DOUBLE_FAULT_IST_INDEX), 0x4444_1000);
    for i in 1..7u16 {
        assert_eq!(t.stack_pointer(i), 0);
    }
}

#[test]
fn fault_stack_in_upper_half() {
    let t = TaskDescriptor::with_fault_stack(0xffff_8000_0000_0000).unwrap();
    assert_eq!(t.fault_stack_top(), 0xffff_8000_0000_1000);
}

#[test]
fn fault_stack_range_bounds() {
    let t = TaskDescriptor::with_fault_stack(0x1000).unwrap();
    assert!(t.in_fault_stack(0x1000));
    assert!(t.in_fault_stack(0x1ff8));
    assert!(t.in_fault_stack(0x2000));
    assert!(!t.in_fault_stack(0xfff));
    assert!(!t.in_fault_stack(0x2001));
}

#[test]
fn non_canonical_start_is_refused() {
    let r = TaskDescriptor::with_fault_stack(0x0000_8000_0000_0000);
    assert_eq!(r.err(), Some(StackError::NonCanonical));
}

#[test]
fn non_canonical_end_is_refused() {
    let r = TaskDescriptor::with_fault_stack(0x0000_7fff_ffff_f001);
    assert_eq!(r.err(), Some(StackError::NonCanonical));
}

#[test]
fn highest_stack_that_fits_is_accepted() {
    let t = TaskDescriptor::with_fault_stack(0x0000_7fff_ffff_efff).unwrap();
    assert_eq!(t.fault_stack_top(), 0x0000_7fff_ffff_ffff);
}

#[test]
fn wrapping_end_is_refused() {
    let r = TaskDescriptor::with_fault_stack(0xffff_ffff_ffff_f001);
    assert_eq!(r.err(), Some(StackError::AddressOverflow));
}

#[test]
fn append_returns_selector_of_first_slot() {
    let mut g = SegmentTable::new();
    assert_eq!(g.len(), 1);
    assert_eq!(g.append(Descriptor::KernelCode), Ok(Selector { bits: 8 }));
    assert_eq!(g.append(Descriptor::TaskState { base: 0x5000 }), Ok(Selector { bits: 16 }));
    assert_eq!(g.append(Descriptor::KernelCode), Ok(Selector { bits: 32 }));
    assert_eq!(g.len(), 5);
    assert_eq!(g.entry(1), Descriptor::TaskState { base: 0x5000 });
}

#[test]
fn full_table_refuses_and_stays_unchanged() {
    let mut g = SegmentTable::new();
    for _ in 0..6 {
        assert!(g.append(Descriptor::KernelCode).is_ok());
    }
    assert_eq!(g.len(), 7);
    assert_eq!(g.append(Descriptor::TaskState { base: 1 }), Err(TableError::TableFull));
    assert_eq!(g.len(), 7);
    assert_eq!(g.append(Descriptor::KernelCode), Ok(Selector { bits: 56 }));
    assert_eq!(g.append(Descriptor::KernelCode), Err(TableError::TableFull));
    assert_eq!(g.len(), 8);
}

#[test]
fn vector_table_routes_the_five_exceptions() {
    let t = exception_vector_table();
    let plain = |h| Some(VectorEntry { handler: h, stack_index: None });
    assert_eq!(t.entry(BREAKPOINT), plain(Handler::Breakpoint));
    assert_eq!(t.entry(INVALID_OPCODE), plain(Handler::InvalidOpcode));
    assert_eq!(t.entry(GENERAL_PROTECTION), plain(Handler::GeneralProtection));
    assert_eq!(t.entry(PAGE_FAULT), plain(Handler::PageFault));
    assert_eq!(
        t.entry(DOUBLE_FAULT),
        Some(VectorEntry { handler: Handler::DoubleFault, stack_index: Some(DOUBLE_FAULT_IST_INDEX) })
    );
}

#[test]
fn unused_vectors_keep_hardware_default() {
    let t = exception_vector_table();
    let handled = [BREAKPOINT, INVALID_OPCODE, DOUBLE_FAULT, GENERAL_PROTECTION, PAGE_FAULT];
    for v in 0..VECTOR_COUNT {
        if !handled.contains(&v) {
            assert_eq!(t.entry(v), None);
        }
    }
}

#[test]
fn last_handler_write_wins() {
    let mut t = VectorTable::new();
    t.set_handler(0, Handler::InvalidOpcode);
    t.set_handler_with_stack(0, Handler::DoubleFault, 2);
    assert_eq!(t.entry(0), Some(VectorEntry { handler: Handler::DoubleFault, stack_index: Some(2) }));
    t.set_handler(0, Handler::Breakpoint);
    assert_eq!(t.entry(0), Some(VectorEntry { handler: Handler::Breakpoint, stack_index: None }));
    assert_eq!(t.entry(1), None);
}

#[test]
fn breakpoint_resumes_with_one_report() {
    let d = classify_fault(Handler::Breakpoint, 0);
    assert_eq!(d, FaultDecision::Continue);
    assert_eq!(respond(d), Response { reports: 1, halts: false });
}

#[test]
fn double_fault_reports_and_halts() {
    let d = classify_fault(Handler::DoubleFault, 0);
    assert_eq!(d, FaultDecision::Escalate);
    assert_eq!(respond(d), Response { reports: 1, halts: true });
}

#[test]
fn terminating_faults() {
    assert_eq!(classify_fault(Handler::InvalidOpcode, 0), FaultDecision::TerminateUnit);
    assert_eq!(classify_fault(Handler::GeneralProtection, 0x18), FaultDecision::TerminateUnit);
    assert_eq!(respond(FaultDecision::TerminateUnit), Response { reports: 0, halts: false });
}

#[test]
fn page_fault_branches_on_protection_bit() {
    assert_eq!(classify_fault(Handler::PageFault, 1), FaultDecision::TerminateUnit);
    assert_eq!(classify_fault(Handler::PageFault, 3), FaultDecision::TerminateUnit);
    assert_eq!(classify_fault(Handler::PageFault, 0), FaultDecision::PageIn);
    assert_eq!(classify_fault(Handler::PageFault, 2), FaultDecision::PageIn);
    assert_eq!(respond(FaultDecision::PageIn), Response { reports: 0, halts: false });
}

#[test]
fn platform_holds_the_three_tables() {
    let p = Platform::new(0x10_0000, 0x20_0000).unwrap();
    assert_eq!(p.task_descriptor().fault_stack_top(), 0x10_1000);
    assert_eq!(p.segment_table().entry(0), Descriptor::KernelCode);
    assert_eq!(p.segment_table().entry(1), Descriptor::TaskState { base: 0x20_0000 });
    assert_eq!(p.selectors().code_selector, Selector { bits: 8 });
    assert_eq!(p.selectors().tss_selector, Selector { bits: 16 });
    assert_eq!(p.vector_table().entry(DOUBLE_FAULT).unwrap().stack_index, Some(0));
}

#[test]
fn platform_refuses_bad_stack() {
    assert_eq!(Platform::new(0xffff_ffff_ffff_f800, 0).err(), Some(StackError::AddressOverflow));
    assert_eq!(Platform::new(0x1234_0000_0000_0000, 0).err(), Some(StackError::NonCanonical));
}

#[test]
fn init_activates_then_reloads() {
    let p = Platform::new(0x10_0000, 0x20_0000).unwrap();
    let mut cpu = boot_cpu();
    let cmds = init(&mut cpu, &p);
    assert_eq!(
        cmds,
        vec![
            Command::LoadSegmentTable,
            Command::SetCodeSegment(Selector { bits: 8 }),
            Command::LoadTaskRegister(Selector { bits: 16 }),
        ]
    );
    assert_eq!(cpu.code_selector, p.selectors().code_selector);
    assert_eq!(cpu.task_register, p.selectors().tss_selector);
    assert!(cpu.segments_active);
    assert!(!cpu.vectors_active);
}

#[test]
fn vectors_wait_for_segments() {
    let mut cpu = boot_cpu();
    assert_eq!(init_idt(&mut cpu), Err(InitError::SegmentsInactive));
    assert_eq!(cpu, boot_cpu());
}

#[test]
fn initialize_issues_commands_in_order() {
    let p = Platform::new(0x10_0000, 0x20_0000).unwrap();
    let mut cpu = boot_cpu();
    let cmds = initialize(&mut cpu, &p);
    assert_eq!(
        cmds,
        vec![
            Command::LoadSegmentTable,
            Command::SetCodeSegment(Selector { bits: 8 }),
            Command::LoadTaskRegister(Selector { bits: 16 }),
            Command::LoadVectorTable,
        ]
    );
    assert!(cpu.vectors_active);
}

#[test]
fn second_initialize_is_a_no_op() {
    let p = Platform::new(0x10_0000, 0x20_0000).unwrap();
    let mut cpu = boot_cpu();
    let _ = initialize(&mut cpu, &p);
    let after = cpu;
    assert!(initialize(&mut cpu, &p).is_empty());
    assert!(init(&mut cpu, &p).is_empty());
    assert_eq!(init_idt(&mut cpu), Ok(vec![]));
    assert_eq!(cpu, after);
}

#[test]
fn double_fault_stack_lies_in_pool_not_boot_stack() {
    let p = Platform::new(0x10_0000, 0x20_0000).unwrap();
    let entry = p.vector_table().entry(DOUBLE_FAULT).unwrap();
    let sp = p.task_descriptor().stack_pointer(entry.stack_index.unwrap());
    assert!(p.task_descriptor().in_fault_stack(sp));
    let boot_stack_top: u64 = 0x7_0000;
    assert!(!p.task_descriptor().in_fault_stack(boot_stack_top));
}
