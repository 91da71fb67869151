//! Processor fault isolation for a freestanding x86_64 kernel: the double-fault
//! stack and its task descriptor, the segment descriptor table, the exception
//! vector table, the policy of each exception handler, and the run-once
//! initialization sequence that installs the tables on the processor.
pub mod faults;
pub mod platform;
pub mod segments;
pub mod stack;
pub mod vectors;
