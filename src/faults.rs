//! What each exception handler decides, and what follows from the decision.
use vstd::prelude::*;
use x86_64::structures::idt::PageFaultErrorCode;
use crate::vectors::Handler;

verus! {

/// The outcome a handler picks for the fault it was given.
#[derive(Debug, Clone, Copy, PartialEq, Eq, Structural)]
pub enum FaultDecision {
    /// Record the fault and resume the interrupted instruction stream.
    Continue,
    /// Terminate the faulting unit of execution; there is no process model
    /// yet, so this is a decision point with no action behind it.
    TerminateUnit,
    /// Bring the missing page in; demand paging is not supported yet, so this
    /// is a decision point with no action behind it.
    PageIn,
    /// Report the machine state and halt: fault delivery itself has failed.
    Escalate,
}

/// Bit 0 of a page-fault error code: the fault was a protection violation,
/// not a missing page.
pub open spec fn protection_violation(error_code: u64) -> bool {
    error_code & 1 == 1
}

/// Relies on `PageFaultErrorCode::contains` with `PROTECTION_VIOLATION`, the
/// flag of bit 0.
#[verifier::external_body]
fn is_protection_violation(error_code: u64) -> (r: bool)
    ensures
        r == protection_violation(error_code),
{
    PageFaultErrorCode::from_bits_truncate(error_code).contains(PageFaultErrorCode::PROTECTION_VIOLATION)
}

/// The policy of each handler, given the error code that the processor pushed
/// (ignored by the handlers of exceptions that push none).
pub open spec fn decision_for(h: Handler, error_code: u64) -> FaultDecision {
    match h {
        Handler::Breakpoint => FaultDecision::Continue,
        Handler::InvalidOpcode => FaultDecision::TerminateUnit,
        Handler::GeneralProtection => FaultDecision::TerminateUnit,
        Handler::PageFault => if protection_violation(error_code) {
            FaultDecision::TerminateUnit
        } else {
            FaultDecision::PageIn
        },
        Handler::DoubleFault => FaultDecision::Escalate,
    }
}

/// Decides the outcome of a fault delivered to handler `h`.
pub fn classify_fault(h: Handler, error_code: u64) -> (r: FaultDecision)
    ensures
        r == decision_for(h, error_code),
{
    match h {
        Handler::Breakpoint => FaultDecision::Continue,
        Handler::InvalidOpcode => FaultDecision::TerminateUnit,
        Handler::GeneralProtection => FaultDecision::TerminateUnit,
        Handler::PageFault => {
            if is_protection_violation(error_code) {
                FaultDecision::TerminateUnit
            } else {
                FaultDecision::PageIn
            }
        },
        Handler::DoubleFault => FaultDecision::Escalate,
    }
}

/// What a handler does once it has decided: how many diagnostic reports it
/// emits, and whether it halts the machine or returns to the interrupted code.
#[derive(Debug, Clone, Copy, PartialEq, Eq, Structural)]
pub struct Response {
    pub reports: u8,
    pub halts: bool,
}

/// Continuing and escalating each report once; only escalation halts. The
/// two unimplemented decision points neither report nor halt.
pub open spec fn response_to(d: FaultDecision) -> Response {
    match d {
        FaultDecision::Continue => Response { reports: 1, halts: false },
        FaultDecision::TerminateUnit => Response { reports: 0, halts: false },
        FaultDecision::PageIn => Response { reports: 0, halts: false },
        FaultDecision::Escalate => Response { reports: 1, halts: true },
    }
}

/// The response that carries out decision `d`.
pub fn respond(d: FaultDecision) -> (r: Response)
    ensures
        r == response_to(d),
{
    match d {
        FaultDecision::Continue => Response { reports: 1, halts: false },
        FaultDecision::TerminateUnit => Response { reports: 0, halts: false },
        FaultDecision::PageIn => Response { reports: 0, halts: false },
        FaultDecision::Escalate => Response { reports: 1, halts: true },
    }
}

/// A breakpoint, whatever the state it comes with, is resumed without
/// halting and yields exactly one diagnostic report.
pub proof fn lemma_breakpoint_resumes(error_code: u64)
    ensures
        decision_for(Handler::Breakpoint, error_code) == FaultDecision::Continue,
        !response_to(decision_for(Handler::Breakpoint, error_code)).halts,
        response_to(decision_for(Handler::Breakpoint, error_code)).reports == 1,
{
}

/// A double fault is always reported once and halts the machine.
pub proof fn lemma_double_fault_is_fatal(error_code: u64)
    ensures
        response_to(decision_for(Handler::DoubleFault, error_code)).halts,
        response_to(decision_for(Handler::DoubleFault, error_code)).reports == 1,
{
}

} // verus!
