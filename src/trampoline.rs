//! What a protected call returns, decided from what the native trampoline reports.
//!
//! The native stub runs the work item inside a protected region and answers with a
//! status word; where it caught a fault it has also filled in the fault's status
//! code, address and register file. The functions here turn those plain values into
//! the call's result.
use vstd::prelude::*;

use crate::exception::{report_kind, Exception};
use crate::registers::Registers;

verus! {

/// Status word of the native stub: the work item faulted and the fault was caught.
pub const STUB_CAUGHT: u32 = 0x1;

/// Status word of the native stub: this build cannot intercept faults at all.
pub const STUB_DISABLED: u32 = 0x2;

/// How a protected call ended, as the native stub's status word tells it.
#[derive(Debug, Clone, Copy, PartialEq, Eq, Structural, Hash)]
pub enum Outcome {
    /// The work item ran to its end without a fault.
    Completed,
    /// A fault was caught; the stub has filled in its report.
    Faulted,
    /// Interception is unavailable on this build: nothing was protected.
    Unsupported,
}

/// The outcome that a status word of the native stub stands for.
pub open spec fn outcome_of(stub_status: u32) -> Outcome {
    if stub_status == STUB_CAUGHT {
        Outcome::Faulted
    } else if stub_status == STUB_DISABLED {
        Outcome::Unsupported
    } else {
        Outcome::Completed
    }
}

/// The outcome that a status word of the native stub stands for.
pub fn outcome(stub_status: u32) -> (r: Outcome)
    ensures
        r == outcome_of(stub_status),
{
    if stub_status == STUB_CAUGHT {
        Outcome::Faulted
    } else if stub_status == STUB_DISABLED {
        Outcome::Unsupported
    } else {
        Outcome::Completed
    }
}

/// The result of a protected call on a build that intercepts faults: `Ok` where the
/// work item completed, and where a fault was caught the report of that fault,
/// classified from its native status code, with its address and register file.
///
/// A build without interception must fail loudly instead of reporting success, so
/// the status word that says so is not accepted here.
pub fn finish(
    stub_status: u32,
    fault_status: u32,
    address: usize,
    registers: Option<Registers>,
) -> (r: Result<(), Exception>)
    requires
        outcome_of(stub_status) != Outcome::Unsupported,
    ensures
        r is Ok <==> outcome_of(stub_status) == Outcome::Completed,
        r matches Err(e) ==> {
            &&& e.kind() == report_kind(fault_status)
            &&& e.kind() != crate::code::ExceptionCode::Invalid
            &&& e.native_status() == fault_status
            &&& e.fault_address() == address
            &&& e.snapshot() == registers
        },
{
    match outcome(stub_status) {
        Outcome::Faulted => Err(Exception::from_fault(fault_status, address, registers)),
        _ => Ok(()),
    }
}

} // verus!
