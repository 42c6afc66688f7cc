use vstd::prelude::*;

use crate::code::{description_of, kind_of_status, ExceptionCode};
use crate::registers::{Architecture, Registers};

verus! {

/// The kind that a fault report gives a native status code: the table's kind, or
/// `Unrecognized` where the table has none.
pub open spec fn report_kind(status: u32) -> ExceptionCode {
    match kind_of_status(status) {
        Some(e) => e,
        None => ExceptionCode::Unrecognized,
    }
}

/// What a protected call reports of a fault: its kind, the native status code, the
/// faulting address and, where the architecture is supported, the register file.
#[derive(Debug, Clone, PartialEq, Eq, Hash)]
pub struct Exception {
    code: ExceptionCode,
    status: u32,
    address: usize,
    registers: Option<Registers>,
}

impl Exception {
    /// The kind of the fault.
    pub closed spec fn kind(&self) -> ExceptionCode {
        self.code
    }

    /// The native status code as the host reported it.
    pub closed spec fn native_status(&self) -> u32 {
        self.status
    }

    /// The faulting address.
    pub closed spec fn fault_address(&self) -> usize {
        self.address
    }

    /// The register file at the fault, if captured.
    pub closed spec fn snapshot(&self) -> Option<Registers> {
        self.registers
    }

    /// The report before any fault has filled it: the placeholder kind, a zero
    /// status and address, and an all-zero register file where the architecture
    /// is supported.
    pub fn empty(arch: Option<Architecture>) -> (r: Exception)
        ensures
            r.kind() == ExceptionCode::Invalid,
            r.native_status() == 0,
            r.fault_address() == 0,
            arch is None ==> r.snapshot() is None,
            arch matches Some(a) ==> (r.snapshot() matches Some(regs) && regs.arch_of() == a
                && regs.values() == Seq::new(
                crate::registers::register_count(a),
                |i: int| 0usize,
            )),
    {
        let registers = match arch {
            Some(a) => Some(Registers::empty(a)),
            None => None,
        };
        Exception { code: ExceptionCode::Invalid, status: 0, address: 0, registers }
    }

    /// The report of a fault with this native status code, faulting address and
    /// register file. The kind is classified from the status code and is never
    /// the placeholder.
    pub fn from_fault(status: u32, address: usize, registers: Option<Registers>) -> (r: Exception)
        ensures
            r.kind() == report_kind(status),
            r.kind() != ExceptionCode::Invalid,
            r.native_status() == status,
            r.fault_address() == address,
            r.snapshot() == registers,
    {
        let code = ExceptionCode::classify(status);
        Exception { code, status, address, registers }
    }

    /// The kind of the fault.
    pub fn code(&self) -> (r: ExceptionCode)
        ensures
            r == self.kind(),
    {
        self.code
    }

    /// The native status code as the host reported it.
    pub fn status(&self) -> (r: u32)
        ensures
            r == self.native_status(),
    {
        self.status
    }

    /// The faulting address, zero for faults that carry none.
    pub fn address(&self) -> (r: usize)
        ensures
            r == self.fault_address(),
    {
        self.address
    }

    /// The register file at the fault, where the architecture is supported.
    pub fn registers(&self) -> (r: Option<&Registers>)
        ensures
            r is Some <==> self.snapshot() is Some,
            r matches Some(regs) ==> self.snapshot() == Some(*regs),
    {
        match &self.registers {
            Some(regs) => Some(regs),
            None => None,
        }
    }

    /// A human-readable explanation of the fault, for logs and diagnostics.
    pub fn description(&self) -> (r: &'static str)
        ensures
            r@ == description_of(self.kind()),
    {
        self.code.description()
    }
}

} // verus!
