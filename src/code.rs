use vstd::prelude::*;

verus! {

/// A kind of hardware fault, as the host's structured exception dispatch names it.
///
/// Each kind but `Invalid` stands for exactly one native status code. `Invalid` is
/// the placeholder of a report that no fault has filled, and `Unrecognized` the kind
/// of a fault whose status code is not in the table.
#[derive(Debug, Clone, Copy, PartialEq, Eq, Structural, Hash)]
pub enum ExceptionCode {
    Invalid,
    AccessViolation,
    ArrayBoundsExceeded,
    Breakpoint,
    DataTypeMisalignment,
    FltDenormalOperand,
    FltDivideByZero,
    FltInexactResult,
    FltInvalidOperation,
    FltOverflow,
    FltStackCheck,
    FltUnderflow,
    GuardPage,
    IllegalInstruction,
    InPageError,
    IntDivideByZero,
    IntOverflow,
    InvalidDisposition,
    InvalidHandle,
    NonContinuableException,
    PrivilegedInstruction,
    SingleStep,
    StackOverflow,
    UnwindConsolidate,
    Unrecognized,
}

/// The native status code of a kind; `None` for a kind that has none.
pub open spec fn status_of(e: ExceptionCode) -> Option<u32> {
    match e {
        ExceptionCode::Invalid => Some(0x0u32),
        ExceptionCode::AccessViolation => Some(0xC0000005u32),
        ExceptionCode::ArrayBoundsExceeded => Some(0xC000008Cu32),
        ExceptionCode::Breakpoint => Some(0x80000003u32),
        ExceptionCode::DataTypeMisalignment => Some(0x80000002u32),
        ExceptionCode::FltDenormalOperand => Some(0xC000008Du32),
        ExceptionCode::FltDivideByZero => Some(0xC000008Eu32),
        ExceptionCode::FltInexactResult => Some(0xC000008Fu32),
        ExceptionCode::FltInvalidOperation => Some(0xC0000090u32),
        ExceptionCode::FltOverflow => Some(0xC0000091u32),
        ExceptionCode::FltStackCheck => Some(0xC0000092u32),
        ExceptionCode::FltUnderflow => Some(0xC0000093u32),
        ExceptionCode::GuardPage => Some(0x80000001u32),
        ExceptionCode::IllegalInstruction => Some(0xC000001Du32),
        ExceptionCode::InPageError => Some(0xC0000006u32),
        ExceptionCode::IntDivideByZero => Some(0xC0000094u32),
        ExceptionCode::IntOverflow => Some(0xC0000095u32),
        ExceptionCode::InvalidDisposition => Some(0xC0000026u32),
        ExceptionCode::InvalidHandle => Some(0xC0000008u32),
        ExceptionCode::NonContinuableException => Some(0xC0000025u32),
        ExceptionCode::PrivilegedInstruction => Some(0xC0000096u32),
        ExceptionCode::SingleStep => Some(0x80000004u32),
        ExceptionCode::StackOverflow => Some(0xC00000FDu32),
        ExceptionCode::UnwindConsolidate => Some(0x80000029u32),
        ExceptionCode::Unrecognized => None,
    }
}

/// A status code that the table gives a fault kind.
pub open spec fn is_fault_status(c: u32) -> bool {
    exists|e: ExceptionCode| #[trigger] status_of(e) == Some(c) && e != ExceptionCode::Invalid
}

/// The kind that the table gives a fault status code, if any.
pub open spec fn kind_of_status(c: u32) -> Option<ExceptionCode> {
    if c == 0xC0000005u32 {
        Some(ExceptionCode::AccessViolation)
    } else if c == 0xC000008Cu32 {
        Some(ExceptionCode::ArrayBoundsExceeded)
    } else if c == 0x80000003u32 {
        Some(ExceptionCode::Breakpoint)
    } else if c == 0x80000002u32 {
        Some(ExceptionCode::DataTypeMisalignment)
    } else if c == 0xC000008Du32 {
        Some(ExceptionCode::FltDenormalOperand)
    } else if c == 0xC000008Eu32 {
        Some(ExceptionCode::FltDivideByZero)
    } else if c == 0xC000008Fu32 {
        Some(ExceptionCode::FltInexactResult)
    } else if c == 0xC0000090u32 {
        Some(ExceptionCode::FltInvalidOperation)
    } else if c == 0xC0000091u32 {
        Some(ExceptionCode::FltOverflow)
    } else if c == 0xC0000092u32 {
        Some(ExceptionCode::FltStackCheck)
    } else if c == 0xC0000093u32 {
        Some(ExceptionCode::FltUnderflow)
    } else if c == 0x80000001u32 {
        Some(ExceptionCode::GuardPage)
    } else if c == 0xC000001Du32 {
        Some(ExceptionCode::IllegalInstruction)
    } else if c == 0xC0000006u32 {
        Some(ExceptionCode::InPageError)
    } else if c == 0xC0000094u32 {
        Some(ExceptionCode::IntDivideByZero)
    } else if c == 0xC0000095u32 {
        Some(ExceptionCode::IntOverflow)
    } else if c == 0xC0000026u32 {
        Some(ExceptionCode::InvalidDisposition)
    } else if c == 0xC0000008u32 {
        Some(ExceptionCode::InvalidHandle)
    } else if c == 0xC0000025u32 {
        Some(ExceptionCode::NonContinuableException)
    } else if c == 0xC0000096u32 {
        Some(ExceptionCode::PrivilegedInstruction)
    } else if c == 0x80000004u32 {
        Some(ExceptionCode::SingleStep)
    } else if c == 0xC00000FDu32 {
        Some(ExceptionCode::StackOverflow)
    } else if c == 0x80000029u32 {
        Some(ExceptionCode::UnwindConsolidate)
    } else {
        None
    }
}

/// The explanation of a kind, as a sequence of characters.
pub open spec fn description_of(e: ExceptionCode) -> Seq<char> {
    match e {
        ExceptionCode::Invalid => "invalid exception"@,
        ExceptionCode::AccessViolation => "the thread attempts to read from or write to a virtual address for which it does not have access"@,
        ExceptionCode::ArrayBoundsExceeded => "the thread attempts to access an array element that is out of bounds and the underlying hardware supports bounds checking"@,
        ExceptionCode::Breakpoint => "a breakpoint was encountered"@,
        ExceptionCode::DataTypeMisalignment => "the thread attempts to read or write data that is misaligned on hardware that does not provide alignment"@,
        ExceptionCode::FltDenormalOperand => "one of the operands in a floating point operation is denormal"@,
        ExceptionCode::FltDivideByZero => "the thread attempts to divide a floating point value by a floating point divisor of 0"@,
        ExceptionCode::FltInexactResult => "the result of a floating point operation cannot be represented exactly as a decimal fraction"@,
        ExceptionCode::FltInvalidOperation => "this exception represents any floating point exception not included in this list"@,
        ExceptionCode::FltOverflow => "the exponent of a floating point operation is greater than the magnitude allowed by the corresponding type"@,
        ExceptionCode::FltStackCheck => "the stack has overflowed or underflowed, because of a floating point operation"@,
        ExceptionCode::FltUnderflow => "the exponent of a floating point operation is less than the magnitude allowed by the corresponding type"@,
        ExceptionCode::GuardPage => "the thread accessed memory allocated with the PAGE_GUARD modifier"@,
        ExceptionCode::IllegalInstruction => "the thread tries to execute an invalid instruction"@,
        ExceptionCode::InPageError => "the thread tries to access a page that is not present, and the system is unable to load the page"@,
        ExceptionCode::IntDivideByZero => "the thread attempts to divide an integer value by an integer divisor of 0"@,
        ExceptionCode::IntOverflow => "the result of an integer operation creates a value that is too large to be held by the destination register"@,
        ExceptionCode::InvalidDisposition => "an exception handler returns an invalid disposition to the exception dispatcher"@,
        ExceptionCode::InvalidHandle => "the thread used a handle to a kernel object that was invalid"@,
        ExceptionCode::NonContinuableException => "the thread attempts to continue execution after a non-continuable exception occurs"@,
        ExceptionCode::PrivilegedInstruction => "the thread attempts to execute an instruction with an operation that is not allowed in the current computer mode"@,
        ExceptionCode::SingleStep => "a trace trap or other single instruction mechanism signals that one instruction is executed"@,
        ExceptionCode::StackOverflow => "the thread used up its stack"@,
        ExceptionCode::UnwindConsolidate => "a frame consolidation has been executed"@,
        ExceptionCode::Unrecognized => "the status code is not one of the known exception codes"@,
    }
}

impl ExceptionCode {
    /// The native status code of this kind, or `None` for `Unrecognized`.
    pub fn status(&self) -> (r: Option<u32>)
        ensures
            r == status_of(*self),
    {
        match self {
            ExceptionCode::Invalid => Some(0x0),
            ExceptionCode::AccessViolation => Some(0xC0000005),
            ExceptionCode::ArrayBoundsExceeded => Some(0xC000008C),
            ExceptionCode::Breakpoint => Some(0x80000003),
            ExceptionCode::DataTypeMisalignment => Some(0x80000002),
            ExceptionCode::FltDenormalOperand => Some(0xC000008D),
            ExceptionCode::FltDivideByZero => Some(0xC000008E),
            ExceptionCode::FltInexactResult => Some(0xC000008F),
            ExceptionCode::FltInvalidOperation => Some(0xC0000090),
            ExceptionCode::FltOverflow => Some(0xC0000091),
            ExceptionCode::FltStackCheck => Some(0xC0000092),
            ExceptionCode::FltUnderflow => Some(0xC0000093),
            ExceptionCode::GuardPage => Some(0x80000001),
            ExceptionCode::IllegalInstruction => Some(0xC000001D),
            ExceptionCode::InPageError => Some(0xC0000006),
            ExceptionCode::IntDivideByZero => Some(0xC0000094),
            ExceptionCode::IntOverflow => Some(0xC0000095),
            ExceptionCode::InvalidDisposition => Some(0xC0000026),
            ExceptionCode::InvalidHandle => Some(0xC0000008),
            ExceptionCode::NonContinuableException => Some(0xC0000025),
            ExceptionCode::PrivilegedInstruction => Some(0xC0000096),
            ExceptionCode::SingleStep => Some(0x80000004),
            ExceptionCode::StackOverflow => Some(0xC00000FD),
            ExceptionCode::UnwindConsolidate => Some(0x80000029),
            ExceptionCode::Unrecognized => None,
        }
    }

    /// The fault kind of a native status code; `None` where the table has no fault
    /// kind for it (the placeholder's code among them).
    pub fn from_status(c: u32) -> (r: Option<ExceptionCode>)
        ensures
            r == kind_of_status(c),
    {
        match c {
            0xC0000005 => Some(ExceptionCode::AccessViolation),
            0xC000008C => Some(ExceptionCode::ArrayBoundsExceeded),
            0x80000003 => Some(ExceptionCode::Breakpoint),
            0x80000002 => Some(ExceptionCode::DataTypeMisalignment),
            0xC000008D => Some(ExceptionCode::FltDenormalOperand),
            0xC000008E => Some(ExceptionCode::FltDivideByZero),
            0xC000008F => Some(ExceptionCode::FltInexactResult),
            0xC0000090 => Some(ExceptionCode::FltInvalidOperation),
            0xC0000091 => Some(ExceptionCode::FltOverflow),
            0xC0000092 => Some(ExceptionCode::FltStackCheck),
            0xC0000093 => Some(ExceptionCode::FltUnderflow),
            0x80000001 => Some(ExceptionCode::GuardPage),
            0xC000001D => Some(ExceptionCode::IllegalInstruction),
            0xC0000006 => Some(ExceptionCode::InPageError),
            0xC0000094 => Some(ExceptionCode::IntDivideByZero),
            0xC0000095 => Some(ExceptionCode::IntOverflow),
            0xC0000026 => Some(ExceptionCode::InvalidDisposition),
            0xC0000008 => Some(ExceptionCode::InvalidHandle),
            0xC0000025 => Some(ExceptionCode::NonContinuableException),
            0xC0000096 => Some(ExceptionCode::PrivilegedInstruction),
            0x80000004 => Some(ExceptionCode::SingleStep),
            0xC00000FD => Some(ExceptionCode::StackOverflow),
            0x80000029 => Some(ExceptionCode::UnwindConsolidate),
            _ => None,
        }
    }

    /// The fault kind of a native status code, `Unrecognized` where the table has none.
    pub fn classify(c: u32) -> (r: ExceptionCode)
        ensures
            r == match kind_of_status(c) {
                Some(e) => e,
                None => ExceptionCode::Unrecognized,
            },
            r != ExceptionCode::Invalid,
    {
        match Self::from_status(c) {
            Some(e) => e,
            None => ExceptionCode::Unrecognized,
        }
    }

    /// A human-readable explanation of this kind, for logs and diagnostics.
    pub fn description(&self) -> (r: &'static str)
        ensures
            r@ == description_of(*self),
    {
        match self {
            ExceptionCode::Invalid => "invalid exception",
            ExceptionCode::AccessViolation => "the thread attempts to read from or write to a virtual address for which it does not have access",
            ExceptionCode::ArrayBoundsExceeded => "the thread attempts to access an array element that is out of bounds and the underlying hardware supports bounds checking",
            ExceptionCode::Breakpoint => "a breakpoint was encountered",
            ExceptionCode::DataTypeMisalignment => "the thread attempts to read or write data that is misaligned on hardware that does not provide alignment",
            ExceptionCode::FltDenormalOperand => "one of the operands in a floating point operation is denormal",
            ExceptionCode::FltDivideByZero => "the thread attempts to divide a floating point value by a floating point divisor of 0",
            ExceptionCode::FltInexactResult => "the result of a floating point operation cannot be represented exactly as a decimal fraction",
            ExceptionCode::FltInvalidOperation => "this exception represents any floating point exception not included in this list",
            ExceptionCode::FltOverflow => "the exponent of a floating point operation is greater than the magnitude allowed by the corresponding type",
            ExceptionCode::FltStackCheck => "the stack has overflowed or underflowed, because of a floating point operation",
            ExceptionCode::FltUnderflow => "the exponent of a floating point operation is less than the magnitude allowed by the corresponding type",
            ExceptionCode::GuardPage => "the thread accessed memory allocated with the PAGE_GUARD modifier",
            ExceptionCode::IllegalInstruction => "the thread tries to execute an invalid instruction",
            ExceptionCode::InPageError => "the thread tries to access a page that is not present, and the system is unable to load the page",
            ExceptionCode::IntDivideByZero => "the thread attempts to divide an integer value by an integer divisor of 0",
            ExceptionCode::IntOverflow => "the result of an integer operation creates a value that is too large to be held by the destination register",
            ExceptionCode::InvalidDisposition => "an exception handler returns an invalid disposition to the exception dispatcher",
            ExceptionCode::InvalidHandle => "the thread used a handle to a kernel object that was invalid",
            ExceptionCode::NonContinuableException => "the thread attempts to continue execution after a non-continuable exception occurs",
            ExceptionCode::PrivilegedInstruction => "the thread attempts to execute an instruction with an operation that is not allowed in the current computer mode",
            ExceptionCode::SingleStep => "a trace trap or other single instruction mechanism signals that one instruction is executed",
            ExceptionCode::StackOverflow => "the thread used up its stack",
            ExceptionCode::UnwindConsolidate => "a frame consolidation has been executed",
            ExceptionCode::Unrecognized => "the status code is not one of the known exception codes",
        }
    }
}

/// Length and twelfth character of each explanation: no two kinds share both.
spec fn description_signature(e: ExceptionCode) -> (nat, char) {
    match e {
        ExceptionCode::Invalid => (17nat, 'e'),
        ExceptionCode::AccessViolation => (96nat, 'a'),
        ExceptionCode::ArrayBoundsExceeded => (121nat, 'a'),
        ExceptionCode::Breakpoint => (28nat, 't'),
        ExceptionCode::DataTypeMisalignment => (104nat, 'a'),
        ExceptionCode::FltDenormalOperand => (61nat, 'o'),
        ExceptionCode::FltDivideByZero => (85nat, 'a'),
        ExceptionCode::FltInexactResult => (92nat, 'o'),
        ExceptionCode::FltInvalidOperation => (80nat, 'i'),
        ExceptionCode::FltOverflow => (106nat, 't'),
        ExceptionCode::FltStackCheck => (78nat, 'a'),
        ExceptionCode::FltUnderflow => (103nat, 't'),
        ExceptionCode::GuardPage => (65nat, 'a'),
        ExceptionCode::IllegalInstruction => (50nat, 't'),
        ExceptionCode::InPageError => (96nat, 't'),
        ExceptionCode::IntDivideByZero => (73nat, 'a'),
        ExceptionCode::IntOverflow => (107nat, 'o'),
        ExceptionCode::InvalidDisposition => (79nat, 'n'),
        ExceptionCode::InvalidHandle => (60nat, 'u'),
        ExceptionCode::NonContinuableException => (82nat, 'a'),
        ExceptionCode::PrivilegedInstruction => (112nat, 'a'),
        ExceptionCode::SingleStep => (91nat, 'p'),
        ExceptionCode::StackOverflow => (28nat, 'u'),
        ExceptionCode::UnwindConsolidate => (39nat, 's'),
        ExceptionCode::Unrecognized => (55nat, 'c'),
    }
}

proof fn lemma_description_signature(e: ExceptionCode)
    ensures
        description_of(e).len() == description_signature(e).0,
        description_of(e)[11] == description_signature(e).1,
{
    match e {
        ExceptionCode::Invalid => {
            reveal_strlit("invalid exception");
        },
        ExceptionCode::AccessViolation => {
            reveal_strlit("the thread attempts to read from or write to a virtual address for which it does not have access");
        },
        ExceptionCode::ArrayBoundsExceeded => {
            reveal_strlit("the thread attempts to access an array element that is out of bounds and the underlying hardware supports bounds checking");
        },
        ExceptionCode::Breakpoint => {
            reveal_strlit("a breakpoint was encountered");
        },
        ExceptionCode::DataTypeMisalignment => {
            reveal_strlit("the thread attempts to read or write data that is misaligned on hardware that does not provide alignment");
        },
        ExceptionCode::FltDenormalOperand => {
            reveal_strlit("one of the operands in a floating point operation is denormal");
        },
        ExceptionCode::FltDivideByZero => {
            reveal_strlit("the thread attempts to divide a floating point value by a floating point divisor of 0");
        },
        ExceptionCode::FltInexactResult => {
            reveal_strlit("the result of a floating point operation cannot be represented exactly as a decimal fraction");
        },
        ExceptionCode::FltInvalidOperation => {
            reveal_strlit("this exception represents any floating point exception not included in this list");
        },
        ExceptionCode::FltOverflow => {
            reveal_strlit("the exponent of a floating point operation is greater than the magnitude allowed by the corresponding type");
        },
        ExceptionCode::FltStackCheck => {
            reveal_strlit("the stack has overflowed or underflowed, because of a floating point operation");
        },
        ExceptionCode::FltUnderflow => {
            reveal_strlit("the exponent of a floating point operation is less than the magnitude allowed by the corresponding type");
        },
        ExceptionCode::GuardPage => {
            reveal_strlit("the thread accessed memory allocated with the PAGE_GUARD modifier");
        },
        ExceptionCode::IllegalInstruction => {
            reveal_strlit("the thread tries to execute an invalid instruction");
        },
        ExceptionCode::InPageError => {
            reveal_strlit("the thread tries to access a page that is not present, and the system is unable to load the page");
        },
        ExceptionCode::IntDivideByZero => {
            reveal_strlit("the thread attempts to divide an integer value by an integer divisor of 0");
        },
        ExceptionCode::IntOverflow => {
            reveal_strlit("the result of an integer operation creates a value that is too large to be held by the destination register");
        },
        ExceptionCode::InvalidDisposition => {
            reveal_strlit("an exception handler returns an invalid disposition to the exception dispatcher");
        },
        ExceptionCode::InvalidHandle => {
            reveal_strlit("the thread used a handle to a kernel object that was invalid");
        },
        ExceptionCode::NonContinuableException => {
            reveal_strlit("the thread attempts to continue execution after a non-continuable exception occurs");
        },
        ExceptionCode::PrivilegedInstruction => {
            reveal_strlit("the thread attempts to execute an instruction with an operation that is not allowed in the current computer mode");
        },
        ExceptionCode::SingleStep => {
            reveal_strlit("a trace trap or other single instruction mechanism signals that one instruction is executed");
        },
        ExceptionCode::StackOverflow => {
            reveal_strlit("the thread used up its stack");
        },
        ExceptionCode::UnwindConsolidate => {
            reveal_strlit("a frame consolidation has been executed");
        },
        ExceptionCode::Unrecognized => {
            reveal_strlit("the status code is not one of the known exception codes");
        },
    }
}

/// Every kind has a non-empty explanation, and no two kinds share one.
pub proof fn lemma_descriptions_distinct(a: ExceptionCode, b: ExceptionCode)
    ensures
        description_of(a).len() > 0,
        a != b ==> description_of(a) != description_of(b),
{
    lemma_description_signature(a);
    lemma_description_signature(b);
}

/// Encoding a fault kind to its status code and decoding that code gives the kind back.
pub proof fn lemma_status_round_trip(e: ExceptionCode)
    requires
        e != ExceptionCode::Invalid,
        e != ExceptionCode::Unrecognized,
    ensures
        status_of(e) is Some,
        kind_of_status(status_of(e)->0) == Some(e),
        is_fault_status(status_of(e)->0),
{
}

/// Decoding a fault status code and encoding the kind gives the code back; the
/// codes that decode are exactly the fault status codes of the table.
pub proof fn lemma_kind_round_trip(c: u32)
    ensures
        kind_of_status(c) is Some <==> is_fault_status(c),
        kind_of_status(c) matches Some(e) ==> status_of(e) == Some(c) && e != ExceptionCode::Invalid
            && e != ExceptionCode::Unrecognized,
{
    if kind_of_status(c) is Some {
        assert(status_of(kind_of_status(c)->0) == Some(c));
    }
}

/// No two kinds share a status code.
pub proof fn lemma_status_injective(a: ExceptionCode, b: ExceptionCode)
    requires
        status_of(a) is Some,
        status_of(a) == status_of(b),
    ensures
        a == b,
{
}

} // verus!
