use microseh::ExceptionCode;

const ALL_FAULT_KINDS: [ExceptionCode; 23] = [
    ExceptionCode::AccessViolation,
    ExceptionCode::ArrayBoundsExceeded,
    ExceptionCode::Breakpoint,
    ExceptionCode::DataTypeMisalignment,
    ExceptionCode::FltDenormalOperand,
    ExceptionCode::FltDivideByZero,
    ExceptionCode::FltInexactResult,
    ExceptionCode::FltInvalidOperation,
    ExceptionCode::FltOverflow,
    ExceptionCode::FltStackCheck,
    ExceptionCode::FltUnderflow,
    ExceptionCode::GuardPage,
    ExceptionCode::IllegalInstruction,
    ExceptionCode::InPageError,
    ExceptionCode::IntDivideByZero,
    ExceptionCode::IntOverflow,
    ExceptionCode::InvalidDisposition,
    ExceptionCode::InvalidHandle,
    ExceptionCode::NonContinuableException,
    ExceptionCode::PrivilegedInstruction,
    ExceptionCode::SingleStep,
    ExceptionCode::StackOverflow,
    ExceptionCode::UnwindConsolidate,
];

#[test]
fn every_fault_kind_round_trips_through_its_status() {
    for kind in ALL_FAULT_KINDS {
        let status = kind.status().unwrap();
        assert_eq!(ExceptionCode::from_status(status), Some(kind));
        assert_eq!(ExceptionCode::classify(status), kind);
    }
}

#[test]
fn status_codes_and_descriptions_are_distinct_and_non_empty() {
    let mut all: Vec<ExceptionCode> = ALL_FAULT_KINDS.to_vec();
    all.push(ExceptionCode::Invalid);
    all.push(ExceptionCode::Unrecognized);
    for (i, a) in all.iter().enumerate() {
        assert!(!a.description().is_empty());
        for b in all.iter().skip(i + 1) {
            assert_ne!(a.description(), b.description());
            if a.status().is_some() {
                assert_ne!(a.status(), b.status());
            }
        }
    }
}

#[test]
fn known_status_values() {
    assert_eq!(ExceptionCode::AccessViolation.status(), Some(0xC0000005));
    assert_eq!(ExceptionCode::IllegalInstruction.status(), Some(0xC000001D));
    assert_eq!(ExceptionCode::Breakpoint.status(), Some(0x80000003));
    assert_eq!(ExceptionCode::StackOverflow.status(), Some(0xC00000FD));
    assert_eq!(ExceptionCode::Invalid.status(), Some(0));
    assert_eq!(ExceptionCode::Unrecognized.status(), None);
}

#[test]
fn placeholder_and_unknown_codes_do_not_decode() {
    assert_eq!(ExceptionCode::from_status(0), None);
    assert_eq!(ExceptionCode::from_status(0xDEADBEEF), None);
    assert_eq!(ExceptionCode::classify(0), ExceptionCode::Unrecognized);
    assert_eq!(ExceptionCode::classify(0xC0000004), ExceptionCode::Unrecognized);
}

#[test]
fn descriptions_read_as_documented() {
    assert_eq!(ExceptionCode::Invalid.description(), "invalid exception");
    assert_eq!(ExceptionCode::Breakpoint.description(), "a breakpoint was encountered");
    assert_eq!(
        ExceptionCode::IllegalInstruction.description(),
        "the thread tries to execute an invalid instruction"
    );
}
