use microseh::trampoline::{finish, outcome, Outcome, STUB_CAUGHT, STUB_DISABLED};
use microseh::{Architecture, Exception, ExceptionCode, Registers};

#[test]
fn placeholder_report_is_zero() {
    let e = Exception::empty(Some(Architecture::X86_64));
    assert_eq!(e.code(), ExceptionCode::Invalid);
    assert_eq!(e.status(), 0);
    assert_eq!(e.address(), 0);
    assert_eq!(e.registers().unwrap().list(), &[0usize; 17][..]);
    assert!(Exception::empty(None).registers().is_none());
}

#[test]
fn fault_report_keeps_what_the_stub_filled_in() {
    let regs = Registers::from_values(Architecture::X86, (0..9).collect()).unwrap();
    let e = Exception::from_fault(0xC0000094, 0x401000, Some(regs.clone()));
    assert_eq!(e.code(), ExceptionCode::IntDivideByZero);
    assert_eq!(e.status(), 0xC0000094);
    assert_eq!(e.address(), 0x401000);
    assert_eq!(e.registers(), Some(&regs));
    assert_eq!(
        e.description(),
        "the thread attempts to divide an integer value by an integer divisor of 0"
    );
}

#[test]
fn unknown_status_is_reported_as_unrecognized() {
    let e = Exception::from_fault(0xE06D7363, 0, None);
    assert_eq!(e.code(), ExceptionCode::Unrecognized);
    assert_eq!(e.status(), 0xE06D7363);
    assert_ne!(e.code(), ExceptionCode::Invalid);
}

#[test]
fn stub_status_words() {
    assert_eq!(outcome(0), Outcome::Completed);
    assert_eq!(outcome(STUB_CAUGHT), Outcome::Faulted);
    assert_eq!(outcome(STUB_DISABLED), Outcome::Unsupported);
    assert_eq!(outcome(7), Outcome::Completed);
}

#[test]
fn completed_call_is_success_every_time() {
    for _ in 0..3 {
        let r = finish(0, 0, 0, Some(Registers::empty(Architecture::X86_64)));
        assert!(r.is_ok());
    }
}

#[test]
fn caught_access_violation_reports_the_address() {
    let r = finish(STUB_CAUGHT, 0xC0000005, 4, None);
    assert!(r.is_err());
    let e = r.unwrap_err();
    assert_eq!(e.code(), ExceptionCode::AccessViolation);
    assert_eq!(e.address(), 4);
}

#[test]
fn caught_illegal_instruction() {
    let r = finish(STUB_CAUGHT, 0xC000001D, 0, None);
    assert_eq!(r.unwrap_err().code(), ExceptionCode::IllegalInstruction);
}

#[test]
fn captured_x86_64_accumulator_is_reported() {
    let mut values = vec![0usize; 17];
    values[0] = 0xbadc0debabefffff_u64 as usize;
    let regs = Registers::from_values(Architecture::X86_64, values).unwrap();
    let r = finish(STUB_CAUGHT, 0xC000001D, 0, Some(regs));
    let e = r.unwrap_err();
    assert_eq!(e.code(), ExceptionCode::IllegalInstruction);
    assert_eq!(e.registers().unwrap().rax(), 0xbadc0debabefffff_u64 as usize);
}

#[test]
fn captured_x86_accumulator_is_reported() {
    let mut values = vec![0usize; 9];
    values[0] = 0xbadc0de;
    let regs = Registers::from_values(Architecture::X86, values).unwrap();
    let e = finish(STUB_CAUGHT, 0xC000001D, 0, Some(regs)).unwrap_err();
    assert_eq!(e.registers().unwrap().eax(), 0xbadc0de);
}

#[test]
fn captured_aarch64_first_register_is_reported() {
    let mut values = vec![0usize; 33];
    values[0] = 0xbadc0debabefffff_u64 as usize;
    let regs = Registers::from_values(Architecture::Aarch64, values).unwrap();
    let e = finish(STUB_CAUGHT, 0xC000001D, 0, Some(regs)).unwrap_err();
    assert_eq!(e.registers().unwrap().x0(), 0xbadc0debabefffff_u64 as usize);
}

#[test]
fn reports_of_separate_calls_stay_separate() {
    let a = finish(STUB_CAUGHT, 0xC0000005, 0x10, None).unwrap_err();
    let b = finish(STUB_CAUGHT, 0xC0000005, 0x20, None).unwrap_err();
    assert_eq!(a.address(), 0x10);
    assert_eq!(b.address(), 0x20);
}

#[test]
fn inner_fault_does_not_reach_the_outer_call() {
    let inner = finish(STUB_CAUGHT, 0xC0000005, 0, None);
    let outer = finish(0, 0, 0, None);
    assert!(inner.is_err());
    assert!(outer.is_ok());
}
