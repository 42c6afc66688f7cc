use microseh::{Architecture, Registers};

#[test]
fn empty_snapshots_are_zero_with_fixed_lengths() {
    assert_eq!(Registers::empty(Architecture::X86).list(), &[0usize; 9][..]);
    assert_eq!(Registers::empty(Architecture::X86_64).list(), &[0usize; 17][..]);
    assert_eq!(Registers::empty(Architecture::Aarch64).list(), &[0usize; 33][..]);
    assert_eq!(Architecture::Aarch64.register_count(), 33);
}

#[test]
fn values_of_the_wrong_length_are_refused() {
    assert!(Registers::from_values(Architecture::X86_64, vec![0; 9]).is_none());
    assert!(Registers::from_values(Architecture::X86, vec![0; 17]).is_none());
    assert!(Registers::from_values(Architecture::Aarch64, vec![]).is_none());
}

#[test]
fn x86_accessors_follow_the_layout() {
    let values: Vec<usize> = (100..109).collect();
    let regs = Registers::from_values(Architecture::X86, values.clone()).unwrap();
    assert_eq!(regs.architecture(), Architecture::X86);
    assert_eq!(regs.list(), &values[..]);
    assert_eq!(regs.eax(), 100);
    assert_eq!(regs.ecx(), 101);
    assert_eq!(regs.esp(), 104);
    assert_eq!(regs.edi(), 107);
    assert_eq!(regs.eip(), 108);
}

#[test]
fn x86_64_accessors_follow_the_layout() {
    let values: Vec<usize> = (200..217).collect();
    let regs = Registers::from_values(Architecture::X86_64, values).unwrap();
    assert_eq!(regs.rax(), 200);
    assert_eq!(regs.rbx(), 203);
    assert_eq!(regs.rsp(), 204);
    assert_eq!(regs.r8(), 208);
    assert_eq!(regs.r15(), 215);
    assert_eq!(regs.rip(), 216);
}

#[test]
fn aarch64_accessors_follow_the_layout() {
    let values: Vec<usize> = (300..333).collect();
    let regs = Registers::from_values(Architecture::Aarch64, values).unwrap();
    assert_eq!(regs.x0(), 300);
    assert_eq!(regs.x28(), 328);
    assert_eq!(regs.fp(), 329);
    assert_eq!(regs.lr(), 330);
    assert_eq!(regs.sp(), 331);
    assert_eq!(regs.pc(), 332);
}

#[test]
fn clone_keeps_every_value() {
    let values: Vec<usize> = (1..18).collect();
    let regs = Registers::from_values(Architecture::X86_64, values).unwrap();
    let copy = regs.clone();
    assert_eq!(copy, regs);
    assert_eq!(copy.list(), regs.list());
}
