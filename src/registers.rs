use vstd::prelude::*;

verus! {

/// A processor architecture whose register file a snapshot can hold.
#[derive(Debug, Clone, Copy, PartialEq, Eq, Structural, Hash)]
pub enum Architecture {
    /// 32-bit x86: 9 registers.
    X86,
    /// 64-bit x86: 17 registers.
    X86_64,
    /// 64-bit ARM: 33 registers.
    Aarch64,
}

/// How many registers a snapshot of the architecture holds.
pub open spec fn register_count(a: Architecture) -> nat {
    match a {
        Architecture::X86 => 9,
        Architecture::X86_64 => 17,
        Architecture::Aarch64 => 33,
    }
}

impl Architecture {
    /// How many registers a snapshot of this architecture holds.
    pub fn register_count(&self) -> (r: usize)
        ensures
            r == register_count(*self),
    {
        match self {
            Architecture::X86 => 9,
            Architecture::X86_64 => 17,
            Architecture::Aarch64 => 33,
        }
    }
}

/// The register file at the point of a fault: one machine word per register, in
/// the order that the architecture fixes.
#[derive(Debug, PartialEq, Eq, Hash)]
pub struct Registers {
    arch: Architecture,
    list: Vec<usize>,
}

impl Clone for Registers {
    fn clone(&self) -> (r: Registers)
        ensures
            r.arch_of() == self.arch_of(),
            r.values() == self.values(),
    {
        proof {
            use_type_invariant(self);
        }
        let mut list: Vec<usize> = Vec::with_capacity(self.list.len());
        let mut i: usize = 0;
        while i < self.list.len()
            invariant
                i <= self.list@.len(),
                list@ == self.list@.subrange(0, i as int),
            decreases self.list@.len() - i,
        {
            list.push(self.list[i]);
            i = i + 1;
        }
        proof {
            assert(self.list@.subrange(0, self.list@.len() as int) == self.list@);
        }
        Registers { arch: self.arch, list }
    }
}

impl Registers {
    /// The architecture whose layout the snapshot follows.
    pub closed spec fn arch_of(&self) -> Architecture {
        self.arch
    }

    /// The register values, in layout order.
    pub closed spec fn values(&self) -> Seq<usize> {
        self.list@
    }

    #[verifier::type_invariant]
    spec fn layout_matches(&self) -> bool {
        self.list@.len() == register_count(self.arch)
    }

    /// An all-zero snapshot of the architecture.
    pub fn empty(arch: Architecture) -> (r: Registers)
        ensures
            r.arch_of() == arch,
            r.values() == Seq::new(register_count(arch), |i: int| 0usize),
    {
        let n = arch.register_count();
        let mut list: Vec<usize> = Vec::with_capacity(n);
        let mut i: usize = 0;
        while i < n
            invariant
                i <= n,
                n == register_count(arch),
                list@ == Seq::new(i as nat, |j: int| 0usize),
            decreases n - i,
        {
            list.push(0);
            i = i + 1;
        }
        Registers { arch, list }
    }

    /// The snapshot of the architecture that holds these values in layout order;
    /// `None` where there is not exactly one value per register.
    pub fn from_values(arch: Architecture, values: Vec<usize>) -> (r: Option<Registers>)
        ensures
            values@.len() == register_count(arch) <==> r is Some,
            r matches Some(regs) ==> regs.arch_of() == arch && regs.values() == values@,
    {
        if values.len() == arch.register_count() {
            Some(Registers { arch, list: values })
        } else {
            None
        }
    }

    /// The architecture whose layout the snapshot follows.
    pub fn architecture(&self) -> (r: Architecture)
        ensures
            r == self.arch_of(),
    {
        self.arch
    }

    /// The register values, in layout order: one for each register of the
    /// architecture.
    pub fn list(&self) -> (r: &[usize])
        ensures
            r@ == self.values(),
            r@.len() == register_count(self.arch_of()),
    {
        proof {
            use_type_invariant(self);
        }
        self.list.as_slice()
    }

    /// The `eax` register of a 32-bit x86 snapshot.
    pub fn eax(&self) -> (r: usize)
        requires
            self.arch_of() == Architecture::X86,
        ensures
            r == self.values()[0],
    {
        proof {
            use_type_invariant(self);
        }
        self.list[0]
    }

    /// The `ecx` register of a 32-bit x86 snapshot.
    pub fn ecx(&self) -> (r: usize)
        requires
            self.arch_of() == Architecture::X86,
        ensures
            r == self.values()[1],
    {
        proof {
            use_type_invariant(self);
        }
        self.list[1]
    }

    /// The `edx` register of a 32-bit x86 snapshot.
    pub fn edx(&self) -> (r: usize)
        requires
            self.arch_of() == Architecture::X86,
        ensures
            r == self.values()[2],
    {
        proof {
            use_type_invariant(self);
        }
        self.list[2]
    }

    /// The `ebx` register of a 32-bit x86 snapshot.
    pub fn ebx(&self) -> (r: usize)
        requires
            self.arch_of() == Architecture::X86,
        ensures
            r == self.values()[3],
    {
        proof {
            use_type_invariant(self);
        }
        self.list[3]
    }

    /// The `esp` register of a 32-bit x86 snapshot.
    pub fn esp(&self) -> (r: usize)
        requires
            self.arch_of() == Architecture::X86,
        ensures
            r == self.values()[4],
    {
        proof {
            use_type_invariant(self);
        }
        self.list[4]
    }

    /// The `ebp` register of a 32-bit x86 snapshot.
    pub fn ebp(&self) -> (r: usize)
        requires
            self.arch_of() == Architecture::X86,
        ensures
            r == self.values()[5],
    {
        proof {
            use_type_invariant(self);
        }
        self.list[5]
    }

    /// The `esi` register of a 32-bit x86 snapshot.
    pub fn esi(&self) -> (r: usize)
        requires
            self.arch_of() == Architecture::X86,
        ensures
            r == self.values()[6],
    {
        proof {
            use_type_invariant(self);
        }
        self.list[6]
    }

    /// The `edi` register of a 32-bit x86 snapshot.
    pub fn edi(&self) -> (r: usize)
        requires
            self.arch_of() == Architecture::X86,
        ensures
            r == self.values()[7],
    {
        proof {
            use_type_invariant(self);
        }
        self.list[7]
    }

    /// The `eip` register of a 32-bit x86 snapshot.
    pub fn eip(&self) -> (r: usize)
        requires
            self.arch_of() == Architecture::X86,
        ensures
            r == self.values()[8],
    {
        proof {
            use_type_invariant(self);
        }
        self.list[8]
    }

    /// The `rax` register of a 64-bit x86 snapshot.
    pub fn rax(&self) -> (r: usize)
        requires
            self.arch_of() == Architecture::X86_64,
        ensures
            r == self.values()[0],
    {
        proof {
            use_type_invariant(self);
        }
        self.list[0]
    }

    /// The `rcx` register of a 64-bit x86 snapshot.
    pub fn rcx(&self) -> (r: usize)
        requires
            self.arch_of() == Architecture::X86_64,
        ensures
            r == self.values()[1],
    {
        proof {
            use_type_invariant(self);
        }
        self.list[1]
    }

    /// The `rdx` register of a 64-bit x86 snapshot.
    pub fn rdx(&self) -> (r: usize)
        requires
            self.arch_of() == Architecture::X86_64,
        ensures
            r == self.values()[2],
    {
        proof {
            use_type_invariant(self);
        }
        self.list[2]
    }

    /// The `rbx` register of a 64-bit x86 snapshot.
    pub fn rbx(&self) -> (r: usize)
        requires
            self.arch_of() == Architecture::X86_64,
        ensures
            r == self.values()[3],
    {
        proof {
            use_type_invariant(self);
        }
        self.list[3]
    }

    /// The `rsp` register of a 64-bit x86 snapshot.
    pub fn rsp(&self) -> (r: usize)
        requires
            self.arch_of() == Architecture::X86_64,
        ensures
            r == self.values()[4],
    {
        proof {
            use_type_invariant(self);
        }
        self.list[4]
    }

    /// The `rbp` register of a 64-bit x86 snapshot.
    pub fn rbp(&self) -> (r: usize)
        requires
            self.arch_of() == Architecture::X86_64,
        ensures
            r == self.values()[5],
    {
        proof {
            use_type_invariant(self);
        }
        self.list[5]
    }

    /// The `rsi` register of a 64-bit x86 snapshot.
    pub fn rsi(&self) -> (r: usize)
        requires
            self.arch_of() == Architecture::X86_64,
        ensures
            r == self.values()[6],
    {
        proof {
            use_type_invariant(self);
        }
        self.list[6]
    }

    /// The `rdi` register of a 64-bit x86 snapshot.
    pub fn rdi(&self) -> (r: usize)
        requires
            self.arch_of() == Architecture::X86_64,
        ensures
            r == self.values()[7],
    {
        proof {
            use_type_invariant(self);
        }
        self.list[7]
    }

    /// The `r8` register of a 64-bit x86 snapshot.
    pub fn r8(&self) -> (r: usize)
        requires
            self.arch_of() == Architecture::X86_64,
        ensures
            r == self.values()[8],
    {
        proof {
            use_type_invariant(self);
        }
        self.list[8]
    }

    /// The `r9` register of a 64-bit x86 snapshot.
    pub fn r9(&self) -> (r: usize)
        requires
            self.arch_of() == Architecture::X86_64,
        ensures
            r == self.values()[9],
    {
        proof {
            use_type_invariant(self);
        }
        self.list[9]
    }

    /// The `r10` register of a 64-bit x86 snapshot.
    pub fn r10(&self) -> (r: usize)
        requires
            self.arch_of() == Architecture::X86_64,
        ensures
            r == self.values()[10],
    {
        proof {
            use_type_invariant(self);
        }
        self.list[10]
    }

    /// The `r11` register of a 64-bit x86 snapshot.
    pub fn r11(&self) -> (r: usize)
        requires
            self.arch_of() == Architecture::X86_64,
        ensures
            r == self.values()[11],
    {
        proof {
            use_type_invariant(self);
        }
        self.list[11]
    }

    /// The `r12` register of a 64-bit x86 snapshot.
    pub fn r12(&self) -> (r: usize)
        requires
            self.arch_of() == Architecture::X86_64,
        ensures
            r == self.values()[12],
    {
        proof {
            use_type_invariant(self);
        }
        self.list[12]
    }

    /// The `r13` register of a 64-bit x86 snapshot.
    pub fn r13(&self) -> (r: usize)
        requires
            self.arch_of() == Architecture::X86_64,
        ensures
            r == self.values()[13],
    {
        proof {
            use_type_invariant(self);
        }
        self.list[13]
    }

    /// The `r14` register of a 64-bit x86 snapshot.
    pub fn r14(&self) -> (r: usize)
        requires
            self.arch_of() == Architecture::X86_64,
        ensures
            r == self.values()[14],
    {
        proof {
            use_type_invariant(self);
        }
        self.list[14]
    }

    /// The `r15` register of a 64-bit x86 snapshot.
    pub fn r15(&self) -> (r: usize)
        requires
            self.arch_of() == Architecture::X86_64,
        ensures
            r == self.values()[15],
    {
        proof {
            use_type_invariant(self);
        }
        self.list[15]
    }

    /// The `rip` register of a 64-bit x86 snapshot.
    pub fn rip(&self) -> (r: usize)
        requires
            self.arch_of() == Architecture::X86_64,
        ensures
            r == self.values()[16],
    {
        proof {
            use_type_invariant(self);
        }
        self.list[16]
    }

    /// The `x0` register of a 64-bit ARM snapshot.
    pub fn x0(&self) -> (r: usize)
        requires
            self.arch_of() == Architecture::Aarch64,
        ensures
            r == self.values()[0],
    {
        proof {
            use_type_invariant(self);
        }
        self.list[0]
    }

    /// The `x1` register of a 64-bit ARM snapshot.
    pub fn x1(&self) -> (r: usize)
        requires
            self.arch_of() == Architecture::Aarch64,
        ensures
            r == self.values()[1],
    {
        proof {
            use_type_invariant(self);
        }
        self.list[1]
    }

    /// The `x2` register of a 64-bit ARM snapshot.
    pub fn x2(&self) -> (r: usize)
        requires
            self.arch_of() == Architecture::Aarch64,
        ensures
            r == self.values()[2],
    {
        proof {
            use_type_invariant(self);
        }
        self.list[2]
    }

    /// The `x3` register of a 64-bit ARM snapshot.
    pub fn x3(&self) -> (r: usize)
        requires
            self.arch_of() == Architecture::Aarch64,
        ensures
            r == self.values()[3],
    {
        proof {
            use_type_invariant(self);
        }
        self.list[3]
    }

    /// The `x4` register of a 64-bit ARM snapshot.
    pub fn x4(&self) -> (r: usize)
        requires
            self.arch_of() == Architecture::Aarch64,
        ensures
            r == self.values()[4],
    {
        proof {
            use_type_invariant(self);
        }
        self.list[4]
    }

    /// The `x5` register of a 64-bit ARM snapshot.
    pub fn x5(&self) -> (r: usize)
        requires
            self.arch_of() == Architecture::Aarch64,
        ensures
            r == self.values()[5],
    {
        proof {
            use_type_invariant(self);
        }
        self.list[5]
    }

    /// The `x6` register of a 64-bit ARM snapshot.
    pub fn x6(&self) -> (r: usize)
        requires
            self.arch_of() == Architecture::Aarch64,
        ensures
            r == self.values()[6],
    {
        proof {
            use_type_invariant(self);
        }
        self.list[6]
    }

    /// The `x7` register of a 64-bit ARM snapshot.
    pub fn x7(&self) -> (r: usize)
        requires
            self.arch_of() == Architecture::Aarch64,
        ensures
            r == self.values()[7],
    {
        proof {
            use_type_invariant(self);
        }
        self.list[7]
    }

    /// The `x8` register of a 64-bit ARM snapshot.
    pub fn x8(&self) -> (r: usize)
        requires
            self.arch_of() == Architecture::Aarch64,
        ensures
            r == self.values()[8],
    {
        proof {
            use_type_invariant(self);
        }
        self.list[8]
    }

    /// The `x9` register of a 64-bit ARM snapshot.
    pub fn x9(&self) -> (r: usize)
        requires
            self.arch_of() == Architecture::Aarch64,
        ensures
            r == self.values()[9],
    {
        proof {
            use_type_invariant(self);
        }
        self.list[9]
    }

    /// The `x10` register of a 64-bit ARM snapshot.
    pub fn x10(&self) -> (r: usize)
        requires
            self.arch_of() == Architecture::Aarch64,
        ensures
            r == self.values()[10],
    {
        proof {
            use_type_invariant(self);
        }
        self.list[10]
    }

    /// The `x11` register of a 64-bit ARM snapshot.
    pub fn x11(&self) -> (r: usize)
        requires
            self.arch_of() == Architecture::Aarch64,
        ensures
            r == self.values()[11],
    {
        proof {
            use_type_invariant(self);
        }
        self.list[11]
    }

    /// The `x12` register of a 64-bit ARM snapshot.
    pub fn x12(&self) -> (r: usize)
        requires
            self.arch_of() == Architecture::Aarch64,
        ensures
            r == self.values()[12],
    {
        proof {
            use_type_invariant(self);
        }
        self.list[12]
    }

    /// The `x13` register of a 64-bit ARM snapshot.
    pub fn x13(&self) -> (r: usize)
        requires
            self.arch_of() == Architecture::Aarch64,
        ensures
            r == self.values()[13],
    {
        proof {
            use_type_invariant(self);
        }
        self.list[13]
    }

    /// The `x14` register of a 64-bit ARM snapshot.
    pub fn x14(&self) -> (r: usize)
        requires
            self.arch_of() == Architecture::Aarch64,
        ensures
            r == self.values()[14],
    {
        proof {
            use_type_invariant(self);
        }
        self.list[14]
    }

    /// The `x15` register of a 64-bit ARM snapshot.
    pub fn x15(&self) -> (r: usize)
        requires
            self.arch_of() == Architecture::Aarch64,
        ensures
            r == self.values()[15],
    {
        proof {
            use_type_invariant(self);
        }
        self.list[15]
    }

    /// The `x16` register of a 64-bit ARM snapshot.
    pub fn x16(&self) -> (r: usize)
        requires
            self.arch_of() == Architecture::Aarch64,
        ensures
            r == self.values()[16],
    {
        proof {
            use_type_invariant(self);
        }
        self.list[16]
    }

    /// The `x17` register of a 64-bit ARM snapshot.
    pub fn x17(&self) -> (r: usize)
        requires
            self.arch_of() == Architecture::Aarch64,
        ensures
            r == self.values()[17],
    {
        proof {
            use_type_invariant(self);
        }
        self.list[17]
    }

    /// The `x18` register of a 64-bit ARM snapshot.
    pub fn x18(&self) -> (r: usize)
        requires
            self.arch_of() == Architecture::Aarch64,
        ensures
            r == self.values()[18],
    {
        proof {
            use_type_invariant(self);
        }
        self.list[18]
    }

    /// The `x19` register of a 64-bit ARM snapshot.
    pub fn x19(&self) -> (r: usize)
        requires
            self.arch_of() == Architecture::Aarch64,
        ensures
            r == self.values()[19],
    {
        proof {
            use_type_invariant(self);
        }
        self.list[19]
    }

    /// The `x20` register of a 64-bit ARM snapshot.
    pub fn x20(&self) -> (r: usize)
        requires
            self.arch_of() == Architecture::Aarch64,
        ensures
            r == self.values()[20],
    {
        proof {
            use_type_invariant(self);
        }
        self.list[20]
    }

    /// The `x21` register of a 64-bit ARM snapshot.
    pub fn x21(&self) -> (r: usize)
        requires
            self.arch_of() == Architecture::Aarch64,
        ensures
            r == self.values()[21],
    {
        proof {
            use_type_invariant(self);
        }
        self.list[21]
    }

    /// The `x22` register of a 64-bit ARM snapshot.
    pub fn x22(&self) -> (r: usize)
        requires
            self.arch_of() == Architecture::Aarch64,
        ensures
            r == self.values()[22],
    {
        proof {
            use_type_invariant(self);
        }
        self.list[22]
    }

    /// The `x23` register of a 64-bit ARM snapshot.
    pub fn x23(&self) -> (r: usize)
        requires
            self.arch_of() == Architecture::Aarch64,
        ensures
            r == self.values()[23],
    {
        proof {
            use_type_invariant(self);
        }
        self.list[23]
    }

    /// The `x24` register of a 64-bit ARM snapshot.
    pub fn x24(&self) -> (r: usize)
        requires
            self.arch_of() == Architecture::Aarch64,
        ensures
            r == self.values()[24],
    {
        proof {
            use_type_invariant(self);
        }
        self.list[24]
    }

    /// The `x25` register of a 64-bit ARM snapshot.
    pub fn x25(&self) -> (r: usize)
        requires
            self.arch_of() == Architecture::Aarch64,
        ensures
            r == self.values()[25],
    {
        proof {
            use_type_invariant(self);
        }
        self.list[25]
    }

    /// The `x26` register of a 64-bit ARM snapshot.
    pub fn x26(&self) -> (r: usize)
        requires
            self.arch_of() == Architecture::Aarch64,
        ensures
            r == self.values()[26],
    {
        proof {
            use_type_invariant(self);
        }
        self.list[26]
    }

    /// The `x27` register of a 64-bit ARM snapshot.
    pub fn x27(&self) -> (r: usize)
        requires
            self.arch_of() == Architecture::Aarch64,
        ensures
            r == self.values()[27],
    {
        proof {
            use_type_invariant(self);
        }
        self.list[27]
    }

    /// The `x28` register of a 64-bit ARM snapshot.
    pub fn x28(&self) -> (r: usize)
        requires
            self.arch_of() == Architecture::Aarch64,
        ensures
            r == self.values()[28],
    {
        proof {
            use_type_invariant(self);
        }
        self.list[28]
    }

    /// The `fp` register of a 64-bit ARM snapshot.
    pub fn fp(&self) -> (r: usize)
        requires
            self.arch_of() == Architecture::Aarch64,
        ensures
            r == self.values()[29],
    {
        proof {
            use_type_invariant(self);
        }
        self.list[29]
    }

    /// The `lr` register of a 64-bit ARM snapshot.
    pub fn lr(&self) -> (r: usize)
        requires
            self.arch_of() == Architecture::Aarch64,
        ensures
            r == self.values()[30],
    {
        proof {
            use_type_invariant(self);
        }
        self.list[30]
    }

    /// The `sp` register of a 64-bit ARM snapshot.
    pub fn sp(&self) -> (r: usize)
        requires
            self.arch_of() == Architecture::Aarch64,
        ensures
            r == self.values()[31],
    {
        proof {
            use_type_invariant(self);
        }
        self.list[31]
    }

    /// The `pc` register of a 64-bit ARM snapshot.
    pub fn pc(&self) -> (r: usize)
        requires
            self.arch_of() == Architecture::Aarch64,
        ensures
            r == self.values()[32],
    {
        proof {
            use_type_invariant(self);
        }
        self.list[32]
    }

}

} // verus!
