//! The architectures an engine can be opened for.

use vstd::prelude::*;

verus! {

/// Target instruction set, chosen once when an engine is opened.
#[allow(non_camel_case_types)]
#[derive(Copy, Clone, Eq, PartialEq, Structural, Ord, PartialOrd, Hash, Debug)]
pub enum Arch {
    /// ARM, Thumb and Thumb-2 included.
    ARM,
    /// AArch64.
    ARM64,
    /// MIPS.
    MIPS,
    /// x86 and x86-64.
    X86,
    /// PowerPC.
    PPC,
    /// SPARC.
    SPARC,
    /// SystemZ (S390X).
    SYSTEMZ,
    /// Hexagon.
    HEXAGON,
    /// Ethereum Virtual Machine.
    EVM,
    /// One past the last architecture; names no target.
    MAX,
}

impl Arch {
    /// The number under which the engine knows this architecture.
    pub open spec fn spec_code(self) -> u32 {
        match self {
            Arch::ARM => 1,
            Arch::ARM64 => 2,
            Arch::MIPS => 3,
            Arch::X86 => 4,
            Arch::PPC => 5,
            Arch::SPARC => 6,
            Arch::SYSTEMZ => 7,
            Arch::HEXAGON => 8,
            Arch::EVM => 9,
            Arch::MAX => 10,
        }
    }

    /// The number to hand to the engine for this architecture.
    #[verifier::when_used_as_spec(spec_code)]
    pub fn code(self) -> (code: u32)
        ensures
            code == self.spec_code(),
    {
        match self {
            Arch::ARM => 1,
            Arch::ARM64 => 2,
            Arch::MIPS => 3,
            Arch::X86 => 4,
            Arch::PPC => 5,
            Arch::SPARC => 6,
            Arch::SYSTEMZ => 7,
            Arch::HEXAGON => 8,
            Arch::EVM => 9,
            Arch::MAX => 10,
        }
    }
}

} // verus!
