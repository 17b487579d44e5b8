//! The hardware modes an engine can be opened in.

use libc::c_int;
use vstd::prelude::*;
use vstd::std_specs::ops::BitOrSpecImpl;

verus! {

/// Every bit that some flag of [`Mode`] defines.
pub const MODE_ALL: c_int = 0x4000_007f;

/// A set of hardware-mode flags: byte order, bit width, sub-variant. Which
/// sets are valid depends on the architecture, and only the engine decides
/// that, when it opens. Several flags of different architectures share a bit.
#[derive(Copy, Clone, Eq, PartialEq, Structural, Ord, PartialOrd, Hash, Debug)]
pub struct Mode {
    bits: c_int,
}

impl View for Mode {
    type V = c_int;

    /// The bit pattern that is handed to the engine.
    closed spec fn view(&self) -> c_int {
        self.bits
    }
}

impl Mode {
    /// A set holds defined bits only.
    #[verifier::type_invariant]
    spec fn defined(&self) -> bool {
        self.bits & !MODE_ALL == 0
    }

    /// Little-endian byte order: the empty set, and so the default.
    pub fn little_endian() -> (flags: Mode)
        ensures
            flags@ == 0,
    {
        assert(0i32 & !MODE_ALL == 0) by (bit_vector);
        Mode { bits: 0 }
    }

    /// Big-endian byte order.
    pub fn big_endian() -> (flags: Mode)
        ensures
            flags@ == 0x4000_0000,
    {
        assert(0x4000_0000i32 & !MODE_ALL == 0) by (bit_vector);
        Mode { bits: 0x4000_0000 }
    }

    /// ARM and ARM64: ARM mode.
    pub fn arm() -> (flags: Mode)
        ensures
            flags@ == 1,
    {
        assert(1i32 & !MODE_ALL == 0) by (bit_vector);
        Mode { bits: 1 }
    }

    /// ARM and ARM64: Thumb mode, Thumb-2 included.
    pub fn thumb() -> (flags: Mode)
        ensures
            flags@ == 16,
    {
        assert(16i32 & !MODE_ALL == 0) by (bit_vector);
        Mode { bits: 16 }
    }

    /// ARM and ARM64: the ARMv8 A32 encodings.
    pub fn v8() -> (flags: Mode)
        ensures
            flags@ == 64,
    {
        assert(64i32 & !MODE_ALL == 0) by (bit_vector);
        Mode { bits: 64 }
    }

    /// MIPS: MicroMips mode.
    pub fn micro() -> (flags: Mode)
        ensures
            flags@ == 16,
    {
        assert(16i32 & !MODE_ALL == 0) by (bit_vector);
        Mode { bits: 16 }
    }

    /// MIPS: the Mips III instruction set.
    pub fn mips3() -> (flags: Mode)
        ensures
            flags@ == 32,
    {
        assert(32i32 & !MODE_ALL == 0) by (bit_vector);
        Mode { bits: 32 }
    }

    /// MIPS: the Mips32r6 instruction set.
    pub fn mips32r6() -> (flags: Mode)
        ensures
            flags@ == 64,
    {
        assert(64i32 & !MODE_ALL == 0) by (bit_vector);
        Mode { bits: 64 }
    }

    /// MIPS: the Mips32 instruction set.
    pub fn mips32() -> (flags: Mode)
        ensures
            flags@ == 4,
    {
        assert(4i32 & !MODE_ALL == 0) by (bit_vector);
        Mode { bits: 4 }
    }

    /// MIPS: the Mips64 instruction set.
    pub fn mips64() -> (flags: Mode)
        ensures
            flags@ == 8,
    {
        assert(8i32 & !MODE_ALL == 0) by (bit_vector);
        Mode { bits: 8 }
    }

    /// X86: 16-bit mode.
    pub fn mode_16() -> (flags: Mode)
        ensures
            flags@ == 2,
    {
        assert(2i32 & !MODE_ALL == 0) by (bit_vector);
        Mode { bits: 2 }
    }

    /// X86: 32-bit mode.
    pub fn mode_32() -> (flags: Mode)
        ensures
            flags@ == 4,
    {
        assert(4i32 & !MODE_ALL == 0) by (bit_vector);
        Mode { bits: 4 }
    }

    /// X86: 64-bit mode.
    pub fn mode_64() -> (flags: Mode)
        ensures
            flags@ == 8,
    {
        assert(8i32 & !MODE_ALL == 0) by (bit_vector);
        Mode { bits: 8 }
    }

    /// PowerPC: 32-bit mode.
    pub fn ppc32() -> (flags: Mode)
        ensures
            flags@ == 4,
    {
        assert(4i32 & !MODE_ALL == 0) by (bit_vector);
        Mode { bits: 4 }
    }

    /// PowerPC: 64-bit mode.
    pub fn ppc64() -> (flags: Mode)
        ensures
            flags@ == 8,
    {
        assert(8i32 & !MODE_ALL == 0) by (bit_vector);
        Mode { bits: 8 }
    }

    /// PowerPC: Quad Processing eXtensions mode.
    pub fn qpx() -> (flags: Mode)
        ensures
            flags@ == 16,
    {
        assert(16i32 & !MODE_ALL == 0) by (bit_vector);
        Mode { bits: 16 }
    }

    /// SPARC: 32-bit mode.
    pub fn sparc32() -> (flags: Mode)
        ensures
            flags@ == 4,
    {
        assert(4i32 & !MODE_ALL == 0) by (bit_vector);
        Mode { bits: 4 }
    }

    /// SPARC: 64-bit mode.
    pub fn sparc64() -> (flags: Mode)
        ensures
            flags@ == 8,
    {
        assert(8i32 & !MODE_ALL == 0) by (bit_vector);
        Mode { bits: 8 }
    }

    /// SPARC: SparcV9 mode.
    pub fn v9() -> (flags: Mode)
        ensures
            flags@ == 16,
    {
        assert(16i32 & !MODE_ALL == 0) by (bit_vector);
        Mode { bits: 16 }
    }

    /// The set with the bit pattern `bits`; `None` where `bits` has a bit that
    /// no flag defines.
    pub fn from_bits(bits: c_int) -> (flags: Option<Mode>)
        ensures
            bits & !MODE_ALL == 0 ==> flags is Some && flags->0@ == bits,
            bits & !MODE_ALL != 0 ==> flags is None,
    {
        if bits & !MODE_ALL == 0 {
            Some(Mode { bits })
        } else {
            None
        }
    }

    /// The bit pattern of the set, as the engine reads it. No bit is set
    /// that no flag defines.
    pub fn bits(&self) -> (bits: c_int)
        ensures
            bits == self@,
            bits & !MODE_ALL == 0,
    {
        proof {
            use_type_invariant(self);
        }
        self.bits
    }

    /// The set that holds the flags of `self` and those of `other`.
    pub closed spec fn spec_union(self, other: Mode) -> Mode {
        Mode { bits: self.bits | other.bits }
    }

    /// The set that holds the flags of `self` and those of `other`. `|` does
    /// the same.
    #[verifier::when_used_as_spec(spec_union)]
    pub fn union(self, other: Mode) -> (both: Mode)
        ensures
            both == self.spec_union(other),
            both@ == self@ | other@,
    {
        proof {
            use_type_invariant(&self);
            use_type_invariant(&other);
            let a = self.bits;
            let b = other.bits;
            assert((a | b) & !MODE_ALL == 0) by (bit_vector)
                requires
                    a & !MODE_ALL == 0,
                    b & !MODE_ALL == 0,
            ;
        }
        Mode { bits: self.bits | other.bits }
    }

    /// The bits of a union are those of its two sides.
    pub proof fn lemma_union_bits(self, other: Mode)
        ensures
            self.spec_union(other)@ == self@ | other@,
    {
    }
}

impl core::ops::BitOr for Mode {
    type Output = Mode;

    fn bitor(self, rhs: Mode) -> (both: Mode) {
        self.union(rhs)
    }
}

impl BitOrSpecImpl for Mode {
    open spec fn obeys_bitor_spec() -> bool {
        true
    }

    open spec fn bitor_req(self, rhs: Mode) -> bool {
        true
    }

    open spec fn bitor_spec(self, rhs: Mode) -> Mode {
        self.spec_union(rhs)
    }
}

} // verus!
