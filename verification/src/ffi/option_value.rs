//! The values an option of an engine can be set to.

use libc::size_t;
use vstd::prelude::*;
use vstd::std_specs::ops::BitOrSpecImpl;

verus! {

/// Every bit that some flag of [`OptionValue`] defines.
pub const OPTION_VALUE_ALL: size_t = 63;

/// A set of option-value flags, to go with an [`OptionType`](super::OptionType).
/// Which sets an option accepts only the engine decides, when the option is
/// set.
#[derive(Copy, Clone, Eq, PartialEq, Structural, Ord, PartialOrd, Hash, Debug)]
pub struct OptionValue {
    bits: size_t,
}

impl View for OptionValue {
    type V = size_t;

    /// The bit pattern that is handed to the engine.
    closed spec fn view(&self) -> size_t {
        self.bits
    }
}

impl OptionValue {
    /// A set holds defined bits only.
    #[verifier::type_invariant]
    spec fn defined(&self) -> bool {
        self.bits & !OPTION_VALUE_ALL == 0
    }

    /// X86: Intel syntax, the default.
    pub fn syntax_intel() -> (flags: OptionValue)
        ensures
            flags@ == 1,
    {
        assert(1usize & !OPTION_VALUE_ALL == 0) by (bit_vector);
        OptionValue { bits: 1 }
    }

    /// X86: AT&T syntax.
    pub fn syntax_att() -> (flags: OptionValue)
        ensures
            flags@ == 2,
    {
        assert(2usize & !OPTION_VALUE_ALL == 0) by (bit_vector);
        OptionValue { bits: 2 }
    }

    /// X86: Nasm syntax.
    pub fn syntax_nasm() -> (flags: OptionValue)
        ensures
            flags@ == 4,
    {
        assert(4usize & !OPTION_VALUE_ALL == 0) by (bit_vector);
        OptionValue { bits: 4 }
    }

    /// X86: Masm syntax.
    pub fn syntax_masm() -> (flags: OptionValue)
        ensures
            flags@ == 8,
    {
        assert(8usize & !OPTION_VALUE_ALL == 0) by (bit_vector);
        OptionValue { bits: 8 }
    }

    /// X86: GNU GAS syntax.
    pub fn syntax_gas() -> (flags: OptionValue)
        ensures
            flags@ == 16,
    {
        assert(16usize & !OPTION_VALUE_ALL == 0) by (bit_vector);
        OptionValue { bits: 16 }
    }

    /// Every immediate is read as hexadecimal.
    pub fn syntax_radix16() -> (flags: OptionValue)
        ensures
            flags@ == 32,
    {
        assert(32usize & !OPTION_VALUE_ALL == 0) by (bit_vector);
        OptionValue { bits: 32 }
    }

    /// The set with the bit pattern `bits`; `None` where `bits` has a bit that
    /// no flag defines.
    pub fn from_bits(bits: size_t) -> (flags: Option<OptionValue>)
        ensures
            bits & !OPTION_VALUE_ALL == 0 ==> flags is Some && flags->0@ == bits,
            bits & !OPTION_VALUE_ALL != 0 ==> flags is None,
    {
        if bits & !OPTION_VALUE_ALL == 0 {
            Some(OptionValue { bits })
        } else {
            None
        }
    }

    /// The bit pattern of the set, as the engine reads it. No bit is set
    /// that no flag defines.
    pub fn bits(&self) -> (bits: size_t)
        ensures
            bits == self@,
            bits & !OPTION_VALUE_ALL == 0,
    {
        proof {
            use_type_invariant(self);
        }
        self.bits
    }

    /// The set that holds the flags of `self` and those of `other`.
    pub closed spec fn spec_union(self, other: OptionValue) -> OptionValue {
        OptionValue { bits: self.bits | other.bits }
    }

    /// The set that holds the flags of `self` and those of `other`. `|` does
    /// the same.
    #[verifier::when_used_as_spec(spec_union)]
    pub fn union(self, other: OptionValue) -> (both: OptionValue)
        ensures
            both == self.spec_union(other),
            both@ == self@ | other@,
    {
        proof {
            use_type_invariant(&self);
            use_type_invariant(&other);
            let a = self.bits;
            let b = other.bits;
            assert((a | b) & !OPTION_VALUE_ALL == 0) by (bit_vector)
                requires
                    a & !OPTION_VALUE_ALL == 0,
                    b & !OPTION_VALUE_ALL == 0,
            ;
        }
        OptionValue { bits: self.bits | other.bits }
    }

    /// The bits of a union are those of its two sides.
    pub proof fn lemma_union_bits(self, other: OptionValue)
        ensures
            self.spec_union(other)@ == self@ | other@,
    {
    }
}

impl core::ops::BitOr for OptionValue {
    type Output = OptionValue;

    fn bitor(self, rhs: OptionValue) -> (both: OptionValue) {
        self.union(rhs)
    }
}

impl BitOrSpecImpl for OptionValue {
    open spec fn obeys_bitor_spec() -> bool {
        true
    }

    open spec fn bitor_req(self, rhs: OptionValue) -> bool {
        true
    }

    open spec fn bitor_spec(self, rhs: OptionValue) -> OptionValue {
        self.spec_union(rhs)
    }
}

} // verus!
