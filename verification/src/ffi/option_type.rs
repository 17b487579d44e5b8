//! The options of an engine that can be set after it was opened.

use vstd::prelude::*;

verus! {

/// An option of an engine.
#[allow(non_camel_case_types)]
#[derive(Copy, Clone, Eq, PartialEq, Structural, Ord, PartialOrd, Hash, Debug)]
pub enum OptionType {
    /// The syntax in which the input is read.
    SYNTAX,
    /// The callback that resolves symbols.
    SYM_RESOLVER,
}

impl OptionType {
    /// The number under which the engine knows this option.
    pub open spec fn spec_code(self) -> u32 {
        match self {
            OptionType::SYNTAX => 1,
            OptionType::SYM_RESOLVER => 2,
        }
    }

    /// The number to hand to the engine for this option.
    #[verifier::when_used_as_spec(spec_code)]
    pub fn code(self) -> (code: u32)
        ensures
            code == self.spec_code(),
    {
        match self {
            OptionType::SYNTAX => 1,
            OptionType::SYM_RESOLVER => 2,
        }
    }
}

} // verus!
