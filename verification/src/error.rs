//! What an operation on an engine fails with.

use crate::ffi::Error;
use vstd::prelude::*;
use vstd::std_specs::convert::FromSpecImpl;

verus! {

/// A failure that the engine did not name.
#[derive(Copy, Clone, Eq, PartialEq, Structural, Ord, PartialOrd, Hash, Debug)]
pub enum MiscError {
    /// The engine reported that assembling failed, and then reported `OK`
    /// when it was asked which error it had recorded.
    KsAsm,
}

/// The failure of an operation: either a code of the engine, handed on as
/// the engine gave it, or a failure that only this library knows. The two
/// families are kept apart.
#[derive(Copy, Clone, Eq, PartialEq, Structural, Ord, PartialOrd, Hash, Debug)]
pub enum KeystoneError {
    /// A code of the engine.
    Engine(Error),
    /// A failure that the engine did not name.
    Misc(MiscError),
}

impl MiscError {
    /// The fixed text of this failure.
    pub open spec fn spec_message(self) -> Seq<char> {
        match self {
            MiscError::KsAsm => "an error occured while calling ks_asm"@,
        }
    }

    /// The fixed text of this failure.
    pub fn message(&self) -> (text: String)
        ensures
            text@ == self.spec_message(),
    {
        match self {
            MiscError::KsAsm => String::from_str("an error occured while calling ks_asm"),
        }
    }
}

impl KeystoneError {
    /// The text of this failure, where `strerror` is the text that the engine
    /// has for the code of an `Engine` failure.
    pub open spec fn spec_message(self, strerror: Seq<char>) -> Seq<char> {
        match self {
            KeystoneError::Engine(_) => "[Engine error] "@ + strerror,
            KeystoneError::Misc(e) => "[Misc error] "@ + e.spec_message(),
        }
    }

    /// The text of this failure. For an `Engine` failure it is the engine's
    /// own text for the code, which only the engine can look up: the caller
    /// passes it as `strerror`. For a `Misc` failure the text is fixed and
    /// `strerror` is not read.
    pub fn message(&self, strerror: &str) -> (text: String)
        ensures
            text@ == self.spec_message(strerror@),
    {
        match self {
            KeystoneError::Engine(_) => String::from_str("[Engine error] ").concat(strerror),
            KeystoneError::Misc(e) => {
                let fixed = e.message();
                String::from_str("[Misc error] ").concat(fixed.as_str())
            },
        }
    }
}

impl From<Error> for KeystoneError {
    fn from(error: Error) -> (e: KeystoneError) {
        KeystoneError::Engine(error)
    }
}

impl FromSpecImpl<Error> for KeystoneError {
    open spec fn obeys_from_spec() -> bool {
        true
    }

    open spec fn from_spec(error: Error) -> KeystoneError {
        KeystoneError::Engine(error)
    }
}

impl From<MiscError> for KeystoneError {
    fn from(error: MiscError) -> (e: KeystoneError) {
        KeystoneError::Misc(error)
    }
}

impl FromSpecImpl<MiscError> for KeystoneError {
    open spec fn obeys_from_spec() -> bool {
        true
    }

    open spec fn from_spec(error: MiscError) -> KeystoneError {
        KeystoneError::Misc(error)
    }
}

} // verus!
