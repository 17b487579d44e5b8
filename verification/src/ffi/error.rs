//! The error codes of the engine.

use vstd::prelude::*;

verus! {

/// An error code of the engine. `OK` is the code for "no error"; every other
/// one names a failure.
#[allow(non_camel_case_types)]
#[derive(Copy, Clone, Eq, PartialEq, Structural, Ord, PartialOrd, Hash, Debug)]
pub enum Error {
    /// No error.
    OK,
    /// The engine ran out of memory.
    NOMEM,
    /// The architecture is not supported.
    ARCH,
    /// The handle is not valid.
    HANDLE,
    /// The mode is not valid for the architecture.
    MODE,
    /// The engine's interface version is not the one expected.
    VERSION,
    /// The option is not supported.
    OPT_INVALID,
    /// An expression holds an unknown token.
    ASM_EXPR_TOKEN,
    /// A literal is out of range for its directive.
    ASM_DIRECTIVE_VALUE_RANGE,
    /// A directive lacks the identifier it expects.
    ASM_DIRECTIVE_ID,
    /// A directive holds an unexpected token.
    ASM_DIRECTIVE_TOKEN,
    /// A directive lacks the string it expects.
    ASM_DIRECTIVE_STR,
    /// A directive lacks the comma it expects.
    ASM_DIRECTIVE_COMMA,
    /// A directive lacks the relocation name it expects.
    ASM_DIRECTIVE_RELOC_NAME,
    /// A `.reloc` directive holds an unexpected token.
    ASM_DIRECTIVE_RELOC_TOKEN,
    /// A directive holds an invalid floating-point value.
    ASM_DIRECTIVE_FPOINT,
    /// The directive is not known.
    ASM_DIRECTIVE_UNKNOWN,
    /// An equal directive is not valid.
    ASM_DIRECTIVE_EQU,
    /// A directive is not valid, for a reason not listed apart.
    ASM_DIRECTIVE_INVALID,
    /// A variant is not valid.
    ASM_VARIANT_INVALID,
    /// The target does not support bracket expressions.
    ASM_EXPR_BRACKET,
    /// An unexpected symbol modifier follows `@`.
    ASM_SYMBOL_MODIFIER,
    /// A symbol is defined a second time.
    ASM_SYMBOL_REDEFINED,
    /// A symbol cannot be found.
    ASM_SYMBOL_MISSING,
    /// A parenthesised expression lacks its `)`.
    ASM_RPAREN,
    /// A statement starts with an unexpected token.
    ASM_STAT_TOKEN,
    /// The token is not supported yet.
    ASM_UNSUPPORTED,
    /// A macro instantiation holds an unexpected token.
    ASM_MACRO_TOKEN,
    /// A macro argument has unbalanced parentheses.
    ASM_MACRO_PAREN,
    /// A formal parameter identifier lacks the `=` after it.
    ASM_MACRO_EQU,
    /// A macro is given too many positional arguments.
    ASM_MACRO_ARGS,
    /// Macros are nested more than 20 levels deep.
    ASM_MACRO_LEVELS_EXCEED,
    /// A macro string is not valid.
    ASM_MACRO_STR,
    /// A macro is not valid, for a reason not listed apart.
    ASM_MACRO_INVALID,
    /// An escaped string ends in a backslash.
    ASM_ESC_BACKSLASH,
    /// An octal escape sequence is out of range.
    ASM_ESC_OCTAL,
    /// An escape sequence names an unknown character.
    ASM_ESC_SEQUENCE,
    /// An escaped string is broken.
    ASM_ESC_STR,
    /// A token is not valid.
    ASM_TOKEN_INVALID,
    /// The instruction is not supported in this mode.
    ASM_INSN_UNSUPPORTED,
    /// A fixup is not valid.
    ASM_FIXUP_INVALID,
    /// A label is not valid.
    ASM_LABEL_INVALID,
    /// A fragment is not valid.
    ASM_FRAGMENT_INVALID,
    /// An operand is not valid for the architecture.
    ASM_INVALIDOPERAND,
    /// The architecture lacks a feature the input needs.
    ASM_MISSINGFEATURE,
    /// The mnemonic is not known to the architecture.
    ASM_MNEMONICFAIL,
}

impl Error {
    /// The number under which the engine knows this code.
    pub open spec fn spec_code(self) -> u32 {
        match self {
            Error::OK => 0,
            Error::NOMEM => 1,
            Error::ARCH => 2,
            Error::HANDLE => 3,
            Error::MODE => 4,
            Error::VERSION => 5,
            Error::OPT_INVALID => 6,
            Error::ASM_EXPR_TOKEN => 128,
            Error::ASM_DIRECTIVE_VALUE_RANGE => 129,
            Error::ASM_DIRECTIVE_ID => 130,
            Error::ASM_DIRECTIVE_TOKEN => 131,
            Error::ASM_DIRECTIVE_STR => 132,
            Error::ASM_DIRECTIVE_COMMA => 133,
            Error::ASM_DIRECTIVE_RELOC_NAME => 134,
            Error::ASM_DIRECTIVE_RELOC_TOKEN => 135,
            Error::ASM_DIRECTIVE_FPOINT => 136,
            Error::ASM_DIRECTIVE_UNKNOWN => 137,
            Error::ASM_DIRECTIVE_EQU => 138,
            Error::ASM_DIRECTIVE_INVALID => 139,
            Error::ASM_VARIANT_INVALID => 140,
            Error::ASM_EXPR_BRACKET => 141,
            Error::ASM_SYMBOL_MODIFIER => 142,
            Error::ASM_SYMBOL_REDEFINED => 143,
            Error::ASM_SYMBOL_MISSING => 144,
            Error::ASM_RPAREN => 145,
            Error::ASM_STAT_TOKEN => 146,
            Error::ASM_UNSUPPORTED => 147,
            Error::ASM_MACRO_TOKEN => 148,
            Error::ASM_MACRO_PAREN => 149,
            Error::ASM_MACRO_EQU => 150,
            Error::ASM_MACRO_ARGS => 151,
            Error::ASM_MACRO_LEVELS_EXCEED => 152,
            Error::ASM_MACRO_STR => 153,
            Error::ASM_MACRO_INVALID => 154,
            Error::ASM_ESC_BACKSLASH => 155,
            Error::ASM_ESC_OCTAL => 156,
            Error::ASM_ESC_SEQUENCE => 157,
            Error::ASM_ESC_STR => 158,
            Error::ASM_TOKEN_INVALID => 159,
            Error::ASM_INSN_UNSUPPORTED => 160,
            Error::ASM_FIXUP_INVALID => 161,
            Error::ASM_LABEL_INVALID => 162,
            Error::ASM_FRAGMENT_INVALID => 163,
            Error::ASM_INVALIDOPERAND => 512,
            Error::ASM_MISSINGFEATURE => 513,
            Error::ASM_MNEMONICFAIL => 514,
        }
    }

    /// The number under which the engine knows this code.
    #[verifier::when_used_as_spec(spec_code)]
    pub fn code(self) -> (code: u32)
        ensures
            code == self.spec_code(),
    {
        match self {
            Error::OK => 0,
            Error::NOMEM => 1,
            Error::ARCH => 2,
            Error::HANDLE => 3,
            Error::MODE => 4,
            Error::VERSION => 5,
            Error::OPT_INVALID => 6,
            Error::ASM_EXPR_TOKEN => 128,
            Error::ASM_DIRECTIVE_VALUE_RANGE => 129,
            Error::ASM_DIRECTIVE_ID => 130,
            Error::ASM_DIRECTIVE_TOKEN => 131,
            Error::ASM_DIRECTIVE_STR => 132,
            Error::ASM_DIRECTIVE_COMMA => 133,
            Error::ASM_DIRECTIVE_RELOC_NAME => 134,
            Error::ASM_DIRECTIVE_RELOC_TOKEN => 135,
            Error::ASM_DIRECTIVE_FPOINT => 136,
            Error::ASM_DIRECTIVE_UNKNOWN => 137,
            Error::ASM_DIRECTIVE_EQU => 138,
            Error::ASM_DIRECTIVE_INVALID => 139,
            Error::ASM_VARIANT_INVALID => 140,
            Error::ASM_EXPR_BRACKET => 141,
            Error::ASM_SYMBOL_MODIFIER => 142,
            Error::ASM_SYMBOL_REDEFINED => 143,
            Error::ASM_SYMBOL_MISSING => 144,
            Error::ASM_RPAREN => 145,
            Error::ASM_STAT_TOKEN => 146,
            Error::ASM_UNSUPPORTED => 147,
            Error::ASM_MACRO_TOKEN => 148,
            Error::ASM_MACRO_PAREN => 149,
            Error::ASM_MACRO_EQU => 150,
            Error::ASM_MACRO_ARGS => 151,
            Error::ASM_MACRO_LEVELS_EXCEED => 152,
            Error::ASM_MACRO_STR => 153,
            Error::ASM_MACRO_INVALID => 154,
            Error::ASM_ESC_BACKSLASH => 155,
            Error::ASM_ESC_OCTAL => 156,
            Error::ASM_ESC_SEQUENCE => 157,
            Error::ASM_ESC_STR => 158,
            Error::ASM_TOKEN_INVALID => 159,
            Error::ASM_INSN_UNSUPPORTED => 160,
            Error::ASM_FIXUP_INVALID => 161,
            Error::ASM_LABEL_INVALID => 162,
            Error::ASM_FRAGMENT_INVALID => 163,
            Error::ASM_INVALIDOPERAND => 512,
            Error::ASM_MISSINGFEATURE => 513,
            Error::ASM_MNEMONICFAIL => 514,
        }
    }

    /// The code that the engine knows under the number `code`, if there is
    /// one.
    pub open spec fn spec_from_code(code: u32) -> Option<Error> {
        match code {
            0 => Some(Error::OK),
            1 => Some(Error::NOMEM),
            2 => Some(Error::ARCH),
            3 => Some(Error::HANDLE),
            4 => Some(Error::MODE),
            5 => Some(Error::VERSION),
            6 => Some(Error::OPT_INVALID),
            128 => Some(Error::ASM_EXPR_TOKEN),
            129 => Some(Error::ASM_DIRECTIVE_VALUE_RANGE),
            130 => Some(Error::ASM_DIRECTIVE_ID),
            131 => Some(Error::ASM_DIRECTIVE_TOKEN),
            132 => Some(Error::ASM_DIRECTIVE_STR),
            133 => Some(Error::ASM_DIRECTIVE_COMMA),
            134 => Some(Error::ASM_DIRECTIVE_RELOC_NAME),
            135 => Some(Error::ASM_DIRECTIVE_RELOC_TOKEN),
            136 => Some(Error::ASM_DIRECTIVE_FPOINT),
            137 => Some(Error::ASM_DIRECTIVE_UNKNOWN),
            138 => Some(Error::ASM_DIRECTIVE_EQU),
            139 => Some(Error::ASM_DIRECTIVE_INVALID),
            140 => Some(Error::ASM_VARIANT_INVALID),
            141 => Some(Error::ASM_EXPR_BRACKET),
            142 => Some(Error::ASM_SYMBOL_MODIFIER),
            143 => Some(Error::ASM_SYMBOL_REDEFINED),
            144 => Some(Error::ASM_SYMBOL_MISSING),
            145 => Some(Error::ASM_RPAREN),
            146 => Some(Error::ASM_STAT_TOKEN),
            147 => Some(Error::ASM_UNSUPPORTED),
            148 => Some(Error::ASM_MACRO_TOKEN),
            149 => Some(Error::ASM_MACRO_PAREN),
            150 => Some(Error::ASM_MACRO_EQU),
            151 => Some(Error::ASM_MACRO_ARGS),
            152 => Some(Error::ASM_MACRO_LEVELS_EXCEED),
            153 => Some(Error::ASM_MACRO_STR),
            154 => Some(Error::ASM_MACRO_INVALID),
            155 => Some(Error::ASM_ESC_BACKSLASH),
            156 => Some(Error::ASM_ESC_OCTAL),
            157 => Some(Error::ASM_ESC_SEQUENCE),
            158 => Some(Error::ASM_ESC_STR),
            159 => Some(Error::ASM_TOKEN_INVALID),
            160 => Some(Error::ASM_INSN_UNSUPPORTED),
            161 => Some(Error::ASM_FIXUP_INVALID),
            162 => Some(Error::ASM_LABEL_INVALID),
            163 => Some(Error::ASM_FRAGMENT_INVALID),
            512 => Some(Error::ASM_INVALIDOPERAND),
            513 => Some(Error::ASM_MISSINGFEATURE),
            514 => Some(Error::ASM_MNEMONICFAIL),
            _ => None,
        }
    }

    /// The code that the engine knows under the number `code`; `None` for a
    /// number that names no code. It is the inverse of [`Error::code`], as
    /// [`Error::lemma_from_code_inverts_code`] states.
    #[verifier::when_used_as_spec(spec_from_code)]
    pub fn from_code(code: u32) -> (error: Option<Error>)
        ensures
            error == Self::spec_from_code(code),
    {
        match code {
            0 => Some(Error::OK),
            1 => Some(Error::NOMEM),
            2 => Some(Error::ARCH),
            3 => Some(Error::HANDLE),
            4 => Some(Error::MODE),
            5 => Some(Error::VERSION),
            6 => Some(Error::OPT_INVALID),
            128 => Some(Error::ASM_EXPR_TOKEN),
            129 => Some(Error::ASM_DIRECTIVE_VALUE_RANGE),
            130 => Some(Error::ASM_DIRECTIVE_ID),
            131 => Some(Error::ASM_DIRECTIVE_TOKEN),
            132 => Some(Error::ASM_DIRECTIVE_STR),
            133 => Some(Error::ASM_DIRECTIVE_COMMA),
            134 => Some(Error::ASM_DIRECTIVE_RELOC_NAME),
            135 => Some(Error::ASM_DIRECTIVE_RELOC_TOKEN),
            136 => Some(Error::ASM_DIRECTIVE_FPOINT),
            137 => Some(Error::ASM_DIRECTIVE_UNKNOWN),
            138 => Some(Error::ASM_DIRECTIVE_EQU),
            139 => Some(Error::ASM_DIRECTIVE_INVALID),
            140 => Some(Error::ASM_VARIANT_INVALID),
            141 => Some(Error::ASM_EXPR_BRACKET),
            142 => Some(Error::ASM_SYMBOL_MODIFIER),
            143 => Some(Error::ASM_SYMBOL_REDEFINED),
            144 => Some(Error::ASM_SYMBOL_MISSING),
            145 => Some(Error::ASM_RPAREN),
            146 => Some(Error::ASM_STAT_TOKEN),
            147 => Some(Error::ASM_UNSUPPORTED),
            148 => Some(Error::ASM_MACRO_TOKEN),
            149 => Some(Error::ASM_MACRO_PAREN),
            150 => Some(Error::ASM_MACRO_EQU),
            151 => Some(Error::ASM_MACRO_ARGS),
            152 => Some(Error::ASM_MACRO_LEVELS_EXCEED),
            153 => Some(Error::ASM_MACRO_STR),
            154 => Some(Error::ASM_MACRO_INVALID),
            155 => Some(Error::ASM_ESC_BACKSLASH),
            156 => Some(Error::ASM_ESC_OCTAL),
            157 => Some(Error::ASM_ESC_SEQUENCE),
            158 => Some(Error::ASM_ESC_STR),
            159 => Some(Error::ASM_TOKEN_INVALID),
            160 => Some(Error::ASM_INSN_UNSUPPORTED),
            161 => Some(Error::ASM_FIXUP_INVALID),
            162 => Some(Error::ASM_LABEL_INVALID),
            163 => Some(Error::ASM_FRAGMENT_INVALID),
            512 => Some(Error::ASM_INVALIDOPERAND),
            513 => Some(Error::ASM_MISSINGFEATURE),
            514 => Some(Error::ASM_MNEMONICFAIL),
            _ => None,
        }
    }

    /// Numbers and codes correspond one to one: the number of a code leads
    /// back to that code, and a number that leads to a code is the number of
    /// that code.
    pub proof fn lemma_from_code_inverts_code(error: Error, code: u32)
        ensures
            Error::from_code(error.code()) == Some(error),
            Error::from_code(code) == Some(error) ==> error.code() == code,
    {
    }

    /// What an engine's error query reported, read as the latest recorded
    /// error: `None` where the engine reported `OK`, the code itself otherwise.
    ///
    /// The engine may forget the code once it has been asked, so the query
    /// whose answer is `recorded` has to follow the failed call at once.
    #[verifier::when_used_as_spec(spec_new)]
    pub fn new(recorded: Error) -> (latest: Option<Error>)
        ensures
            latest == Self::spec_new(recorded),
    {
        if recorded == Error::OK {
            None
        } else {
            Some(recorded)
        }
    }

    /// The latest recorded error, given what the error query reported.
    pub open spec fn spec_new(recorded: Error) -> Option<Error> {
        if recorded == Error::OK {
            None
        } else {
            Some(recorded)
        }
    }
}

} // verus!
