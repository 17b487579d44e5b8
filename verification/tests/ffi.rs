use keystone_engine::ffi::mode::MODE_ALL;
use keystone_engine::ffi::option_value::OPTION_VALUE_ALL;
use keystone_engine::{Arch, Error, KsHandle, Mode, OptionType, OptionValue};

#[test]
fn arch_codes() {
    assert_eq!(Arch::ARM.code(), 1);
    assert_eq!(Arch::ARM64.code(), 2);
    assert_eq!(Arch::MIPS.code(), 3);
    assert_eq!(Arch::X86.code(), 4);
    assert_eq!(Arch::PPC.code(), 5);
    assert_eq!(Arch::SPARC.code(), 6);
    assert_eq!(Arch::SYSTEMZ.code(), 7);
    assert_eq!(Arch::HEXAGON.code(), 8);
    assert_eq!(Arch::EVM.code(), 9);
    assert_eq!(Arch::MAX.code(), 10);
}

#[test]
fn option_type_codes() {
    assert_eq!(OptionType::SYNTAX.code(), 1);
    assert_eq!(OptionType::SYM_RESOLVER.code(), 2);
}

#[test]
fn error_codes() {
    assert_eq!(Error::OK.code(), 0);
    assert_eq!(Error::NOMEM.code(), 1);
    assert_eq!(Error::ARCH.code(), 2);
    assert_eq!(Error::HANDLE.code(), 3);
    assert_eq!(Error::MODE.code(), 4);
    assert_eq!(Error::VERSION.code(), 5);
    assert_eq!(Error::OPT_INVALID.code(), 6);
    assert_eq!(Error::ASM_EXPR_TOKEN.code(), 128);
    assert_eq!(Error::ASM_DIRECTIVE_VALUE_RANGE.code(), 129);
    assert_eq!(Error::ASM_DIRECTIVE_ID.code(), 130);
    assert_eq!(Error::ASM_DIRECTIVE_TOKEN.code(), 131);
    assert_eq!(Error::ASM_DIRECTIVE_STR.code(), 132);
    assert_eq!(Error::ASM_DIRECTIVE_COMMA.code(), 133);
    assert_eq!(Error::ASM_DIRECTIVE_RELOC_NAME.code(), 134);
    assert_eq!(Error::ASM_DIRECTIVE_RELOC_TOKEN.code(), 135);
    assert_eq!(Error::ASM_DIRECTIVE_FPOINT.code(), 136);
    assert_eq!(Error::ASM_DIRECTIVE_UNKNOWN.code(), 137);
    assert_eq!(Error::ASM_DIRECTIVE_EQU.code(), 138);
    assert_eq!(Error::ASM_DIRECTIVE_INVALID.code(), 139);
    assert_eq!(Error::ASM_VARIANT_INVALID.code(), 140);
    assert_eq!(Error::ASM_EXPR_BRACKET.code(), 141);
    assert_eq!(Error::ASM_SYMBOL_MODIFIER.code(), 142);
    assert_eq!(Error::ASM_SYMBOL_REDEFINED.code(), 143);
    assert_eq!(Error::ASM_SYMBOL_MISSING.code(), 144);
    assert_eq!(Error::ASM_RPAREN.code(), 145);
    assert_eq!(Error::ASM_STAT_TOKEN.code(), 146);
    assert_eq!(Error::ASM_UNSUPPORTED.code(), 147);
    assert_eq!(Error::ASM_MACRO_TOKEN.code(), 148);
    assert_eq!(Error::ASM_MACRO_PAREN.code(), 149);
    assert_eq!(Error::ASM_MACRO_EQU.code(), 150);
    assert_eq!(Error::ASM_MACRO_ARGS.code(), 151);
    assert_eq!(Error::ASM_MACRO_LEVELS_EXCEED.code(), 152);
    assert_eq!(Error::ASM_MACRO_STR.code(), 153);
    assert_eq!(Error::ASM_MACRO_INVALID.code(), 154);
    assert_eq!(Error::ASM_ESC_BACKSLASH.code(), 155);
    assert_eq!(Error::ASM_ESC_OCTAL.code(), 156);
    assert_eq!(Error::ASM_ESC_SEQUENCE.code(), 157);
    assert_eq!(Error::ASM_ESC_STR.code(), 158);
    assert_eq!(Error::ASM_TOKEN_INVALID.code(), 159);
    assert_eq!(Error::ASM_INSN_UNSUPPORTED.code(), 160);
    assert_eq!(Error::ASM_FIXUP_INVALID.code(), 161);
    assert_eq!(Error::ASM_LABEL_INVALID.code(), 162);
    assert_eq!(Error::ASM_FRAGMENT_INVALID.code(), 163);
    assert_eq!(Error::ASM_INVALIDOPERAND.code(), 512);
    assert_eq!(Error::ASM_MISSINGFEATURE.code(), 513);
    assert_eq!(Error::ASM_MNEMONICFAIL.code(), 514);
}

#[test]
fn numbers_and_error_codes_correspond() {
    let mut named = 0;
    for number in 0..=1024u32 {
        match Error::from_code(number) {
            Some(error) => {
                assert_eq!(error.code(), number);
                named += 1;
            },
            None => {
                let known = number <= 6 || (128..=163).contains(&number) || (512..=514).contains(&number);
                assert!(!known);
            },
        }
    }
    assert_eq!(named, 46);
    assert_eq!(Error::from_code(0), Some(Error::OK));
    assert_eq!(Error::from_code(5), Some(Error::VERSION));
    assert_eq!(Error::from_code(514), Some(Error::ASM_MNEMONICFAIL));
    assert_eq!(Error::from_code(7), None);
    assert_eq!(Error::from_code(127), None);
    assert_eq!(Error::from_code(164), None);
    assert_eq!(Error::from_code(511), None);
    assert_eq!(Error::from_code(515), None);
    assert_eq!(Error::from_code(u32::MAX), None);
}

#[test]
fn latest_error_is_none_for_ok() {
    assert_eq!(Error::new(Error::OK), None);
    assert_eq!(Error::new(Error::ASM_MNEMONICFAIL), Some(Error::ASM_MNEMONICFAIL));
    assert_eq!(Error::new(Error::NOMEM), Some(Error::NOMEM));
    assert_eq!(Error::new(Error::VERSION), Some(Error::VERSION));
}

#[test]
fn errors_are_ordered_by_code() {
    assert!(Error::OK < Error::NOMEM);
    assert!(Error::OPT_INVALID < Error::ASM_EXPR_TOKEN);
    assert!(Error::ASM_FRAGMENT_INVALID < Error::ASM_INVALIDOPERAND);
    assert!(Arch::ARM < Arch::ARM64);
    assert!(Arch::EVM < Arch::MAX);
    assert!(OptionType::SYNTAX < OptionType::SYM_RESOLVER);
}

#[test]
fn mode_bits() {
    assert_eq!(Mode::little_endian().bits(), 0);
    assert_eq!(Mode::big_endian().bits(), 1073741824);
    assert_eq!(Mode::arm().bits(), 1);
    assert_eq!(Mode::thumb().bits(), 16);
    assert_eq!(Mode::v8().bits(), 64);
    assert_eq!(Mode::micro().bits(), 16);
    assert_eq!(Mode::mips3().bits(), 32);
    assert_eq!(Mode::mips32r6().bits(), 64);
    assert_eq!(Mode::mips32().bits(), 4);
    assert_eq!(Mode::mips64().bits(), 8);
    assert_eq!(Mode::mode_16().bits(), 2);
    assert_eq!(Mode::mode_32().bits(), 4);
    assert_eq!(Mode::mode_64().bits(), 8);
    assert_eq!(Mode::ppc32().bits(), 4);
    assert_eq!(Mode::ppc64().bits(), 8);
    assert_eq!(Mode::qpx().bits(), 16);
    assert_eq!(Mode::sparc32().bits(), 4);
    assert_eq!(Mode::sparc64().bits(), 8);
    assert_eq!(Mode::v9().bits(), 16);
    assert_eq!(MODE_ALL, 0x4000_007f);
}

#[test]
fn mode_union() {
    assert_eq!((Mode::little_endian() | Mode::arm()).bits(), 1);
    assert_eq!((Mode::big_endian() | Mode::mips32()).bits(), 0x4000_0004);
    assert_eq!(Mode::arm().union(Mode::thumb()).bits(), 17);
    assert_eq!(Mode::arm() | Mode::thumb(), Mode::thumb() | Mode::arm());
    assert_eq!(Mode::arm() | Mode::arm(), Mode::arm());
    assert_eq!(Mode::thumb(), Mode::micro());
    assert_eq!(Mode::little_endian() | Mode::sparc64(), Mode::sparc64());
    let all = Mode::big_endian()
        | Mode::arm()
        | Mode::mode_16()
        | Mode::mode_32()
        | Mode::mode_64()
        | Mode::thumb()
        | Mode::mips3()
        | Mode::v8();
    assert_eq!(all.bits(), MODE_ALL);
}

#[test]
fn mode_from_bits() {
    assert_eq!(Mode::from_bits(0), Some(Mode::little_endian()));
    assert_eq!(Mode::from_bits(4), Some(Mode::mode_32()));
    assert_eq!(Mode::from_bits(0x4000_0001), Some(Mode::big_endian() | Mode::arm()));
    assert_eq!(Mode::from_bits(MODE_ALL).map(|m| m.bits()), Some(MODE_ALL));
    assert_eq!(Mode::from_bits(128), None);
    assert_eq!(Mode::from_bits(0x2000_0000), None);
    assert_eq!(Mode::from_bits(-1), None);
    assert_eq!(Mode::from_bits(i32::MIN), None);
}

#[test]
fn option_value_bits() {
    assert_eq!(OptionValue::syntax_intel().bits(), 1);
    assert_eq!(OptionValue::syntax_att().bits(), 2);
    assert_eq!(OptionValue::syntax_nasm().bits(), 4);
    assert_eq!(OptionValue::syntax_masm().bits(), 8);
    assert_eq!(OptionValue::syntax_gas().bits(), 16);
    assert_eq!(OptionValue::syntax_radix16().bits(), 32);
    assert_eq!(OPTION_VALUE_ALL, 63);
}

#[test]
fn option_value_union_and_from_bits() {
    assert_eq!((OptionValue::syntax_nasm() | OptionValue::syntax_radix16()).bits(), 36);
    assert_eq!(OptionValue::syntax_att().union(OptionValue::syntax_att()), OptionValue::syntax_att());
    assert_eq!(OptionValue::from_bits(4), Some(OptionValue::syntax_nasm()));
    assert_eq!(OptionValue::from_bits(63).map(|v| v.bits()), Some(63));
    assert_eq!(OptionValue::from_bits(0).map(|v| v.bits()), Some(0));
    assert_eq!(OptionValue::from_bits(64), None);
    assert_eq!(OptionValue::from_bits(usize::MAX), None);
}

#[test]
fn handle_is_never_null() {
    assert_eq!(KsHandle::new(0), None);
    assert_eq!(KsHandle::new(1).map(|h| h.addr()), Some(1));
    assert_eq!(KsHandle::new(usize::MAX).map(|h| h.addr()), Some(usize::MAX));
    assert_eq!(KsHandle::new(0x1000), KsHandle::new(0x1000));
    assert_ne!(KsHandle::new(0x1000), KsHandle::new(0x1008));
}
