use keystone_engine::{KeystoneError, KeystoneOutput, MiscError, Error};

fn output(bytes: Vec<u8>) -> KeystoneOutput {
    KeystoneOutput { size: bytes.len() as u32, stat_count: 1, bytes }
}

#[test]
fn hex_of_two_bytes() {
    assert_eq!(output(vec![0xb4, 0x80]).to_hex(), "b480");
}

#[test]
fn hex_of_nothing_is_empty() {
    assert_eq!(output(vec![]).to_hex(), "");
}

#[test]
fn hex_pads_and_is_lower_case() {
    assert_eq!(output(vec![0x00, 0x0f, 0xa0, 0xff, 0x09, 0x10]).to_hex(), "000fa0ff0910");
    assert_eq!(output(vec![0xab, 0xcd, 0xef]).to_hex(), "abcdef");
}

#[test]
fn hex_of_arm_encoding() {
    let bytes = vec![66, 0, 160, 227, 4, 0, 129, 229, 253, 255, 255, 234];
    assert_eq!(output(bytes).to_hex(), "4200a0e3040081e5fdffffea");
}

#[test]
fn hex_of_every_byte() {
    let out = output((0..=255u8).collect());
    let text = out.to_hex();
    assert_eq!(text.len(), 512);
    for (i, byte) in out.bytes.iter().enumerate() {
        assert_eq!(&text[2 * i..2 * i + 2], format!("{:02x}", byte));
    }
}

#[test]
fn fixed_text_of_the_fallback() {
    assert_eq!(MiscError::KsAsm.message(), "an error occured while calling ks_asm");
    assert_eq!(
        KeystoneError::Misc(MiscError::KsAsm).message("not read"),
        "[Misc error] an error occured while calling ks_asm"
    );
    assert_eq!(
        KeystoneError::Misc(MiscError::KsAsm).message(""),
        "[Misc error] an error occured while calling ks_asm"
    );
}

#[test]
fn engine_error_text_is_the_engines() {
    assert_eq!(
        KeystoneError::Engine(Error::ASM_MNEMONICFAIL)
            .message("Invalid mnemonic (KS_ERR_ASM_MNEMONICFAIL)"),
        "[Engine error] Invalid mnemonic (KS_ERR_ASM_MNEMONICFAIL)"
    );
    assert_eq!(KeystoneError::Engine(Error::NOMEM).message(""), "[Engine error] ");
}

#[test]
fn errors_come_from_their_families() {
    assert_eq!(KeystoneError::from(Error::MODE), KeystoneError::Engine(Error::MODE));
    assert_eq!(KeystoneError::from(MiscError::KsAsm), KeystoneError::Misc(MiscError::KsAsm));
    let e: KeystoneError = Error::VERSION.into();
    assert_eq!(e, KeystoneError::Engine(Error::VERSION));
    assert_ne!(KeystoneError::Engine(Error::OK), KeystoneError::Misc(MiscError::KsAsm));
}
