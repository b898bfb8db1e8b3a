use bundlekit::errors::BundleError;
use bundlekit::validate_bundle::{
    detect_elf_architecture, is_arm64, is_x86_64, Architecture, EM_386, EM_AARCH64, EM_ARM,
    EM_X86_64,
};

/// A minimal 64-bit little-endian ELF header with the given machine code:
/// no program headers and no section headers, which is enough for a full
/// structural parse.
fn elf_header(machine: u16) -> Vec<u8> {
    let mut h = vec![0u8; 64];
    h[0] = 0x7f;
    h[1] = b'E';
    h[2] = b'L';
    h[3] = b'F';
    h[4] = 2; // 64-bit
    h[5] = 1; // little-endian
    h[6] = 1; // ELF version
    h[16] = 2; // ET_EXEC
    h[18] = (machine & 0xff) as u8;
    h[19] = (machine >> 8) as u8;
    h[20] = 1; // e_version
    h[52] = 64; // e_ehsize
    h[54] = 56; // e_phentsize
    h[58] = 64; // e_shentsize
    h
}

#[test]
fn detect_recognizes_the_four_known_codes() {
    assert_eq!(
        detect_elf_architecture(&elf_header(EM_X86_64)).unwrap(),
        Architecture::X86_64
    );
    assert_eq!(
        detect_elf_architecture(&elf_header(EM_386)).unwrap(),
        Architecture::X86
    );
    assert_eq!(
        detect_elf_architecture(&elf_header(EM_AARCH64)).unwrap(),
        Architecture::ARM64
    );
    assert_eq!(
        detect_elf_architecture(&elf_header(EM_ARM)).unwrap(),
        Architecture::ARM
    );
}

#[test]
fn detect_preserves_unrecognized_codes_as_data() {
    // An unknown machine code is data, never an error.
    assert_eq!(
        detect_elf_architecture(&elf_header(0x1234)).unwrap(),
        Architecture::Other(0x1234)
    );
    assert_eq!(
        detect_elf_architecture(&elf_header(0)).unwrap(),
        Architecture::Other(0)
    );
}

#[test]
fn detect_rejects_bytes_that_are_no_elf_image() {
    let empty: Vec<u8> = Vec::new();
    assert!(matches!(
        detect_elf_architecture(&empty),
        Err(BundleError::InvalidFormat(_))
    ));
    let garbage = vec![0u8; 64];
    assert!(matches!(
        detect_elf_architecture(&garbage),
        Err(BundleError::InvalidFormat(_))
    ));
}

#[test]
fn x86_64_predicate_follows_the_mapping() {
    assert!(is_x86_64(&elf_header(EM_X86_64)).unwrap());
    assert!(!is_x86_64(&elf_header(EM_AARCH64)).unwrap());
    assert!(!is_x86_64(&elf_header(0x1234)).unwrap());
    assert!(is_x86_64(&Vec::new()).is_err());
}

#[test]
fn arm64_predicate_follows_the_mapping() {
    assert!(is_arm64(&elf_header(EM_AARCH64)).unwrap());
    assert!(!is_arm64(&elf_header(EM_X86_64)).unwrap());
    assert!(is_arm64(&Vec::new()).is_err());
}
