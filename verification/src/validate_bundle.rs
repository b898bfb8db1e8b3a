use vstd::prelude::*;
use vstd::string::StringExecFns;
use crate::bundle_load_info_config::{BundleLocation, ConfigCache};
use crate::errors::{BundleError, BundleValidationError, BundleValidationResult};

verus! {

/// The instruction-set architecture an executable targets.
///
/// The four recognized machine codes map to named variants; every other
/// code is representable data, not a failure, and keeps its raw value.
#[allow(non_camel_case_types)]
#[derive(Debug, Clone, Copy, PartialEq, Eq, Structural)]
pub enum Architecture {
    X86,
    X86_64,
    ARM64,
    ARM,
    Other(u16),
}

/// The ELF machine code for i386.
pub const EM_386: u16 = 3;

/// The ELF machine code for 32-bit ARM.
pub const EM_ARM: u16 = 40;

/// The ELF machine code for x86-64.
pub const EM_X86_64: u16 = 62;

/// The ELF machine code for AArch64.
pub const EM_AARCH64: u16 = 183;

/// The architecture a machine code denotes.
pub open spec fn spec_arch_of_code(code: u16) -> Architecture {
    if code == EM_386 {
        Architecture::X86
    } else if code == EM_X86_64 {
        Architecture::X86_64
    } else if code == EM_AARCH64 {
        Architecture::ARM64
    } else if code == EM_ARM {
        Architecture::ARM
    } else {
        Architecture::Other(code)
    }
}

/// The machine-type field of the ELF image encoded in `data`, if `data`
/// parses as an ELF image at all. A pure function of the bytes.
pub uninterp spec fn elf_machine_of(data: Seq<u8>) -> Option<u16>;

/// Relies on `goblin::elf::Elf::parse`: whether the bytes parse as an ELF
/// image, and the `e_machine` header field when they do, depend on the bytes
/// alone.
#[verifier::external_body]
fn parse_elf_machine(data: &[u8]) -> (r: Result<u16, String>)
    ensures
        r is Ok <==> elf_machine_of(data@) is Some,
        r matches Ok(code) ==> elf_machine_of(data@) == Some(code),
{
    match goblin::elf::Elf::parse(data) {
        Ok(elf) => Ok(elf.header.e_machine),
        Err(e) => Err(format!("{}", e)),
    }
}

/// Decodes the target architecture of the executable image in `data`.
///
/// A recognized machine code yields its named variant; an unrecognized one
/// yields `Other` with the exact code preserved, never an error. Only bytes
/// that do not parse as an ELF image at all are an `InvalidFormat` error.
pub fn detect_elf_architecture(data: &[u8]) -> (r: Result<Architecture, BundleError>)
    ensures
        elf_machine_of(data@) matches Some(code) ==> r == Ok::<Architecture, BundleError>(
            spec_arch_of_code(code),
        ),
        elf_machine_of(data@) is None ==> r matches Err(BundleError::InvalidFormat(_)),
{
    match parse_elf_machine(data) {
        Err(m) => Err(BundleError::InvalidFormat(m)),
        Ok(code) => {
            if code == EM_386 {
                Ok(Architecture::X86)
            } else if code == EM_X86_64 {
                Ok(Architecture::X86_64)
            } else if code == EM_AARCH64 {
                Ok(Architecture::ARM64)
            } else if code == EM_ARM {
                Ok(Architecture::ARM)
            } else {
                Ok(Architecture::Other(code))
            }
        },
    }
}

/// Does the executable image in `data` target x86-64?
pub fn is_x86_64(data: &[u8]) -> (r: Result<bool, BundleError>)
    ensures
        elf_machine_of(data@) matches Some(code) ==> r == Ok::<bool, BundleError>(
            spec_arch_of_code(code) == Architecture::X86_64,
        ),
        elf_machine_of(data@) is None ==> r is Err,
{
    match detect_elf_architecture(data)? {
        Architecture::X86_64 => Ok(true),
        _ => Ok(false),
    }
}

/// Does the executable image in `data` target AArch64?
pub fn is_arm64(data: &[u8]) -> (r: Result<bool, BundleError>)
    ensures
        elf_machine_of(data@) matches Some(code) ==> r == Ok::<bool, BundleError>(
            spec_arch_of_code(code) == Architecture::ARM64,
        ),
        elf_machine_of(data@) is None ==> r is Err,
{
    match detect_elf_architecture(data)? {
        Architecture::ARM64 => Ok(true),
        _ => Ok(false),
    }
}

/// The exact contract of a validation call over the resolved location and
/// the metadata cache.
pub open spec fn validate_post(
    loc: BundleLocation,
    cache: ConfigCache,
    r: Result<BundleValidationResult, BundleValidationError>,
) -> bool {
    match loc {
        BundleLocation::NoBundle => r matches Err(BundleValidationError::ConfigLoadError(m))
            && m@ == "no bundle path could be determined"@,
        BundleLocation::Failed(cause) => r matches Err(
            BundleValidationError::ConfigLoadError(m),
        ) && m@ == "failed to resolve bundle root: "@ + cause@,
        BundleLocation::Found(_) => match cache.loaded {
            None => r matches Err(BundleValidationError::ConfigLoadError(m))
                && m@ == "configuration not loaded: NotLoaded"@,
            Some(_) => r matches Ok(v) && v.is_valid == true && v.warnings@.len() == 0
                && v.message@ == "bundle is valid"@,
        },
    }
}

/// Produces a structural validity report for the current launch.
///
/// Requires the bundle location to be resolved and the metadata to be
/// already loaded; it never triggers a load itself. Today the report is
/// `is_valid = true` with no warnings — the warnings sequence is the open
/// channel for future structural rules.
pub fn validate_bundle(location: &BundleLocation, cache: &ConfigCache) -> (r: Result<
    BundleValidationResult,
    BundleValidationError,
>)
    ensures
        validate_post(*location, *cache, r),
{
    match location {
        BundleLocation::NoBundle => {
            return Err(
                BundleValidationError::ConfigLoadError(
                    String::from_str("no bundle path could be determined"),
                ),
            );
        },
        BundleLocation::Failed(cause) => {
            let mut m = String::from_str("failed to resolve bundle root: ");
            m.append(cause.as_str());
            return Err(BundleValidationError::ConfigLoadError(m));
        },
        BundleLocation::Found(_) => {},
    }
    if !cache.is_loaded() {
        return Err(
            BundleValidationError::ConfigLoadError(
                String::from_str("configuration not loaded: NotLoaded"),
            ),
        );
    }
    let warnings: Vec<String> = Vec::new();
    Ok(
        BundleValidationResult {
            is_valid: true,
            message: String::from_str("bundle is valid"),
            warnings,
        },
    )
}

} // verus!
