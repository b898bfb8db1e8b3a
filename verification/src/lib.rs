//! Discovery, classification and one-shot configuration loading for package
//! directories ("bundles"), plus a probe for the target architecture of an
//! executable's binary header.
//!
//! The filesystem itself is handled by the caller: the functions here work on
//! an explicit snapshot of the relevant directories and files (`FsView`) and
//! on paths given as their components (`AbsPath`), so every decision the
//! crate makes is a verified function of plain values.
//!
//! The on-disk convention uses two distinct files below a bundle root: the
//! structural marker `Content/Config.json`, whose mere presence makes a
//! directory a candidate bundle, and the metadata descriptor
//! `Content/Info.json`, which the one-shot loader parses.

pub mod errors;
pub mod text;
pub mod abs_path;
pub mod fs_view;
pub mod valid_bundle_structure;
pub mod is_bundle_dir;
pub mod is_bundle_at_path;
pub mod find_bundle_root;
pub mod is_launched_from_bundle;
pub mod entitlements;
pub mod bundle_info_config_file;
pub mod bundle_load_info_config;
pub mod validate_bundle;

pub use abs_path::AbsPath;
pub use fs_view::FsView;
pub use bundle_info_config_file::{
    AppServices, AppTransportSecurity, BundleInfoConfigFile, CodeSignature, DocumentType,
    ExceptionDomain, Fibyos, Icons, Security, UrlScheme,
};
pub use bundle_load_info_config::{
    bundle_load_info_config, get_current_launched_bundle_path, get_loaded_bundle_info_config,
    BundleLocation, ConfigCache, InfoFileOutcome, PathCache,
};
pub use entitlements::EntitlementType;
pub use errors::{BundleError, BundleValidationError, BundleValidationResult};
pub use find_bundle_root::find_bundle_root;
pub use is_bundle_at_path::is_bundle_at_path;
pub use is_bundle_dir::{
    is_app_bundle_dir, is_framework_bundle_dir, is_service_bundle_dir, is_toolset_bundle_dir,
};
pub use is_launched_from_bundle::is_launched_from_bundle;
pub use valid_bundle_structure::valid_bundle_structure;
pub use validate_bundle::{
    detect_elf_architecture, is_arm64, is_x86_64, validate_bundle, Architecture,
};
