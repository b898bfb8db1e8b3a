use vstd::prelude::*;
use std::collections::HashMap;
use crate::entitlements::EntitlementType;

verus! {

/// The metadata descriptor of a bundle, decoded from `Content/Info.json`.
///
/// The descriptor is an opaque payload to the rest of this crate: it is
/// parsed structurally and handed back unexamined, and its schema is owned
/// by the producer of the bundle.
#[derive(Debug, Clone)]
pub struct BundleInfoConfigFile {
    pub name: String,
    pub identifier: String,
    pub entry_point: String,
    pub metadata: HashMap<String, String>,
    pub icons: Icons,
    pub platforms: Vec<String>,
    pub minimum_system_version: String,
    pub device_family: Vec<String>,
    pub entitlements: Vec<EntitlementType>,
    pub url_schemes: Vec<UrlScheme>,
    pub app_services: AppServices,
    pub security: Security,
    pub fibyos: Fibyos,
}

#[derive(Debug, Clone)]
pub struct Icons {
    pub icon_16: String,
    pub icon_32: String,
    pub icon_128: String,
    pub launch_screen: String,
}

#[derive(Debug, Clone)]
pub struct UrlScheme {
    pub scheme: String,
    pub description: String,
}

#[derive(Debug, Clone)]
pub struct AppServices {
    pub background_modes: Vec<String>,
}

#[derive(Debug, Clone)]
pub struct Security {
    pub app_sandbox: bool,
    pub app_transport_security: AppTransportSecurity,
    pub code_signature: CodeSignature,
}

#[derive(Debug, Clone)]
pub struct AppTransportSecurity {
    pub allows_insecure_http: bool,
    pub exception_domains: HashMap<String, ExceptionDomain>,
}

#[derive(Debug, Clone)]
pub struct ExceptionDomain {
    pub includes_subdomains: bool,
    pub allows_insecure_http: bool,
}

#[derive(Debug, Clone)]
pub struct CodeSignature {
    pub team_id: String,
    pub entitlements_file: String,
}

#[derive(Debug, Clone)]
pub struct Fibyos {
    pub document_types: Vec<DocumentType>,
}

#[derive(Debug, Clone)]
pub struct DocumentType {
    pub name: String,
    pub extensions: Vec<String>,
    pub icon_file: String,
}

} // verus!
