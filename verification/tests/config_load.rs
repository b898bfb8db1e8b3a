use std::collections::HashMap;

use bundlekit::abs_path::AbsPath;
use bundlekit::bundle_info_config_file::{
    AppServices, AppTransportSecurity, BundleInfoConfigFile, CodeSignature, Fibyos, Icons,
    Security,
};
use bundlekit::bundle_load_info_config::{
    bundle_load_info_config, get_current_launched_bundle_path, get_loaded_bundle_info_config,
    BundleLocation, ConfigCache, InfoFileOutcome, PathCache,
};
use bundlekit::entitlements::EntitlementType;
use bundlekit::errors::BundleError;
use bundlekit::fs_view::FsView;

fn path(components: &[&str]) -> AbsPath {
    let mut p = AbsPath::root();
    for c in components {
        p = p.child(c);
    }
    p
}

fn add_bundle_dir(fs: &mut FsView, components: &[&str]) {
    let p = path(components);
    let content = p.child("Content");
    let marker = content.child("Config.json");
    fs.add_dir(p);
    fs.add_dir(content);
    fs.add_file(marker);
}

fn sample_config(name: &str) -> BundleInfoConfigFile {
    BundleInfoConfigFile {
        name: name.to_string(),
        identifier: "org.example.demo".to_string(),
        entry_point: "bin/demo".to_string(),
        metadata: HashMap::new(),
        icons: Icons {
            icon_16: "icons/16.png".to_string(),
            icon_32: "icons/32.png".to_string(),
            icon_128: "icons/128.png".to_string(),
            launch_screen: "icons/launch.png".to_string(),
        },
        platforms: vec!["linux".to_string()],
        minimum_system_version: "1.0".to_string(),
        device_family: vec!["desktop".to_string()],
        entitlements: vec![EntitlementType::Camera, EntitlementType::Network],
        url_schemes: vec![],
        app_services: AppServices { background_modes: vec![] },
        security: Security {
            app_sandbox: true,
            app_transport_security: AppTransportSecurity {
                allows_insecure_http: false,
                exception_domains: HashMap::new(),
            },
            code_signature: CodeSignature {
                team_id: "TEAM".to_string(),
                entitlements_file: "demo.entitlements".to_string(),
            },
        },
        fibyos: Fibyos { document_types: vec![] },
    }
}

#[test]
fn load_once_then_already_loaded() {
    let mut cache = ConfigCache::new();
    let loc = BundleLocation::Found(path(&["a.appd"]));
    {
        let r1 = bundle_load_info_config(
            &mut cache,
            &loc,
            InfoFileOutcome::Parsed(sample_config("Demo")),
        );
        assert_eq!(r1.expect("first load succeeds").name, "Demo");
    }
    let r2 = bundle_load_info_config(
        &mut cache,
        &loc,
        InfoFileOutcome::Parsed(sample_config("Demo")),
    );
    assert!(matches!(r2, Err(BundleError::AlreadyLoaded)));
    // The cached value is retrievable, unchanged, as often as wanted.
    assert_eq!(get_loaded_bundle_info_config(&cache).unwrap().name, "Demo");
    assert_eq!(get_loaded_bundle_info_config(&cache).unwrap().name, "Demo");
}

#[test]
fn get_loaded_before_any_load_is_not_loaded() {
    let cache = ConfigCache::new();
    assert!(matches!(
        get_loaded_bundle_info_config(&cache),
        Err(BundleError::NotLoaded)
    ));
}

#[test]
fn load_without_a_bundle_root_is_invalid_format() {
    let mut cache = ConfigCache::new();
    let r = bundle_load_info_config(&mut cache, &BundleLocation::NoBundle, InfoFileOutcome::Missing);
    match r {
        Err(BundleError::InvalidFormat(m)) => {
            assert_eq!(m, "bundle root could not be determined");
        },
        other => panic!("unexpected result: {:?}", other),
    }
    assert!(!cache.is_loaded());
}

#[test]
fn load_after_failed_resolution_wraps_the_cause() {
    let mut cache = ConfigCache::new();
    let loc = BundleLocation::Failed("no executable path".to_string());
    let r = bundle_load_info_config(&mut cache, &loc, InfoFileOutcome::Missing);
    match r {
        Err(BundleError::InvalidFormat(m)) => {
            assert_eq!(m, "failed to resolve bundle root: no executable path");
        },
        other => panic!("unexpected result: {:?}", other),
    }
}

#[test]
fn load_with_missing_info_json_is_not_found() {
    let mut cache = ConfigCache::new();
    let loc = BundleLocation::Found(path(&["a.appd"]));
    let r = bundle_load_info_config(&mut cache, &loc, InfoFileOutcome::Missing);
    assert!(matches!(r, Err(BundleError::NotFound(_))));
}

#[test]
fn load_with_unreadable_info_json_is_io_error() {
    let mut cache = ConfigCache::new();
    let loc = BundleLocation::Found(path(&["a.appd"]));
    let r = bundle_load_info_config(
        &mut cache,
        &loc,
        InfoFileOutcome::ReadFailed("permission denied".to_string()),
    );
    match r {
        Err(BundleError::IoError(m)) => assert_eq!(m, "permission denied"),
        other => panic!("unexpected result: {:?}", other),
    }
}

#[test]
fn load_with_unparsable_info_json_is_invalid_format() {
    let mut cache = ConfigCache::new();
    let loc = BundleLocation::Found(path(&["a.appd"]));
    let r = bundle_load_info_config(
        &mut cache,
        &loc,
        InfoFileOutcome::ParseFailed("missing field name".to_string()),
    );
    match r {
        Err(BundleError::InvalidFormat(m)) => {
            assert_eq!(m, "failed to parse Info.json: missing field name");
        },
        other => panic!("unexpected result: {:?}", other),
    }
}

#[test]
fn path_resolution_is_cached_across_filesystem_changes() {
    let mut fs = FsView::new();
    add_bundle_dir(&mut fs, &["a.appd"]);
    let exe = Ok(path(&["a.appd", "prog"]));
    let mut cache = PathCache::new();
    let first = get_current_launched_bundle_path(&mut cache, &fs, &exe);
    match first {
        BundleLocation::Found(p) => assert_eq!(p.components, vec!["a.appd".to_string()]),
        other => panic!("unexpected location: {:?}", location_name(&other)),
    }
    assert!(cache.is_resolved());
    // A later call sees an empty filesystem, but the cached value wins.
    let empty = FsView::new();
    let second = get_current_launched_bundle_path(&mut cache, &empty, &exe);
    match second {
        BundleLocation::Found(p) => assert_eq!(p.components, vec!["a.appd".to_string()]),
        other => panic!("unexpected location: {:?}", location_name(&other)),
    }
}

#[test]
fn path_resolution_records_an_unresolvable_executable() {
    let fs = FsView::new();
    let exe: Result<AbsPath, String> = Err("cannot read own path".to_string());
    let mut cache = PathCache::new();
    let loc = get_current_launched_bundle_path(&mut cache, &fs, &exe);
    match loc {
        BundleLocation::Failed(m) => assert_eq!(m, "cannot read own path"),
        other => panic!("unexpected location: {:?}", location_name(&other)),
    }
}

#[test]
fn path_resolution_records_no_bundle() {
    let mut fs = FsView::new();
    fs.add_dir(path(&["usr", "bin"]));
    let exe = Ok(path(&["usr", "bin", "prog"]));
    let mut cache = PathCache::new();
    let loc = get_current_launched_bundle_path(&mut cache, &fs, &exe);
    assert!(matches!(loc, BundleLocation::NoBundle));
}

fn location_name(l: &BundleLocation) -> &'static str {
    match l {
        BundleLocation::Found(_) => "Found",
        BundleLocation::NoBundle => "NoBundle",
        BundleLocation::Failed(_) => "Failed",
    }
}
