use bundlekit::abs_path::AbsPath;
use bundlekit::fs_view::FsView;
use bundlekit::is_bundle_at_path::is_bundle_at_path;
use bundlekit::is_bundle_dir::{
    is_app_bundle_dir, is_framework_bundle_dir, is_service_bundle_dir, is_toolset_bundle_dir,
};
use bundlekit::valid_bundle_structure::valid_bundle_structure;

fn path(components: &[&str]) -> AbsPath {
    let mut p = AbsPath::root();
    for c in components {
        p = p.child(c);
    }
    p
}

/// Registers `p` as a directory with the full bundle layout below it.
fn add_bundle_dir(fs: &mut FsView, components: &[&str]) {
    let p = path(components);
    let content = p.child("Content");
    let marker = content.child("Config.json");
    fs.add_dir(p);
    fs.add_dir(content);
    fs.add_file(marker);
}

#[test]
fn structure_valid_when_marker_present() {
    let mut fs = FsView::new();
    add_bundle_dir(&mut fs, &["apps", "demo.appd"]);
    assert!(valid_bundle_structure(&fs, &path(&["apps", "demo.appd"])));
}

#[test]
fn structure_invalid_without_config_json() {
    let mut fs = FsView::new();
    let p = path(&["apps", "demo.appd"]);
    fs.add_dir(p.clone_path());
    fs.add_dir(p.child("Content"));
    // No Content/Config.json: invalid regardless of the extension.
    assert!(!valid_bundle_structure(&fs, &p));
    assert!(!is_app_bundle_dir(&fs, &p));
    assert!(!is_bundle_at_path(&fs, &p));
}

#[test]
fn structure_invalid_without_content_dir() {
    let mut fs = FsView::new();
    let p = path(&["demo.serviced"]);
    fs.add_dir(p.clone_path());
    fs.add_file(p.child("Content").child("Config.json"));
    assert!(!valid_bundle_structure(&fs, &p));
    assert!(!is_service_bundle_dir(&fs, &p));
}

#[test]
fn structure_invalid_for_unknown_path() {
    let fs = FsView::new();
    assert!(!valid_bundle_structure(&fs, &path(&["nowhere"])));
}

#[test]
fn classifier_accepts_each_kind() {
    let mut fs = FsView::new();
    add_bundle_dir(&mut fs, &["a.appd"]);
    add_bundle_dir(&mut fs, &["s.serviced"]);
    add_bundle_dir(&mut fs, &["t.toolsetd"]);
    add_bundle_dir(&mut fs, &["f.frameworkd"]);
    assert!(is_app_bundle_dir(&fs, &path(&["a.appd"])));
    assert!(is_service_bundle_dir(&fs, &path(&["s.serviced"])));
    assert!(is_toolset_bundle_dir(&fs, &path(&["t.toolsetd"])));
    assert!(is_framework_bundle_dir(&fs, &path(&["f.frameworkd"])));
    assert!(is_bundle_at_path(&fs, &path(&["a.appd"])));
    assert!(is_bundle_at_path(&fs, &path(&["s.serviced"])));
    assert!(is_bundle_at_path(&fs, &path(&["t.toolsetd"])));
    assert!(is_bundle_at_path(&fs, &path(&["f.frameworkd"])));
}

#[test]
fn classifier_rejects_other_extensions_even_with_valid_structure() {
    let mut fs = FsView::new();
    add_bundle_dir(&mut fs, &["a.appd"]);
    let p = path(&["a.appd"]);
    assert!(is_app_bundle_dir(&fs, &p));
    assert!(!is_service_bundle_dir(&fs, &p));
    assert!(!is_toolset_bundle_dir(&fs, &p));
    assert!(!is_framework_bundle_dir(&fs, &p));
}

#[test]
fn classifier_rejects_unrecognized_extension() {
    let mut fs = FsView::new();
    add_bundle_dir(&mut fs, &["x.plugind"]);
    assert!(!is_bundle_at_path(&fs, &path(&["x.plugind"])));
}

#[test]
fn classifier_requires_directory() {
    let mut fs = FsView::new();
    // Full layout below it, but the candidate itself is not a directory.
    let p = path(&["a.appd"]);
    fs.add_dir(p.child("Content"));
    fs.add_file(p.child("Content").child("Config.json"));
    assert!(!is_app_bundle_dir(&fs, &p));
}

#[test]
fn extension_must_have_a_stem() {
    let mut fs = FsView::new();
    // A component named exactly ".appd" has no extension in the path sense.
    add_bundle_dir(&mut fs, &[".appd"]);
    assert!(!is_app_bundle_dir(&fs, &path(&[".appd"])));
}
