use bundlekit::abs_path::AbsPath;
use bundlekit::fs_view::FsView;
use bundlekit::find_bundle_root::find_bundle_root;
use bundlekit::is_launched_from_bundle::is_launched_from_bundle;

fn path(components: &[&str]) -> AbsPath {
    let mut p = AbsPath::root();
    for c in components {
        p = p.child(c);
    }
    p
}

fn add_bundle_dir(fs: &mut FsView, components: &[&str]) {
    let p = path(components);
    let content = p.child("Content");
    let marker = content.child("Config.json");
    fs.add_dir(p);
    fs.add_dir(content);
    fs.add_file(marker);
}

fn components_of(p: &AbsPath) -> Vec<String> {
    p.components.clone()
}

#[test]
fn resolver_prefers_outermost_of_nested_bundles() {
    let mut fs = FsView::new();
    add_bundle_dir(&mut fs, &["a.appd"]);
    add_bundle_dir(&mut fs, &["a.appd", "b.serviced"]);
    let exe = path(&["a.appd", "b.serviced", "prog"]);
    let root = find_bundle_root(&fs, &exe).expect("a bundle root");
    assert_eq!(components_of(&root), vec!["a.appd".to_string()]);
}

#[test]
fn resolver_climbs_past_plain_directories() {
    let mut fs = FsView::new();
    add_bundle_dir(&mut fs, &["opt", "demo.appd"]);
    fs.add_dir(path(&["opt", "demo.appd", "Content", "bin"]));
    let exe = path(&["opt", "demo.appd", "Content", "bin", "prog"]);
    let root = find_bundle_root(&fs, &exe).expect("a bundle root");
    assert_eq!(
        components_of(&root),
        vec!["opt".to_string(), "demo.appd".to_string()]
    );
}

#[test]
fn resolver_finds_nothing_without_a_bundle() {
    let mut fs = FsView::new();
    fs.add_dir(path(&["usr", "bin"]));
    let exe = path(&["usr", "bin", "prog"]);
    assert!(find_bundle_root(&fs, &exe).is_none());
}

#[test]
fn resolver_yields_none_for_the_root_itself() {
    let fs = FsView::new();
    assert!(find_bundle_root(&fs, &AbsPath::root()).is_none());
}

#[test]
fn launched_from_bundle_tracks_the_resolver() {
    let mut fs = FsView::new();
    add_bundle_dir(&mut fs, &["a.appd"]);
    assert!(is_launched_from_bundle(&fs, &path(&["a.appd", "prog"])));
    assert!(!is_launched_from_bundle(&fs, &path(&["elsewhere", "prog"])));
}
