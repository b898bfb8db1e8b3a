use vstd::prelude::*;
use crate::abs_path::AbsPath;
use crate::fs_view::FsView;

verus! {

/// The `Content` directory below a candidate bundle root.
pub open spec fn spec_content_dir(p: Seq<Seq<char>>) -> Seq<Seq<char>> {
    p.push("Content"@)
}

/// The `Content/Config.json` structural marker below a candidate bundle root.
pub open spec fn spec_config_marker(p: Seq<Seq<char>>) -> Seq<Seq<char>> {
    p.push("Content"@).push("Config.json"@)
}

/// The minimal on-disk layout required of any bundle: `Content` is a
/// directory and `Content/Config.json` is a regular file.
pub open spec fn spec_valid_bundle_structure(fs: FsView, p: Seq<Seq<char>>) -> bool {
    fs.is_dir(spec_content_dir(p)) && fs.is_file(spec_config_marker(p))
}

/// Does `bundle_path` satisfy the minimal bundle layout in the snapshot `fs`?
///
/// A pure predicate with no error channel: a path the snapshot knows nothing
/// about simply yields `false`.
pub fn valid_bundle_structure(fs: &FsView, bundle_path: &AbsPath) -> (r: bool)
    ensures
        r == spec_valid_bundle_structure(*fs, bundle_path@),
{
    let contents_dir = bundle_path.child("Content");
    let config_file = contents_dir.child("Config.json");
    fs.has_dir(&contents_dir) && fs.has_file(&config_file)
}

} // verus!
