use vstd::prelude::*;
use crate::abs_path::AbsPath;
use crate::fs_view::FsView;
use crate::text::{has_dot_ext, spec_has_dot_ext};
use crate::valid_bundle_structure::{spec_valid_bundle_structure, valid_bundle_structure};

verus! {

/// A directory is a bundle of the kind marked by `ext` when the snapshot
/// records it as a directory, its final component carries the extension
/// `ext`, and the minimal bundle layout is present below it.
pub open spec fn spec_is_kind_bundle_dir(
    fs: FsView,
    p: Seq<Seq<char>>,
    ext: Seq<char>,
) -> bool {
    &&& fs.is_dir(p)
    &&& p.len() > 0
    &&& spec_has_dot_ext(p.last(), ext)
    &&& spec_valid_bundle_structure(fs, p)
}

pub open spec fn spec_is_app_bundle_dir(fs: FsView, p: Seq<Seq<char>>) -> bool {
    spec_is_kind_bundle_dir(fs, p, "appd"@)
}

pub open spec fn spec_is_service_bundle_dir(fs: FsView, p: Seq<Seq<char>>) -> bool {
    spec_is_kind_bundle_dir(fs, p, "serviced"@)
}

pub open spec fn spec_is_toolset_bundle_dir(fs: FsView, p: Seq<Seq<char>>) -> bool {
    spec_is_kind_bundle_dir(fs, p, "toolsetd"@)
}

pub open spec fn spec_is_framework_bundle_dir(fs: FsView, p: Seq<Seq<char>>) -> bool {
    spec_is_kind_bundle_dir(fs, p, "frameworkd"@)
}

/// Does the final component of `path` carry the extension `ext`?
fn final_component_has_ext(path: &AbsPath, ext: &str) -> (r: bool)
    ensures
        r == (path@.len() > 0 && spec_has_dot_ext(path@.last(), ext@)),
{
    match path.last_component() {
        None => false,
        Some(name) => has_dot_ext(name.as_str(), ext),
    }
}

/// Is `path` an application bundle directory (extension `.appd`)?
pub fn is_app_bundle_dir(fs: &FsView, path: &AbsPath) -> (r: bool)
    ensures
        r == spec_is_app_bundle_dir(*fs, path@),
{
    fs.has_dir(path) && final_component_has_ext(path, "appd")
        && valid_bundle_structure(fs, path)
}

/// Is `path` a service bundle directory (extension `.serviced`)?
pub fn is_service_bundle_dir(fs: &FsView, path: &AbsPath) -> (r: bool)
    ensures
        r == spec_is_service_bundle_dir(*fs, path@),
{
    fs.has_dir(path) && final_component_has_ext(path, "serviced")
        && valid_bundle_structure(fs, path)
}

/// Is `path` a toolset bundle directory (extension `.toolsetd`)?
pub fn is_toolset_bundle_dir(fs: &FsView, path: &AbsPath) -> (r: bool)
    ensures
        r == spec_is_toolset_bundle_dir(*fs, path@),
{
    fs.has_dir(path) && final_component_has_ext(path, "toolsetd")
        && valid_bundle_structure(fs, path)
}

/// Is `path` a framework bundle directory (extension `.frameworkd`)?
pub fn is_framework_bundle_dir(fs: &FsView, path: &AbsPath) -> (r: bool)
    ensures
        r == spec_is_framework_bundle_dir(*fs, path@),
{
    fs.has_dir(path) && final_component_has_ext(path, "frameworkd")
        && valid_bundle_structure(fs, path)
}

} // verus!
