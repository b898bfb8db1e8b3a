use vstd::prelude::*;
use crate::abs_path::AbsPath;
use crate::fs_view::FsView;
use crate::text::spec_has_dot_ext;
use crate::valid_bundle_structure::{spec_config_marker, spec_valid_bundle_structure};
use crate::is_bundle_dir::{
    is_app_bundle_dir, is_framework_bundle_dir, is_service_bundle_dir, is_toolset_bundle_dir,
    spec_is_app_bundle_dir, spec_is_framework_bundle_dir, spec_is_service_bundle_dir,
    spec_is_toolset_bundle_dir,
};

verus! {

/// `p` is a bundle directory of one of the four recognized kinds.
pub open spec fn spec_is_bundle_at_path(fs: FsView, p: Seq<Seq<char>>) -> bool {
    ||| spec_is_app_bundle_dir(fs, p)
    ||| spec_is_toolset_bundle_dir(fs, p)
    ||| spec_is_service_bundle_dir(fs, p)
    ||| spec_is_framework_bundle_dir(fs, p)
}

/// Is `path` a bundle directory of any recognized kind?
pub fn is_bundle_at_path(fs: &FsView, path: &AbsPath) -> (r: bool)
    ensures
        r == spec_is_bundle_at_path(*fs, path@),
{
    is_app_bundle_dir(fs, path) || is_toolset_bundle_dir(fs, path)
        || is_service_bundle_dir(fs, path) || is_framework_bundle_dir(fs, path)
}

/// Law: a directory lacking the `Content/Config.json` marker is structurally
/// invalid and is no bundle of any kind, whatever its extension.
pub proof fn lemma_missing_marker_never_bundle(fs: FsView, p: Seq<Seq<char>>)
    requires
        !fs.is_file(spec_config_marker(p)),
    ensures
        !spec_valid_bundle_structure(fs, p),
        !spec_is_app_bundle_dir(fs, p),
        !spec_is_service_bundle_dir(fs, p),
        !spec_is_toolset_bundle_dir(fs, p),
        !spec_is_framework_bundle_dir(fs, p),
        !spec_is_bundle_at_path(fs, p),
{
}

/// A name carrying extension `ext` agrees with `ext` at the second-to-last
/// character.
proof fn lemma_penultimate_char(name: Seq<char>, ext: Seq<char>)
    requires
        ext.len() >= 2,
        spec_has_dot_ext(name, ext),
    ensures
        name[name.len() - 2] == ext[ext.len() - 2],
{
    assert(name.subrange(name.len() - ext.len(), name.len() as int)[ext.len() - 2]
        == name[name.len() - 2]);
}

/// Law: the four recognized extensions are mutually exclusive, so a final
/// component carries at most one of them and a directory belongs to at most
/// one bundle kind.
pub proof fn lemma_bundle_kinds_mutually_exclusive(name: Seq<char>)
    ensures
        spec_has_dot_ext(name, "appd"@) ==> !spec_has_dot_ext(name, "serviced"@),
        spec_has_dot_ext(name, "appd"@) ==> !spec_has_dot_ext(name, "toolsetd"@),
        spec_has_dot_ext(name, "appd"@) ==> !spec_has_dot_ext(name, "frameworkd"@),
        spec_has_dot_ext(name, "serviced"@) ==> !spec_has_dot_ext(name, "toolsetd"@),
        spec_has_dot_ext(name, "serviced"@) ==> !spec_has_dot_ext(name, "frameworkd"@),
        spec_has_dot_ext(name, "toolsetd"@) ==> !spec_has_dot_ext(name, "frameworkd"@),
{
    reveal_strlit("appd");
    reveal_strlit("serviced");
    reveal_strlit("toolsetd");
    reveal_strlit("frameworkd");
    if spec_has_dot_ext(name, "appd"@) {
        lemma_penultimate_char(name, "appd"@);
    }
    if spec_has_dot_ext(name, "serviced"@) {
        lemma_penultimate_char(name, "serviced"@);
    }
    if spec_has_dot_ext(name, "toolsetd"@) {
        lemma_penultimate_char(name, "toolsetd"@);
    }
    if spec_has_dot_ext(name, "frameworkd"@) {
        lemma_penultimate_char(name, "frameworkd"@);
    }
}

} // verus!
