use vstd::prelude::*;
use crate::abs_path::AbsPath;
use crate::fs_view::FsView;
use crate::find_bundle_root::find_bundle_root;
use crate::is_bundle_at_path::spec_is_bundle_at_path;

verus! {

/// Some ancestor directory of `exe` (its parent or higher, the root
/// excluded) is a recognized bundle in the snapshot `fs`.
pub open spec fn spec_launched_from_bundle(fs: FsView, exe: Seq<Seq<char>>) -> bool {
    exe.len() > 0 && exists|k: int|
        1 <= k <= exe.drop_last().len() && spec_is_bundle_at_path(
            fs,
            exe.drop_last().take(k),
        )
}

/// Was the program at `exe_path` launched from inside a bundle?
pub fn is_launched_from_bundle(fs: &FsView, exe_path: &AbsPath) -> (r: bool)
    ensures
        r == spec_launched_from_bundle(*fs, exe_path@),
{
    let root = find_bundle_root(fs, exe_path);
    proof {
        if root is Some {
            let b = root->0;
            assert(spec_is_bundle_at_path(*fs, exe_path@.drop_last().take(b@.len() as int)));
        }
    }
    root.is_some()
}

} // verus!
