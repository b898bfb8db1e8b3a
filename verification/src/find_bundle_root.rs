use vstd::prelude::*;
use crate::abs_path::AbsPath;
use crate::fs_view::FsView;
use crate::is_bundle_at_path::{is_bundle_at_path, spec_is_bundle_at_path};

verus! {

/// Finds the root of the bundle that `exe_path` was launched from, in the
/// snapshot `fs`.
///
/// The walk starts at the parent directory of `exe_path` and climbs towards
/// the filesystem root, collecting every ancestor that is a recognized
/// bundle. The outermost (root-most) such ancestor wins, so a bundle nested
/// inside another bundle resolves to the outer one. If the walk finds no
/// bundle, the result is `None`. Candidates already recorded are never
/// discarded: however the walk ends, the best candidate found so far is
/// returned.
pub fn find_bundle_root(fs: &FsView, exe_path: &AbsPath) -> (r: Option<AbsPath>)
    ensures
        exe_path@.len() == 0 ==> r is None,
        r matches Some(b) ==> ({
            let start = exe_path@.drop_last();
            &&& exe_path@.len() > 0
            &&& 1 <= b@.len() <= start.len()
            &&& b@ == start.take(b@.len() as int)
            &&& spec_is_bundle_at_path(*fs, b@)
            &&& forall|k: int|
                1 <= k < b@.len() ==> !spec_is_bundle_at_path(*fs, start.take(k))
        }),
        (exe_path@.len() > 0 && r is None) ==> (forall|k: int|
            1 <= k <= exe_path@.drop_last().len()
                ==> !spec_is_bundle_at_path(*fs, exe_path@.drop_last().take(k))),
{
    let mut current = match exe_path.parent() {
        None => {
            return None;
        },
        Some(p) => p,
    };
    let ghost start = exe_path@.drop_last();
    proof {
        assert(start.take(start.len() as int) =~= start);
    }
    let mut found: Vec<AbsPath> = Vec::new();
    loop
        invariant_except_break
            current@.len() <= start.len(),
            current@ == start.take(current@.len() as int),
            (found@.len() > 0 ==> {
                let b = found@.last()@;
                &&& current@.len() < b.len() <= start.len()
                &&& b == start.take(b.len() as int)
                &&& spec_is_bundle_at_path(*fs, b)
                &&& forall|k: int|
                    current@.len() < k < b.len()
                        ==> !spec_is_bundle_at_path(*fs, start.take(k))
            }),
            (found@.len() == 0 ==> forall|k: int|
                current@.len() < k <= start.len()
                    ==> !spec_is_bundle_at_path(*fs, start.take(k))),
        ensures
            (found@.len() > 0 ==> {
                let b = found@.last()@;
                &&& 1 <= b.len() <= start.len()
                &&& b == start.take(b.len() as int)
                &&& spec_is_bundle_at_path(*fs, b)
                &&& forall|k: int|
                    1 <= k < b.len() ==> !spec_is_bundle_at_path(*fs, start.take(k))
            }),
            (found@.len() == 0 ==> forall|k: int|
                1 <= k <= start.len() ==> !spec_is_bundle_at_path(*fs, start.take(k))),
        decreases current@.len(),
    {
        if is_bundle_at_path(fs, &current) {
            found.push(current.clone_path());
        }
        if current.depth() <= 1 {
            break;
        }
        current = match current.parent() {
            Some(p) => p,
            None => unreached(),
        };
        proof {
            assert(current@ =~= start.take(current@.len() as int));
        }
    }
    if found.len() == 0 {
        None
    } else {
        Some(found[found.len() - 1].clone_path())
    }
}

} // verus!
