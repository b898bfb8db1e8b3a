use vstd::prelude::*;
use crate::abs_path::AbsPath;

verus! {

/// A snapshot of the filesystem facts a decision depends on: which of the
/// probed paths are directories and which are regular files.
///
/// The caller collects the snapshot (by whatever means it reads the disk)
/// and every judgement of this crate is then a verified function of it.
pub struct FsView {
    pub dirs: Vec<AbsPath>,
    pub files: Vec<AbsPath>,
}

impl FsView {
    /// The snapshot records `p` as a directory.
    pub open spec fn is_dir(self, p: Seq<Seq<char>>) -> bool {
        exists|i: int| 0 <= i < self.dirs@.len() && self.dirs@[i]@ == p
    }

    /// The snapshot records `p` as a regular file.
    pub open spec fn is_file(self, p: Seq<Seq<char>>) -> bool {
        exists|i: int| 0 <= i < self.files@.len() && self.files@[i]@ == p
    }

    /// An empty snapshot: nothing is known to exist.
    pub fn new() -> (r: FsView)
        ensures
            forall|p: Seq<Seq<char>>| !r.is_dir(p),
            forall|p: Seq<Seq<char>>| !r.is_file(p),
    {
        FsView { dirs: Vec::new(), files: Vec::new() }
    }

    /// Record that `p` is a directory.
    pub fn add_dir(&mut self, p: AbsPath)
        ensures
            forall|q: Seq<Seq<char>>|
                final(self).is_dir(q) == (old(self).is_dir(q) || q == p@),
            forall|q: Seq<Seq<char>>| final(self).is_file(q) == old(self).is_file(q),
    {
        let ghost pv = p@;
        self.dirs.push(p);
        proof {
            assert forall|q: Seq<Seq<char>>|
                self.is_dir(q) == (old(self).is_dir(q) || q == pv) by {
                if old(self).is_dir(q) {
                    let i = choose|i: int|
                        0 <= i < old(self).dirs@.len() && old(self).dirs@[i]@ == q;
                    assert(self.dirs@[i]@ == q);
                }
                if q == pv {
                    assert(self.dirs@[self.dirs@.len() - 1]@ == q);
                }
            }
            assert forall|q: Seq<Seq<char>>|
                self.is_file(q) == old(self).is_file(q) by {
                if old(self).is_file(q) {
                    let i = choose|i: int|
                        0 <= i < old(self).files@.len() && old(self).files@[i]@ == q;
                    assert(self.files@[i]@ == q);
                }
                if self.is_file(q) {
                    let i = choose|i: int|
                        0 <= i < self.files@.len() && self.files@[i]@ == q;
                    assert(old(self).files@[i]@ == q);
                }
            }
        }
    }

    /// Record that `p` is a regular file.
    pub fn add_file(&mut self, p: AbsPath)
        ensures
            forall|q: Seq<Seq<char>>|
                final(self).is_file(q) == (old(self).is_file(q) || q == p@),
            forall|q: Seq<Seq<char>>| final(self).is_dir(q) == old(self).is_dir(q),
    {
        let ghost pv = p@;
        self.files.push(p);
        proof {
            assert forall|q: Seq<Seq<char>>|
                self.is_file(q) == (old(self).is_file(q) || q == pv) by {
                if old(self).is_file(q) {
                    let i = choose|i: int|
                        0 <= i < old(self).files@.len() && old(self).files@[i]@ == q;
                    assert(self.files@[i]@ == q);
                }
                if q == pv {
                    assert(self.files@[self.files@.len() - 1]@ == q);
                }
            }
            assert forall|q: Seq<Seq<char>>|
                self.is_dir(q) == old(self).is_dir(q) by {
                if old(self).is_dir(q) {
                    let i = choose|i: int|
                        0 <= i < old(self).dirs@.len() && old(self).dirs@[i]@ == q;
                    assert(self.dirs@[i]@ == q);
                }
                if self.is_dir(q) {
                    let i = choose|i: int|
                        0 <= i < self.dirs@.len() && self.dirs@[i]@ == q;
                    assert(old(self).dirs@[i]@ == q);
                }
            }
        }
    }

    /// Is `p` recorded as a directory?
    pub fn has_dir(&self, p: &AbsPath) -> (r: bool)
        ensures
            r == self.is_dir(p@),
    {
        let mut i: usize = 0;
        while i < self.dirs.len()
            invariant
                i <= self.dirs@.len(),
                forall|j: int| 0 <= j < i ==> self.dirs@[j]@ != p@,
            decreases self.dirs@.len() - i,
        {
            if self.dirs[i].path_eq(p) {
                return true;
            }
            i += 1;
        }
        false
    }

    /// Is `p` recorded as a regular file?
    pub fn has_file(&self, p: &AbsPath) -> (r: bool)
        ensures
            r == self.is_file(p@),
    {
        let mut i: usize = 0;
        while i < self.files.len()
            invariant
                i <= self.files@.len(),
                forall|j: int| 0 <= j < i ==> self.files@[j]@ != p@,
            decreases self.files@.len() - i,
        {
            if self.files[i].path_eq(p) {
                return true;
            }
            i += 1;
        }
        false
    }
}

} // verus!
