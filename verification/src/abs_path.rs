use vstd::prelude::*;
use vstd::string::StringExecFns;
use crate::text::str_eq;

verus! {

/// An absolute directory or file path, held as its components below the
/// filesystem root. The root itself is the empty sequence of components.
pub struct AbsPath {
    pub components: Vec<String>,
}

impl View for AbsPath {
    type V = Seq<Seq<char>>;

    open spec fn view(&self) -> Seq<Seq<char>> {
        self.components@.map_values(|s: String| s@)
    }
}

impl AbsPath {
    /// The filesystem root, `/`.
    pub fn root() -> (r: AbsPath)
        ensures
            r@ == Seq::<Seq<char>>::empty(),
    {
        let r = AbsPath { components: Vec::new() };
        proof {
            assert(r@ =~= Seq::<Seq<char>>::empty());
        }
        r
    }

    /// How many components lie below the root.
    pub fn depth(&self) -> (n: usize)
        ensures
            n == self@.len(),
    {
        self.components.len()
    }

    /// An identical copy of this path.
    pub fn clone_path(&self) -> (r: AbsPath)
        ensures
            r@ == self@,
    {
        let mut out: Vec<String> = Vec::new();
        let mut i: usize = 0;
        while i < self.components.len()
            invariant
                i <= self.components@.len(),
                out@.len() == i,
                forall|j: int| 0 <= j < i ==> out@[j]@ == self.components@[j]@,
            decreases self.components@.len() - i,
        {
            out.push(self.components[i].clone());
            i += 1;
        }
        let r = AbsPath { components: out };
        proof {
            assert(r@ =~= self@);
        }
        r
    }

    /// The path one component further down, named `name`.
    pub fn child(&self, name: &str) -> (r: AbsPath)
        ensures
            r@ == self@.push(name@),
    {
        let mut r = self.clone_path();
        r.components.push(String::from_str(name));
        proof {
            assert(r@ =~= self@.push(name@));
        }
        r
    }

    /// The containing directory, or `None` for the root.
    pub fn parent(&self) -> (r: Option<AbsPath>)
        ensures
            self@.len() == 0 ==> r is None,
            self@.len() > 0 ==> (r matches Some(p) && p@ == self@.drop_last()),
    {
        if self.components.len() == 0 {
            None
        } else {
            let mut p = self.clone_path();
            let _last = p.components.pop();
            proof {
                assert(p@ =~= self@.drop_last());
            }
            Some(p)
        }
    }

    /// The final component, or `None` for the root.
    pub fn last_component(&self) -> (r: Option<&String>)
        ensures
            self@.len() == 0 ==> r is None,
            self@.len() > 0 ==> (r matches Some(s) && s@ == self@.last()),
    {
        if self.components.len() == 0 {
            None
        } else {
            Some(&self.components[self.components.len() - 1])
        }
    }

    /// Component-wise equality of two paths.
    pub fn path_eq(&self, other: &AbsPath) -> (r: bool)
        ensures
            r == (self@ == other@),
    {
        proof {
            assert(self@.len() == self.components@.len());
            assert(other@.len() == other.components@.len());
        }
        if self.components.len() != other.components.len() {
            return false;
        }
        let mut i: usize = 0;
        while i < self.components.len()
            invariant
                self.components@.len() == other.components@.len(),
                i <= self.components@.len(),
                forall|j: int| 0 <= j < i ==> self@[j] == other@[j],
            decreases self.components@.len() - i,
        {
            if !str_eq(self.components[i].as_str(), other.components[i].as_str()) {
                proof {
                    assert(self@[i as int] == self.components@[i as int]@);
                    assert(other@[i as int] == other.components@[i as int]@);
                }
                return false;
            }
            i += 1;
        }
        proof {
            assert(self@ =~= other@);
        }
        true
    }
}

} // verus!
