use vstd::prelude::*;
use vstd::string::StrSliceExecFns;

verus! {

/// Character-by-character equality of two string slices.
pub fn str_eq(a: &str, b: &str) -> (r: bool)
    ensures
        r == (a@ == b@),
{
    let la = a.unicode_len();
    let lb = b.unicode_len();
    if la != lb {
        return false;
    }
    let mut i: usize = 0;
    while i < la
        invariant
            la == a@.len(),
            lb == b@.len(),
            la == lb,
            i <= la,
            forall|j: int| 0 <= j < i ==> a@[j] == b@[j],
        decreases la - i,
    {
        if a.get_char(i) != b.get_char(i) {
            return false;
        }
        i += 1;
    }
    proof {
        assert(a@ =~= b@);
    }
    true
}

/// The name ends in `"." + ext` and the dot is not its first character.
///
/// For an `ext` that itself contains no dot, this is exactly the condition
/// under which `Path::extension` on a final component `name` reports `ext`.
pub open spec fn spec_has_dot_ext(name: Seq<char>, ext: Seq<char>) -> bool {
    &&& name.len() >= ext.len() + 2
    &&& name.subrange(name.len() - ext.len(), name.len() as int) == ext
    &&& name[name.len() - ext.len() - 1] == '.'
}

/// Does the final path component `name` carry the extension `ext`?
pub fn has_dot_ext(name: &str, ext: &str) -> (r: bool)
    ensures
        r == spec_has_dot_ext(name@, ext@),
{
    let ln = name.unicode_len();
    let le = ext.unicode_len();
    if ln < 2 || le > ln - 2 {
        return false;
    }
    let mut i: usize = 0;
    while i < le
        invariant
            ln == name@.len(),
            le == ext@.len(),
            2 <= ln,
            le <= ln - 2,
            i <= le,
            forall|j: int| 0 <= j < i ==> name@[ln - le + j] == ext@[j],
        decreases le - i,
    {
        if name.get_char(ln - le + i) != ext.get_char(i) {
            proof {
                assert(name@.subrange(ln - le, ln as int)[i as int] == name@[ln - le + i]);
            }
            return false;
        }
        i += 1;
    }
    if name.get_char(ln - le - 1) != '.' {
        return false;
    }
    proof {
        assert(name@.subrange(ln - le, ln as int) =~= ext@);
    }
    true
}

} // verus!
