//! Extension and layer names as byte strings (without the terminating NUL),
//! and membership among a device's or an instance's names.
use vstd::prelude::*;

verus! {

/// The byte strings of a list of names.
pub open spec fn name_views(names: Seq<Vec<u8>>) -> Seq<Seq<u8>> {
    names.map_values(|v: Vec<u8>| v@)
}

/// Some name in `names` has the bytes `name`.
pub open spec fn names_contain(names: Seq<Seq<u8>>, name: Seq<u8>) -> bool {
    exists|i: int| 0 <= i < names.len() && names[i] == name
}

/// Every name in `wanted` is among `names`.
pub open spec fn names_contain_all(names: Seq<Seq<u8>>, wanted: Seq<Seq<u8>>) -> bool {
    forall|k: int| 0 <= k < wanted.len() ==> names_contain(names, #[trigger] wanted[k])
}

/// Byte-wise equality of two names.
pub fn name_eq(a: &Vec<u8>, b: &Vec<u8>) -> (r: bool)
    ensures
        r == (a@ == b@),
{
    if a.len() != b.len() {
        return false;
    }
    let mut i: usize = 0;
    while i < a.len()
        invariant
            a@.len() == b@.len(),
            0 <= i <= a@.len(),
            forall|j: int| 0 <= j < i ==> a@[j] == b@[j],
        decreases a@.len() - i,
    {
        if a[i] != b[i] {
            return false;
        }
        i += 1;
    }
    assert(a@ =~= b@);
    true
}

/// Whether `name` is among `names`.
pub fn contains_name(names: &[Vec<u8>], name: &Vec<u8>) -> (r: bool)
    ensures
        r == names_contain(name_views(names@), name@),
{
    let ghost views = name_views(names@);
    let mut i: usize = 0;
    while i < names.len()
        invariant
            0 <= i <= names@.len(),
            views == name_views(names@),
            forall|j: int| 0 <= j < i ==> views[j] != name@,
        decreases names@.len() - i,
    {
        if name_eq(&names[i], name) {
            assert(views[i as int] == name@);
            return true;
        }
        i += 1;
    }
    false
}

} // verus!
