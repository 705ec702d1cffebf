//! Byte-string helpers shared by the other modules.

use vstd::prelude::*;

verus! {

/// Whether two byte strings hold the same bytes.
pub fn bytes_eq(a: &Vec<u8>, b: &Vec<u8>) -> (same: bool)
    ensures
        same == (a@ == b@),
{
    if a.len() != b.len() {
        return false;
    }
    let mut i: usize = 0;
    while i < a.len()
        invariant
            i <= a.len(),
            a.len() == b.len(),
            forall|j: int| 0 <= j < i ==> a@[j] == b@[j],
        decreases a.len() - i,
    {
        if a[i] != b[i] {
            return false;
        }
        i += 1;
    }
    proof {
        assert(a@ =~= b@);
    }
    true
}

/// A fresh vector holding the same bytes.
pub fn copy_bytes(a: &Vec<u8>) -> (out: Vec<u8>)
    ensures
        out@ == a@,
{
    let mut out: Vec<u8> = Vec::new();
    let mut i: usize = 0;
    while i < a.len()
        invariant
            i <= a.len(),
            out@ == a@.take(i as int),
        decreases a.len() - i,
    {
        out.push(a[i]);
        proof {
            assert(out@ =~= a@.take(i + 1));
        }
        i += 1;
    }
    proof {
        assert(a@.take(a.len() as int) =~= a@);
    }
    out
}

/// The view of a list of byte strings: each element by its bytes.
pub open spec fn paths_view(paths: Vec<Vec<u8>>) -> Seq<Seq<u8>> {
    paths@.map_values(|p: Vec<u8>| p@)
}

/// A fresh list holding the same byte strings in the same order.
pub fn copy_paths(paths: &Vec<Vec<u8>>) -> (out: Vec<Vec<u8>>)
    ensures
        paths_view(out) == paths_view(*paths),
{
    let mut out: Vec<Vec<u8>> = Vec::new();
    let mut i: usize = 0;
    while i < paths.len()
        invariant
            i <= paths.len(),
            out.len() == i,
            forall|j: int| 0 <= j < i ==> out@[j]@ == paths@[j]@,
        decreases paths.len() - i,
    {
        let p = copy_bytes(&paths[i]);
        out.push(p);
        i += 1;
    }
    proof {
        assert(paths_view(out) =~= paths_view(*paths));
    }
    out
}

/// Whether a list of byte strings holds the given one.
pub fn contains_path(paths: &Vec<Vec<u8>>, path: &Vec<u8>) -> (found: bool)
    ensures
        found == paths_view(*paths).contains(path@),
{
    let mut i: usize = 0;
    while i < paths.len()
        invariant
            i <= paths.len(),
            forall|j: int| 0 <= j < i ==> paths_view(*paths)[j] != path@,
        decreases paths.len() - i,
    {
        if bytes_eq(&paths[i], path) {
            proof {
                assert(paths_view(*paths)[i as int] == path@);
            }
            return true;
        }
        i += 1;
    }
    false
}

} // verus!
