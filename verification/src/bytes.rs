//! Small helpers on byte strings and texts.

use vstd::prelude::*;
use vstd::slice::*;
use vstd::string::*;

verus! {

/// The bytes of `first` followed by the bytes of `second`.
pub fn joined(first: &[u8], second: &[u8]) -> (res: Vec<u8>)
    ensures
        res@ == first@ + second@,
{
    let mut res = slice_to_vec(first);
    res.extend_from_slice(second);
    assert(res@ =~= first@ + second@);
    res
}

/// The bytes of `bytes` as an array of `N` bytes, where there are `N` of
/// them.
pub fn to_array<const N: usize>(bytes: &[u8]) -> (res: Option<[u8; N]>)
    ensures
        res is Some <==> bytes@.len() == N,
        res matches Some(array) ==> array@ == bytes@,
{
    if bytes.len() != N {
        return None;
    }
    let mut array = [0u8;N];
    let mut i: usize = 0;
    while i < N
        invariant
            i <= N,
            bytes@.len() == N,
            forall|j: int| 0 <= j < i ==> array@[j] == bytes@[j],
        decreases N - i,
    {
        array[i] = bytes[i];
        i += 1;
    }
    assert(array@ =~= bytes@);
    Some(array)
}

/// Whether two byte strings hold the same bytes.
pub fn same_bytes(first: &[u8], second: &[u8]) -> (res: bool)
    ensures
        res == (first@ == second@),
{
    if first.len() != second.len() {
        return false;
    }
    let mut i: usize = 0;
    while i < first.len()
        invariant
            i <= first@.len(),
            first@.len() == second@.len(),
            forall|j: int| 0 <= j < i ==> first@[j] == second@[j],
        decreases first@.len() - i,
    {
        if first[i] != second[i] {
            return false;
        }
        i += 1;
    }
    assert(first@ =~= second@);
    true
}

/// Whether two texts are the same.
pub fn same_text(first: &str, second: &str) -> (res: bool)
    ensures
        res == (first@ == second@),
{
    let a = String::from_str(first);
    let b = String::from_str(second);
    a == b
}

} // verus!
