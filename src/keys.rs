//! Fixed-size identifiers and the capability gate that compares them.
use vstd::prelude::*;

verus! {

/// A 32-byte opaque identifier: a dataset, an identity hash, a signer.
pub type Key = [u8; 32];

/// Tells whether two identifiers are equal, byte by byte.
pub fn keys_equal(a: &Key, b: &Key) -> (r: bool)
    ensures
        r == (*a == *b),
{
    let mut i: usize = 0;
    while i < 32
        invariant
            0 <= i <= 32,
            forall|j: int| 0 <= j < i ==> a[j] == b[j],
        decreases 32 - i,
    {
        if a[i] != b[i] {
            return false;
        }
        i = i + 1;
    }
    assert(*a =~= *b);
    true
}

/// The single authorization gate: `caller` may act only as `required`.
pub fn authorize(caller: &Key, required: &Key) -> (r: bool)
    ensures
        r == (*caller == *required),
{
    keys_equal(caller, required)
}

/// Tells whether `k` is one of `list`'s entries.
pub fn contains_key(list: &Vec<Key>, k: &Key) -> (r: bool)
    ensures
        r == list@.contains(*k),
{
    let mut i: usize = 0;
    while i < list.len()
        invariant
            0 <= i <= list@.len(),
            forall|j: int| 0 <= j < i ==> list@[j] != *k,
        decreases list@.len() - i,
    {
        if keys_equal(&list[i], k) {
            return true;
        }
        i = i + 1;
    }
    false
}

} // verus!
