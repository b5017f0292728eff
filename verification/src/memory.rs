//! Byte-wise memory routines: copy, fill and compare.

use vstd::prelude::*;

verus! {

/// Copies the first `n` bytes of `src` to the start of `dest` and leaves the
/// rest of `dest` as it is.
pub fn memcpy(dest: &mut [u8], src: &[u8], n: usize)
    requires
        n <= old(dest)@.len(),
        n <= src@.len(),
    ensures
        final(dest)@.len() == old(dest)@.len(),
        forall|i: int| 0 <= i < n ==> final(dest)@[i] == src@[i],
        forall|i: int| n <= i < old(dest)@.len() ==> final(dest)@[i] == old(dest)@[i],
{
    for i in 0..n
        invariant
            n <= dest@.len(),
            n <= src@.len(),
            dest@.len() == old(dest)@.len(),
            forall|k: int| 0 <= k < i ==> dest@[k] == src@[k],
            forall|k: int| i <= k < dest@.len() ==> dest@[k] == old(dest)@[k],
    {
        dest[i] = src[i];
    }
}

/// Sets the first `n` bytes of `s` to the low byte of `c` and leaves the
/// rest of `s` as it is.
pub fn memset(s: &mut [u8], c: i32, n: usize)
    requires
        n <= old(s)@.len(),
    ensures
        final(s)@.len() == old(s)@.len(),
        forall|i: int| 0 <= i < n ==> final(s)@[i] == c % 256,
        forall|i: int| n <= i < old(s)@.len() ==> final(s)@[i] == old(s)@[i],
{
    let byte: u8 = #[verifier::truncate] (c as u8);
    assert(byte == c % 256) by (bit_vector)
        requires
            byte == c as u8,
    ;
    for i in 0..n
        invariant
            n <= s@.len(),
            s@.len() == old(s)@.len(),
            forall|k: int| 0 <= k < i ==> s@[k] == byte,
            forall|k: int| i <= k < s@.len() ==> s@[k] == old(s)@[k],
    {
        s[i] = byte;
    }
}

/// Tells whether the first `n` bytes of two regions differ: 0 if they are
/// the same byte for byte, 1 if not.
pub fn bcmp(s1: &[u8], s2: &[u8], n: usize) -> (result: i32)
    requires
        n <= s1@.len(),
        n <= s2@.len(),
    ensures
        result == 0 || result == 1,
        result == 0 <==> forall|i: int| 0 <= i < n ==> s1@[i] == s2@[i],
{
    for i in 0..n
        invariant
            n <= s1@.len(),
            n <= s2@.len(),
            forall|k: int| 0 <= k < i ==> s1@[k] == s2@[k],
    {
        if s1[i] != s2[i] {
            return 1;
        }
    }
    0
}

} // verus!
