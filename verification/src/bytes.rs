//! Small verified helpers over byte vectors: copying, concatenating,
//! slicing, and comparing.

use vstd::prelude::*;

verus! {

/// Returns a copy of `src`.
pub fn copy_bytes(src: &Vec<u8>) -> (r: Vec<u8>)
    ensures
        r@ == src@,
{
    let mut out: Vec<u8> = Vec::new();
    let mut i: usize = 0;
    while i < src.len()
        invariant
            i <= src.len(),
            out@ =~= src@.subrange(0, i as int),
        decreases src.len() - i,
    {
        out.push(src[i]);
        i = i + 1;
    }
    assert(out@ =~= src@);
    out
}

/// Appends all of `src` to `dst`.
pub fn push_bytes(dst: &mut Vec<u8>, src: &Vec<u8>)
    ensures
        final(dst)@ == old(dst)@ + src@,
{
    let mut i: usize = 0;
    while i < src.len()
        invariant
            i <= src.len(),
            dst@ =~= old(dst)@ + src@.subrange(0, i as int),
        decreases src.len() - i,
    {
        dst.push(src[i]);
        i = i + 1;
    }
    assert(dst@ =~= old(dst)@ + src@);
}

/// Returns `src[start .. start + len]` as a fresh vector.
pub fn sub_bytes(src: &Vec<u8>, start: usize, len: usize) -> (r: Vec<u8>)
    requires
        start + len <= src@.len(),
    ensures
        r@ == src@.subrange(start as int, start + len),
{
    let n = src.len();
    let mut out: Vec<u8> = Vec::new();
    let mut i: usize = 0;
    while i < len
        invariant
            i <= len,
            start + len <= n,
            n == src@.len(),
            out@ =~= src@.subrange(start as int, start + i),
        decreases len - i,
    {
        out.push(src[start + i]);
        i = i + 1;
    }
    out
}

/// Compares two byte vectors for equality of contents.
pub fn bytes_eq(a: &Vec<u8>, b: &Vec<u8>) -> (r: bool)
    ensures
        r == (a@ == b@),
{
    if a.len() != b.len() {
        assert(a@ != b@);
        return false;
    }
    let mut i: usize = 0;
    while i < a.len()
        invariant
            i <= a.len(),
            a@.len() == b@.len(),
            forall|j: int| 0 <= j < i ==> a@[j] == b@[j],
        decreases a.len() - i,
    {
        if a[i] != b[i] {
            return false;
        }
        i = i + 1;
    }
    assert(a@ =~= b@);
    true
}

/// Returns `len` zero bytes.
pub fn zero_bytes(len: usize) -> (r: Vec<u8>)
    ensures
        r@.len() == len,
        forall|j: int| 0 <= j < len ==> r@[j] == 0u8,
{
    let mut out: Vec<u8> = Vec::new();
    let mut i: usize = 0;
    while i < len
        invariant
            i <= len,
            out@.len() == i as int,
            forall|j: int| 0 <= j < i ==> out@[j] == 0u8,
        decreases len - i,
    {
        out.push(0);
        i = i + 1;
    }
    out
}

} // verus!
