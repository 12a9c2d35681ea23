use vstd::prelude::*;

verus! {

/// A fresh vector holding the given bytes.
pub fn bytes_to_vec(bytes: &[u8]) -> (res: Vec<u8>)
    ensures
        res@ == bytes@,
{
    let mut res: Vec<u8> = Vec::new();
    let mut i: usize = 0;
    while i < bytes.len()
        invariant
            0 <= i <= bytes@.len(),
            res@ == bytes@.subrange(0, i as int),
        decreases bytes@.len() - i,
    {
        res.push(bytes[i]);
        i = i + 1;
        assert(res@ =~= bytes@.subrange(0, i as int));
    }
    assert(res@ =~= bytes@);
    res
}

/// Whether two byte strings are equal.
pub fn bytes_eq(a: &[u8], b: &[u8]) -> (res: bool)
    ensures
        res == (a@ == b@),
{
    if a.len() != b.len() {
        return false;
    }
    let mut i: usize = 0;
    while i < a.len()
        invariant
            0 <= i <= a@.len(),
            a@.len() == b@.len(),
            forall|j: int| 0 <= j < i ==> a@[j] == b@[j],
        decreases a@.len() - i,
    {
        if a[i] != b[i] {
            return false;
        }
        i = i + 1;
    }
    assert(a@ =~= b@);
    true
}

/// Copies `src[start..start + 20]` into a fresh array.
pub fn read_array_20(src: &[u8], start: usize) -> (res: [u8; 20])
    requires
        start + 20 <= src@.len(),
    ensures
        res@ == src@.subrange(start as int, start + 20),
{
    let mut res = [0u8; 20];
    let mut i: usize = 0;
    while i < 20
        invariant
            0 <= i <= 20,
            start + 20 <= src.len(),
            res@.len() == 20,
            forall|j: int| 0 <= j < i ==> res@[j] == src@[start + j],
        decreases 20 - i,
    {
        res[i] = src[start + i];
        i = i + 1;
    }
    assert(res@ =~= src@.subrange(start as int, start + 20));
    res
}

/// Copies `src[start..start + 32]` into a fresh array.
pub fn read_array_32(src: &[u8], start: usize) -> (res: [u8; 32])
    requires
        start + 32 <= src@.len(),
    ensures
        res@ == src@.subrange(start as int, start + 32),
{
    let mut res = [0u8; 32];
    let mut i: usize = 0;
    while i < 32
        invariant
            0 <= i <= 32,
            start + 32 <= src.len(),
            res@.len() == 32,
            forall|j: int| 0 <= j < i ==> res@[j] == src@[start + j],
        decreases 32 - i,
    {
        res[i] = src[start + i];
        i = i + 1;
    }
    assert(res@ =~= src@.subrange(start as int, start + 32));
    res
}

/// Appends all of `bytes` to `out`.
pub fn extend_bytes(out: &mut Vec<u8>, bytes: &[u8])
    ensures
        final(out)@ == old(out)@ + bytes@,
{
    let mut i: usize = 0;
    while i < bytes.len()
        invariant
            0 <= i <= bytes@.len(),
            out@ == old(out)@ + bytes@.subrange(0, i as int),
        decreases bytes@.len() - i,
    {
        out.push(bytes[i]);
        i = i + 1;
        assert(out@ =~= old(out)@ + bytes@.subrange(0, i as int));
    }
    assert(bytes@.subrange(0, bytes@.len() as int) =~= bytes@);
}

/// Copies `src[start..start + 64]` into a fresh array.
pub fn read_array_64(src: &[u8], start: usize) -> (res: [u8; 64])
    requires
        start + 64 <= src@.len(),
    ensures
        res@ == src@.subrange(start as int, start + 64),
{
    let mut res = [0u8; 64];
    let mut i: usize = 0;
    while i < 64
        invariant
            0 <= i <= 64,
            start + 64 <= src.len(),
            res@.len() == 64,
            forall|j: int| 0 <= j < i ==> res@[j] == src@[start + j],
        decreases 64 - i,
    {
        res[i] = src[start + i];
        i = i + 1;
    }
    assert(res@ =~= src@.subrange(start as int, start + 64));
    res
}

/// Copies `src[start..start + len]` into a fresh vector.
pub fn copy_range(src: &[u8], start: usize, len: usize) -> (res: Vec<u8>)
    requires
        start + len <= src@.len(),
    ensures
        res@ == src@.subrange(start as int, start + len),
{
    let mut res: Vec<u8> = Vec::new();
    let mut i: usize = 0;
    while i < len
        invariant
            0 <= i <= len,
            start + len <= src.len(),
            res@ == src@.subrange(start as int, start + i),
        decreases len - i,
    {
        res.push(src[start + i]);
        i = i + 1;
        assert(res@ =~= src@.subrange(start as int, start + i));
    }
    res
}

} // verus!
