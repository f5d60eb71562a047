use vstd::prelude::*;

verus! {

/// A 32-byte opaque address naming an account, a party or a program.
pub type Identity = [u8; 32];

/// The identity with no bytes set, which stands for an absent party.
pub open spec fn zero_identity() -> Identity {
    [0u8; 32usize]
}

/// Compares two identities byte by byte.
pub fn identities_equal(a: &Identity, b: &Identity) -> (r: bool)
    ensures
        r == (a@ == b@),
{
    let mut i: usize = 0;
    while i < 32
        invariant
            0 <= i <= 32,
            a@.subrange(0, i as int) == b@.subrange(0, i as int),
        decreases 32 - i,
    {
        if a[i] != b[i] {
            assert(a@[i as int] != b@[i as int]);
            return false;
        }
        assert(a@.subrange(0, i + 1) =~= a@.subrange(0, i as int).push(a@[i as int]));
        assert(b@.subrange(0, i + 1) =~= b@.subrange(0, i as int).push(b@[i as int]));
        i = i + 1;
    }
    assert(a@ =~= a@.subrange(0, 32));
    assert(b@ =~= b@.subrange(0, 32));
    true
}

/// Copies the 32 bytes at `offset` out of `src`.
pub fn read_identity(src: &[u8], offset: usize) -> (r: Identity)
    requires
        offset + 32 <= src@.len(),
    ensures
        r@ == src@.subrange(offset as int, offset + 32),
{
    let len = src.len();
    let mut r: Identity = [0u8; 32];
    let mut i: usize = 0;
    while i < 32
        invariant
            0 <= i <= 32,
            offset + 32 <= src@.len() == len,
            r@.len() == 32,
            forall|j: int| 0 <= j < i ==> r@[j] == src@[offset + j],
        decreases 32 - i,
    {
        r[i] = src[offset + i];
        i = i + 1;
    }
    assert(r@ =~= src@.subrange(offset as int, offset + 32));
    r
}

/// Appends the bytes of an identity to `out`.
pub fn push_identity(out: &mut Vec<u8>, id: &Identity)
    ensures
        final(out)@ == old(out)@ + id@,
{
    let mut i: usize = 0;
    while i < 32
        invariant
            0 <= i <= 32,
            out@ == old(out)@ + id@.subrange(0, i as int),
        decreases 32 - i,
    {
        out.push(id[i]);
        assert(id@.subrange(0, i + 1) =~= id@.subrange(0, i as int).push(id@[i as int]));
        i = i + 1;
    }
    assert(id@.subrange(0, 32) =~= id@);
}

} // verus!
