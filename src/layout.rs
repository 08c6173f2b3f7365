use vstd::prelude::*;

verus! {

/// Width of an account identity in bytes.
pub const IDENTITY_LEN: usize = 32;

/// An opaque 32-byte account identity.
pub type Identity = [u8; 32];

/// The byte that stores a boolean flag.
pub open spec fn bool_tag(b: bool) -> u8 {
    if b { 1u8 } else { 0u8 }
}

/// Whether a byte is a well-formed boolean flag.
pub open spec fn is_bool_tag(t: u8) -> bool {
    t == 0 || t == 1
}

/// The view of an optional identity.
pub open spec fn identity_view(id: Option<Identity>) -> Option<Seq<u8>> {
    match id {
        Some(a) => Some(a@),
        None => None,
    }
}

/// The all-zero identity, held by fields of an uninitialized record.
pub fn zero_identity() -> (r: Identity)
    ensures
        r@ == Seq::new(32, |i: int| 0u8),
{
    let r: Identity = [0u8; 32];
    assert(r@ =~= Seq::new(32, |i: int| 0u8));
    r
}

/// Compares two identities byte by byte.
pub fn same_identity(a: &Identity, b: &Identity) -> (r: bool)
    ensures
        r == (a@ == b@),
        r == (*a == *b),
{
    let mut i: usize = 0;
    while i < IDENTITY_LEN
        invariant
            i <= IDENTITY_LEN,
            forall|j: int| 0 <= j < i ==> a@[j] == b@[j],
        decreases IDENTITY_LEN - i,
    {
        if a[i] != b[i] {
            assert(a@[i as int] != b@[i as int]);
            return false;
        }
        i = i + 1;
    }
    assert(a@ =~= b@);
    assert(*a =~= *b);
    true
}

/// Reads the identity stored at `off`.
pub fn read_identity(s: &[u8], off: usize) -> (r: Identity)
    requires
        off + 32 <= s@.len(),
    ensures
        r@ == s@.subrange(off as int, off + 32),
{
    let n: usize = s.len();
    let mut r: Identity = [0u8; 32];
    let mut i: usize = 0;
    while i < IDENTITY_LEN
        invariant
            i <= IDENTITY_LEN,
            n == s@.len(),
            off + 32 <= n,
            forall|j: int| 0 <= j < i ==> r@[j] == s@[off + j],
        decreases IDENTITY_LEN - i,
    {
        r[i] = s[off + i];
        i = i + 1;
    }
    assert(r@ =~= s@.subrange(off as int, off + 32));
    r
}

/// Appends the bytes of an identity.
pub fn push_identity(out: &mut Vec<u8>, id: &Identity)
    ensures
        final(out)@ == old(out)@ + id@,
{
    let ghost start = out@;
    let mut i: usize = 0;
    while i < IDENTITY_LEN
        invariant
            i <= IDENTITY_LEN,
            out@ == start + id@.subrange(0, i as int),
        decreases IDENTITY_LEN - i,
    {
        out.push(id[i]);
        assert(id@.subrange(0, i + 1) =~= id@.subrange(0, i as int).push(id@[i as int]));
        i = i + 1;
    }
    assert(id@.subrange(0, 32) =~= id@);
}

/// Appends a sequence of bytes.
pub fn push_bytes(out: &mut Vec<u8>, b: &Vec<u8>)
    ensures
        final(out)@ == old(out)@ + b@,
{
    let ghost start = out@;
    let mut i: usize = 0;
    while i < b.len()
        invariant
            i <= b@.len(),
            out@ == start + b@.subrange(0, i as int),
        decreases b@.len() - i,
    {
        out.push(b[i]);
        assert(b@.subrange(0, i + 1) =~= b@.subrange(0, i as int).push(b@[i as int]));
        i = i + 1;
    }
    assert(b@.subrange(0, b@.len() as int) =~= b@);
}

} // verus!
