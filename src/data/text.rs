//! Text helpers shared by the catalogue.
use vstd::prelude::*;
use vstd::utf8::*;

verus! {

/// Length in bytes of the UTF-8 encoding of `s`, as `str::len` counts it.
pub open spec fn utf8_len(s: Seq<char>) -> nat {
    encode_utf8(s).len()
}

/// Length in bytes of `s`.
pub fn byte_len(s: &str) -> (r: usize)
    ensures
        r == utf8_len(s@),
{
    let b = s.as_bytes();
    assert(b@ == encode_utf8(s@));
    b.len()
}

/// Compares two strings character by character.
pub fn str_eq(a: &str, b: &str) -> (r: bool)
    ensures
        r == (a@ == b@),
{
    let x = a.as_bytes();
    let y = b.as_bytes();
    assert(x@ == encode_utf8(a@));
    assert(y@ == encode_utf8(b@));
    proof {
        encode_utf8_decode_utf8(a@);
        encode_utf8_decode_utf8(b@);
    }
    if x.len() != y.len() {
        assert(x@.len() != y@.len());
        return false;
    }
    let mut i: usize = 0;
    while i < x.len()
        invariant
            x@ == encode_utf8(a@),
            y@ == encode_utf8(b@),
            x@.len() == y@.len(),
            i <= x@.len(),
            forall|j: int| 0 <= j < i ==> x@[j] == y@[j],
        decreases x@.len() - i,
    {
        if x[i] != y[i] {
            assert(x@ != y@);
            return false;
        }
        i = i + 1;
    }
    assert(x@ =~= y@);
    true
}

} // verus!
