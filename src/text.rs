use vstd::prelude::*;

verus! {

/// What `String::from_utf8_lossy` makes of a byte sequence: each invalid
/// UTF-8 sequence becomes U+FFFD, the rest is decoded as it stands.
pub uninterp spec fn utf8_lossy(b: Seq<u8>) -> Seq<char>;

/// Relies on `String::from_utf8_lossy` (made owned with `Cow::into_owned`):
/// the text depends on the bytes alone.
#[verifier::external_body]
fn from_utf8_lossy(b: &[u8]) -> (r: String)
    ensures
        r@ == utf8_lossy(b@),
{
    String::from_utf8_lossy(b).into_owned()
}

/// The index of the first NUL byte of `b` at or after `i`, or `b.len()`.
pub open spec fn nul_index_from(b: Seq<u8>, i: int) -> int
    decreases b.len() - i,
{
    if i >= b.len() {
        b.len() as int
    } else if b[i] == 0 {
        i
    } else {
        nul_index_from(b, i + 1)
    }
}

/// The length of the NUL-terminated text at the start of `b`; the whole
/// buffer when it holds no NUL.
pub open spec fn c_str_len(b: Seq<u8>) -> int {
    nul_index_from(b, 0)
}

/// The bytes of the NUL-terminated text at the start of `b`.
pub open spec fn c_str(b: Seq<u8>) -> Seq<u8> {
    b.subrange(0, c_str_len(b))
}

/// The length of the NUL-terminated text at the start of `buf`.
pub fn c_str_length(buf: &[u8]) -> (r: usize)
    ensures
        r == c_str_len(buf@),
        r <= buf@.len(),
        forall|j: int| 0 <= j < r ==> buf@[j] != 0,
        r < buf@.len() ==> buf@[r as int] == 0,
{
    let mut i: usize = 0;
    while i < buf.len() && buf[i] != 0
        invariant
            i <= buf@.len(),
            nul_index_from(buf@, i as int) == c_str_len(buf@),
            forall|j: int| 0 <= j < i ==> buf@[j] != 0,
        decreases buf@.len() - i,
    {
        i = i + 1;
    }
    i
}

/// The text held by a fixed-capacity, NUL-terminated character buffer,
/// read up to its first NUL (or its end) and decoded as lossy UTF-8.
pub fn c_string(buf: &[u8]) -> (r: String)
    ensures
        r@ == utf8_lossy(c_str(buf@)),
{
    let n = c_str_length(buf);
    let text: &[u8] = &buf[0..n];
    from_utf8_lossy(text)
}

} // verus!
