use vstd::prelude::*;
use vstd::utf8::*;
use vstd::string::*;

verus! {

broadcast use vstd::utf8::group_utf8_lib;

/// Compares two string slices by their bytes: equal bytes mean equal characters,
/// because UTF-8 decoding undoes encoding.
pub fn str_eq(a: &str, b: &str) -> (r: bool)
    ensures
        r == (a@ == b@),
{
    let x = a.as_bytes();
    let y = b.as_bytes();
    proof {
        encode_utf8_decode_utf8(a@);
        encode_utf8_decode_utf8(b@);
    }
    if x.len() != y.len() {
        return false;
    }
    let mut i: usize = 0;
    while i < x.len()
        invariant
            x@ == encode_utf8(a@),
            y@ == encode_utf8(b@),
            x@.len() == y@.len(),
            i <= x@.len(),
            forall|j: int| 0 <= j < i ==> x@[j] == y@[j],
        decreases x@.len() - i,
    {
        if x[i] != y[i] {
            return false;
        }
        i += 1;
    }
    assert(x@ =~= y@);
    true
}

/// Whatever either part of a concatenation contains, the concatenation contains.
pub proof fn lemma_concat_contains<A>(a: Seq<A>, b: Seq<A>)
    ensures
        forall|x: A| a.contains(x) ==> #[trigger] (a + b).contains(x),
        forall|x: A| b.contains(x) ==> #[trigger] (a + b).contains(x),
{
    assert forall|x: A| a.contains(x) implies #[trigger] (a + b).contains(x) by {
        let j = choose|j: int| 0 <= j < a.len() && a[j] == x;
        assert((a + b)[j] == x);
    }
    assert forall|x: A| b.contains(x) implies #[trigger] (a + b).contains(x) by {
        let j = choose|j: int| 0 <= j < b.len() && b[j] == x;
        assert((a + b)[a.len() + j] == x);
    }
}

/// The characters that `bytes[start..end]` encode, when those bytes are well-formed UTF-8.
pub open spec fn text_in(source: Seq<u8>, start: int, end: int) -> Option<Seq<char>> {
    let bytes = source.subrange(start, end);
    if valid_utf8(bytes) {
        Some(decode_utf8(bytes))
    } else {
        None
    }
}

/// `std::str::from_utf8`: succeeds exactly when `bytes` are well-formed UTF-8, and then
/// gives back the characters they encode. Both facts are what the standard library
/// documents for this function, stated with vstd's model of UTF-8.
#[verifier::external_body]
fn str_from_utf8(bytes: &[u8]) -> (r: Option<&str>)
    ensures
        r is Some <==> valid_utf8(bytes@),
        r matches Some(s) ==> s@ == decode_utf8(bytes@),
{
    std::str::from_utf8(bytes).ok()
}

/// Decodes `source[start..end]` as UTF-8 text.
pub fn slice_text(source: &[u8], start: usize, end: usize) -> (r: Option<&str>)
    requires
        start <= end <= source@.len(),
    ensures
        match r {
            Some(s) => text_in(source@, start as int, end as int) == Some(s@),
            None => text_in(source@, start as int, end as int) is None,
        },
{
    let bytes = &source[start..end];
    str_from_utf8(bytes)
}

} // verus!
