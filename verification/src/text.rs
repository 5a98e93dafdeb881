//! Text helpers shared by the catalog and the generators: exact string
//! comparison, the relation "occurs in", and how both behave under UTF-8
//! encoding.

use vstd::prelude::*;
use vstd::utf8::*;

verus! {

/// `part` occurs in `whole` as a contiguous run of elements.
pub open spec fn includes<T>(whole: Seq<T>, part: Seq<T>) -> bool {
    exists|at: int| includes_at(whole, part, at)
}

/// `part` occurs in `whole` starting at index `at`.
pub open spec fn includes_at<T>(whole: Seq<T>, part: Seq<T>, at: int) -> bool {
    &&& 0 <= at
    &&& at + part.len() <= whole.len()
    &&& whole.subrange(at, at + part.len()) == part
}

/// `whole` ends with `tail`.
pub open spec fn ends_with<T>(whole: Seq<T>, tail: Seq<T>) -> bool {
    &&& tail.len() <= whole.len()
    &&& whole.subrange(whole.len() - tail.len(), whole.len() as int) == tail
}

/// A sequence placed between two others occurs in the concatenation.
pub proof fn lemma_includes_middle<T>(before: Seq<T>, part: Seq<T>, after: Seq<T>)
    ensures
        includes(before + part + after, part),
{
    let whole = before + part + after;
    let at = before.len() as int;
    assert(whole.subrange(at, at + part.len()) =~= part);
    assert(includes_at(whole, part, at));
}

/// UTF-8 encoding distributes over concatenation.
pub proof fn lemma_encoding_concat(a: Seq<char>, b: Seq<char>)
    ensures
        encode_utf8(a + b) == encode_utf8(a) + encode_utf8(b),
    decreases a.len(),
{
    if a.len() == 0 {
        assert(a + b =~= b);
        assert(encode_utf8(a) + encode_utf8(b) =~= encode_utf8(b));
    } else {
        lemma_encoding_concat(a.drop_first(), b);
        assert((a + b).drop_first() =~= a.drop_first() + b);
        assert((a + b)[0] == a[0]);
        assert(encode_utf8(a + b) =~= encode_utf8(a) + encode_utf8(b));
    }
}

/// Two character sequences with the same UTF-8 encoding are the same sequence.
pub proof fn lemma_encoding_injective(a: Seq<char>, b: Seq<char>)
    requires
        encode_utf8(a) == encode_utf8(b),
    ensures
        a == b,
{
    encode_utf8_decode_utf8(a);
    encode_utf8_decode_utf8(b);
}

/// What occurs in a text occurs, encoded, in the encoded text.
pub proof fn lemma_encoding_includes(whole: Seq<char>, part: Seq<char>)
    requires
        includes(whole, part),
    ensures
        includes(encode_utf8(whole), encode_utf8(part)),
{
    let at = choose|at: int| includes_at(whole, part, at);
    let before = whole.subrange(0, at);
    let after = whole.subrange(at + part.len(), whole.len() as int);
    assert(whole =~= before + part + after);
    lemma_encoding_concat(before + part, after);
    lemma_encoding_concat(before, part);
    lemma_includes_middle(encode_utf8(before), encode_utf8(part), encode_utf8(after));
}

/// Case-sensitive, exact comparison of two strings.
pub fn str_eq(a: &str, b: &str) -> (same: bool)
    ensures
        same == (a@ == b@),
{
    let x = a.as_bytes();
    let y = b.as_bytes();
    if x.len() != y.len() {
        return false;
    }
    let mut i: usize = 0;
    while i < x.len()
        invariant
            i <= x.len(),
            x.len() == y.len(),
            x@ == encode_utf8(a@),
            y@ == encode_utf8(b@),
            forall|k: int| 0 <= k < i ==> x@[k] == y@[k],
        decreases x.len() - i,
    {
        if x[i] != y[i] {
            return false;
        }
        i += 1;
    }
    proof {
        assert(x@ =~= y@);
        lemma_encoding_injective(a@, b@);
    }
    true
}

/// A copy of a byte slice.
pub fn copy_bytes(bytes: &[u8]) -> (copy: Vec<u8>)
    ensures
        copy@ == bytes@,
{
    let mut copy: Vec<u8> = Vec::new();
    let mut i: usize = 0;
    while i < bytes.len()
        invariant
            i <= bytes.len(),
            copy@ == bytes@.subrange(0, i as int),
        decreases bytes.len() - i,
    {
        copy.push(bytes[i]);
        proof {
            assert(copy@ =~= bytes@.subrange(0, i + 1));
        }
        i += 1;
    }
    proof {
        assert(copy@ =~= bytes@);
    }
    copy
}

/// The bytes of a text, as they are written to a file.
pub fn text_bytes(text: &str) -> (bytes: Vec<u8>)
    ensures
        bytes@ == encode_utf8(text@),
{
    copy_bytes(text.as_bytes())
}

} // verus!
