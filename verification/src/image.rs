//! How 32-bit words lie in memory as bytes.
//!
//! A shader reads a uniform block as the bytes that the host's words occupy.
//! The byte order is the machine's own, so every statement here allows for
//! both orders and fixes everything else: the length, and which word each byte
//! belongs to.

use vstd::prelude::*;

verus! {

/// The four bytes of `w`, lowest address first, in little-endian order when
/// `little` holds and in big-endian order otherwise.
pub open spec fn word_image(w: u32, little: bool) -> Seq<u8> {
    let b0 = (w as int % 0x100) as u8;
    let b1 = (w as int / 0x100 % 0x100) as u8;
    let b2 = (w as int / 0x1_0000 % 0x100) as u8;
    let b3 = (w as int / 0x100_0000 % 0x100) as u8;
    if little {
        seq![b0, b1, b2, b3]
    } else {
        seq![b3, b2, b1, b0]
    }
}

/// The bytes of a run of words laid end to end, each in the given order.
pub open spec fn image(words: Seq<u32>, little: bool) -> Seq<u8> {
    Seq::new(4 * words.len(), |i: int| word_image(words[i / 4], little)[i % 4])
}

/// `bytes` is what `words` occupy in memory on a little-endian or on a
/// big-endian machine.
pub open spec fn is_memory_image(bytes: Seq<u8>, words: Seq<u32>) -> bool {
    bytes == image(words, true) || bytes == image(words, false)
}

/// A word can be read back from its four bytes: the image loses nothing.
pub proof fn lemma_word_image_injective(v: u32, w: u32, little: bool)
    requires
        word_image(v, little) == word_image(w, little),
    ensures
        v == w,
{
    let a = word_image(v, little);
    let b = word_image(w, little);
    assert(a[0] == b[0] && a[1] == b[1] && a[2] == b[2] && a[3] == b[3]);
}

/// Two runs of words with the same image are the same run.
pub proof fn lemma_image_injective(a: Seq<u32>, b: Seq<u32>, little: bool)
    requires
        image(a, little) == image(b, little),
    ensures
        a == b,
{
    assert(image(a, little).len() == 4 * a.len());
    assert(image(b, little).len() == 4 * b.len());
    assert(a.len() == b.len());
    assert forall|k: int| 0 <= k < a.len() implies a[k] == b[k] by {
        let x = word_image(a[k], little);
        let y = word_image(b[k], little);
        assert forall|r: int| 0 <= r < 4 implies x[r] == y[r] by {
            let i = 4 * k + r;
            assert(i / 4 == k && i % 4 == r);
            assert(image(a, little)[i] == x[r]);
            assert(image(b, little)[i] == y[r]);
        }
        assert(x =~= y);
        lemma_word_image_injective(a[k], b[k], little);
    }
    assert(a =~= b);
}

/// Views a run of words as the bytes it occupies, through
/// `bytemuck::cast_slice`. That function reinterprets the same memory: for
/// words to bytes it cannot fail, and the result is four bytes a word in the
/// machine's byte order, which is one of the two orders that
/// `is_memory_image` admits.
#[verifier::external_body]
pub(crate) fn cast_words(words: &[u32]) -> (bytes: &[u8])
    ensures
        is_memory_image(bytes@, words@),
{
    bytemuck::cast_slice::<u32, u8>(words)
}

} // verus!
