use vstd::prelude::*;
use vstd::utf8::encode_utf8;

use smallvec::SmallVec;

verus! {

/// The output accumulator: a byte buffer backed by a `smallvec::SmallVec`,
/// so that typical renderings stay on the stack.
#[verifier::external_body]
pub struct OutBuf {
    buf: SmallVec<[u8; 2048]>,
}

/// The bytes the buffer holds, oldest first.
pub uninterp spec fn buf_bytes(b: OutBuf) -> Seq<u8>;

/// Relies on smallvec::SmallVec::new: a fresh buffer is empty.
#[verifier::external_body]
pub(crate) fn buf_new() -> (b: OutBuf)
    ensures
        buf_bytes(b) == Seq::<u8>::empty(),
{
    OutBuf { buf: SmallVec::new() }
}

/// Relies on smallvec::SmallVec::extend_from_slice: it appends the slice's
/// bytes, in order, after the buffer's contents.
#[verifier::external_body]
pub(crate) fn buf_extend(b: &mut OutBuf, bytes: &[u8])
    ensures
        buf_bytes(*final(b)) == buf_bytes(*old(b)) + bytes@,
{
    b.buf.extend_from_slice(bytes);
}

/// Relies on smallvec::SmallVec::as_slice: a slice of the buffer's contents.
#[verifier::external_body]
pub(crate) fn buf_as_slice(b: &OutBuf) -> (s: &[u8])
    ensures
        s@ == buf_bytes(*b),
{
    b.buf.as_slice()
}

/// Appends one piece of text to the buffer as its UTF-8 bytes.
pub(crate) fn emit_str(buf: &mut OutBuf, piece: &str)
    ensures
        buf_bytes(*final(buf)) == buf_bytes(*old(buf)) + encode_utf8(piece@),
{
    buf_extend(buf, piece.as_bytes());
}

/// UTF-8 encoding distributes over concatenation, because every character
/// is encoded on its own.
pub proof fn lemma_encode_utf8_concat(a: Seq<char>, b: Seq<char>)
    ensures
        encode_utf8(a + b) == encode_utf8(a) + encode_utf8(b),
    decreases a.len(),
{
    if a.len() == 0 {
        assert(a + b =~= b);
        assert(encode_utf8(a) + encode_utf8(b) =~= encode_utf8(b));
    } else {
        assert((a + b).drop_first() =~= a.drop_first() + b);
        lemma_encode_utf8_concat(a.drop_first(), b);
        assert((a + b)[0] == a[0]);
        assert(encode_utf8(a + b) =~= encode_utf8(a) + encode_utf8(b));
    }
}

} // verus!
