//! Decoding the bytes of tokens into text, with `encoding_rs`.
//!
//! A character of several bytes may be split between two tokens. The
//! decoder keeps the bytes of an unfinished character until the rest
//! arrives, so that the fragments, one after another, are the text of the
//! bytes, one after another.

use vstd::prelude::*;
use vstd::slice::slice_subrange;

verus! {

/// `encoding_rs::Decoder`, a decoder in the middle of a byte stream.
/// Nothing inside it is seen here.
#[verifier::external_type_specification]
#[verifier::external_body]
pub struct ExDecoder(encoding_rs::Decoder);

/// The bytes of its stream that a decoder has taken so far; none where the
/// stream was ended and the decoder must not be used any more.
pub uninterp spec fn decoder_taken(decoder: encoding_rs::Decoder) -> Option<Seq<u8>>;

/// The text that `encoding_rs::Decoder::decode_to_string` has written, all
/// calls together, once a new decoder for UTF-8 has taken the given bytes
/// of a stream that has not ended: the characters that are complete, a
/// replacement character for each malformed sequence, and no byte order
/// mark. A stream that begins with the byte order mark of UTF-16 is read as
/// UTF-16. The text depends on the bytes alone, not on how they were
/// handed over.
pub uninterp spec fn decoded_stream(bytes: Seq<u8>) -> Seq<char>;

/// How many bytes are decoded with one call at most.
pub const CHUNK: usize = 1_048_576;

/// A new UTF-8 decoder, from `encoding_rs::Encoding::new_decoder`. It has
/// taken no byte, and the text of the bytes it has taken is empty: nothing
/// has been decoded yet.
#[verifier::external_body]
pub(crate) fn utf8_decoder() -> (decoder: encoding_rs::Decoder)
    ensures
        decoder_taken(decoder) == Some(Seq::<u8>::empty()),
        decoded_stream(decoder_taken(decoder)->0) == Seq::<char>::empty(),
{
    encoding_rs::UTF_8.new_decoder()
}

/// Decodes more bytes of the stream with
/// `encoding_rs::Decoder::decode_to_string`, into a new text of the given
/// capacity, without ending the stream.
///
/// A decoder takes all the bytes it is given where the text has room for
/// what `max_utf8_buffer_length` says. For a decoder made for UTF-8 that is
/// at most three bytes for each byte given and for each of up to four bytes
/// kept, and three more: never more than the capacity asked for here. The
/// text is then what these bytes add to the text of the stream. A capacity
/// above `isize::MAX` is left out, because no text can have it.
#[verifier::external_body]
pub(crate) fn decode_more(
    decoder: &mut encoding_rs::Decoder,
    bytes: &[u8],
    capacity: usize,
) -> (text: String)
    requires
        decoder_taken(*old(decoder)) is Some,
        3 * bytes@.len() + 15 <= capacity <= isize::MAX,
    ensures
        decoder_taken(*final(decoder)) == Some(decoder_taken(*old(decoder))->0 + bytes@),
        decoded_stream(decoder_taken(*final(decoder))->0) == decoded_stream(
            decoder_taken(*old(decoder))->0,
        ) + text@,
    no_unwind
{
    let mut text = String::with_capacity(capacity);
    let _ = decoder.decode_to_string(bytes, &mut text, false);
    text
}

/// A capacity that holds whatever a UTF-8 decoder makes of so many bytes
/// and of an unfinished character before them: three bytes for each byte,
/// and fifteen more; the greatest capacity there is where that is too much.
pub fn capacity_for(len: usize) -> (capacity: usize)
    ensures
        capacity == if 3 * len + 15 <= usize::MAX {
            (3 * len + 15) as usize
        } else {
            usize::MAX
        },
{
    if len <= (usize::MAX - 15) / 3 {
        3 * len + 15
    } else {
        usize::MAX
    }
}

/// A decoder of the bytes of tokens.
pub struct FragmentDecoder {
    decoder: encoding_rs::Decoder,
}

impl FragmentDecoder {
    #[verifier::type_invariant]
    spec fn in_stream(&self) -> bool {
        decoder_taken(self.decoder) is Some
    }

    /// The bytes that the decoder has taken so far.
    pub closed spec fn taken(&self) -> Seq<u8> {
        decoder_taken(self.decoder)->0
    }

    /// A decoder that has taken no byte. The text of no bytes is empty.
    pub fn new() -> (decoder: Self)
        ensures
            decoder.taken() == Seq::<u8>::empty(),
            decoded_stream(Seq::<u8>::empty()) == Seq::<char>::empty(),
    {
        FragmentDecoder { decoder: utf8_decoder() }
    }

    /// Takes the next bytes and returns what they add to the text of the
    /// stream: the characters that these bytes complete, and nothing yet
    /// for a character whose last bytes are still to come. The bytes of a
    /// long input are taken piece by piece.
    pub fn decode(&mut self, bytes: &[u8]) -> (text: String)
        ensures
            final(self).taken() == old(self).taken() + bytes@,
            decoded_stream(final(self).taken()) == decoded_stream(old(self).taken()) + text@,
    {
        proof {
            use_type_invariant(&*self);
        }
        let ghost before = self.taken();
        let mut text = String::new();
        let mut done: usize = 0;
        assert(before + bytes@.take(0) =~= before);
        assert(decoded_stream(before) + text@ =~= decoded_stream(before));
        while done < bytes.len()
            invariant
                done <= bytes.len(),
                decoder_taken(self.decoder) == Some(before + bytes@.take(done as int)),
                decoded_stream(before + bytes@.take(done as int)) == decoded_stream(before)
                    + text@,
            decreases bytes.len() - done,
        {
            let end = if bytes.len() - done > CHUNK {
                done + CHUNK
            } else {
                bytes.len()
            };
            let piece = slice_subrange(bytes, done, end);
            let ghost so_far = text@;
            let part = decode_more(&mut self.decoder, piece, capacity_for(piece.len()));
            text.append(part.as_str());
            proof {
                assert(before + bytes@.take(done as int) + piece@ =~= before + bytes@.take(
                    end as int,
                ));
                assert(decoded_stream(before) + so_far + part@ =~= decoded_stream(before)
                    + text@);
            }
            done = end;
        }
        assert(bytes@.take(bytes.len() as int) =~= bytes@);
        text
    }
}

/// Bytes that are decoded in two parts give the same text as the same
/// bytes decoded at once: a character whose bytes are split between the
/// parts is not lost and not doubled. Here `first` and `second` are what a
/// decoder returned for the two parts, one after the other, and `whole` is
/// what a decoder in the same place returned for both together.
pub proof fn lemma_parts_add_up(
    taken: Seq<u8>,
    head: Seq<u8>,
    tail: Seq<u8>,
    first: Seq<char>,
    second: Seq<char>,
    whole: Seq<char>,
)
    requires
        decoded_stream(taken + head) == decoded_stream(taken) + first,
        decoded_stream(taken + head + tail) == decoded_stream(taken + head) + second,
        decoded_stream(taken + (head + tail)) == decoded_stream(taken) + whole,
    ensures
        whole == first + second,
{
    let base = decoded_stream(taken);
    assert(taken + head + tail =~= taken + (head + tail));
    assert(base + whole == base + first + second);
    assert(whole =~= first + second) by {
        assert((base + whole).len() == (base + first + second).len());
        assert forall|i: int| 0 <= i < whole.len() implies whole[i] == (first + second)[i] by {
            assert((base + whole)[base.len() + i] == whole[i]);
            assert((base + first + second)[base.len() + i] == (first + second)[i]);
        }
    }
}

} // verus!
