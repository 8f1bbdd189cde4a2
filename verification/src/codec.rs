use vstd::prelude::*;
use vstd::string::StrSliceExecFns;
use vstd::utf8::decode_utf8;
use vstd::utf8::decode_utf8_encode_utf8;
use vstd::utf8::encode_utf8;
use vstd::utf8::encode_utf8_decode_utf8;
use vstd::utf8::encode_utf8_valid_utf8;
use vstd::utf8::valid_utf8;

verus! {

/// The text that lossy decoding makes of an arbitrary byte sequence:
/// whatever `String::from_utf8_lossy` yields, which depends on the bytes
/// alone. On valid UTF-8 it agrees with `decode_utf8`; see
/// [`bytes_to_text_lossy`].
pub uninterp spec fn lossy_utf8(bytes: Seq<u8>) -> Seq<char>;

/// The UTF-8 bytes of a piece of text, as an emitter puts it on the wire.
pub fn text_to_bytes(text: &str) -> (bytes: Vec<u8>)
    ensures
        bytes@ == encode_utf8(text@),
{
    text.as_bytes_vec()
}

/// Strict decoding, as the asynchronous receiver applies it: exactly the
/// valid UTF-8 byte sequences decode, and they decode to the text whose
/// encoding they are.
///
/// Relies on `String::from_utf8`: it succeeds precisely on valid UTF-8
/// and is inverse to taking a string's bytes.
#[verifier::external_body]
pub fn bytes_to_text(bytes: Vec<u8>) -> (r: Option<String>)
    ensures
        r is Some <==> valid_utf8(bytes@),
        r matches Some(text) ==> text@ == decode_utf8(bytes@),
{
    String::from_utf8(bytes).ok()
}

/// Lossy decoding, as the blocking receiver applies it: never fails;
/// invalid sequences come out as replacement characters.
///
/// Relies on `String::from_utf8_lossy`: its result depends on the bytes
/// alone, and valid UTF-8 decodes unchanged.
#[verifier::external_body]
pub fn bytes_to_text_lossy(bytes: &Vec<u8>) -> (r: String)
    ensures
        r@ == lossy_utf8(bytes@),
        valid_utf8(bytes@) ==> r@ == decode_utf8(bytes@),
{
    String::from_utf8_lossy(bytes.as_slice()).into_owned()
}

/// Round trip: the bytes an emitter makes of any text are valid UTF-8,
/// and a strict receiver decodes them back to exactly that text.
pub proof fn lemma_encode_decode_round_trip(text: Seq<char>)
    ensures
        valid_utf8(encode_utf8(text)),
        decode_utf8(encode_utf8(text)) == text,
{
    encode_utf8_valid_utf8(text);
    encode_utf8_decode_utf8(text);
}

/// Round trip the other way: a strict receiver loses nothing — encoding
/// what it decoded restores the delivered bytes.
pub proof fn lemma_decode_encode_round_trip(bytes: Seq<u8>)
    requires
        valid_utf8(bytes),
    ensures
        encode_utf8(decode_utf8(bytes)) == bytes,
{
    decode_utf8_encode_utf8(bytes);
}

} // verus!
