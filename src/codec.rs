use crate::errors::Error;
use vstd::prelude::*;
use vstd::utf8::*;

verus! {

/// What `zstd::stream::decode_all` yields on `frame`: the decoded bytes, or
/// `None` where it reports an error.
pub uninterp spec fn zstd_decoded(frame: Seq<u8>) -> Option<Seq<u8>>;

/// What `zstd::stream::encode_all` at the default level yields on `bytes`: the
/// frame, or `None` where it reports an error.
pub uninterp spec fn zstd_encoded(bytes: Seq<u8>) -> Option<Seq<u8>>;

/// Relies on `zstd::stream::encode_all` at the default level: its outcome
/// depends on the input alone, and what it produces decodes back to the input.
#[verifier::external_body]
fn zstd_encode(bytes: &[u8]) -> (r: Result<Vec<u8>, String>)
    ensures
        r is Ok <==> zstd_encoded(bytes@) is Some,
        r matches Ok(frame) ==> frame@ == zstd_encoded(bytes@)->0,
        r matches Ok(frame) ==> zstd_decoded(frame@) == Some(bytes@),
{
    zstd::stream::encode_all(bytes, zstd::DEFAULT_COMPRESSION_LEVEL).map_err(|e| e.to_string())
}

/// Relies on `zstd::stream::decode_all`: it succeeds exactly on what decodes,
/// with the decoded bytes.
#[verifier::external_body]
fn zstd_decode(frame: &[u8]) -> (r: Result<Vec<u8>, String>)
    ensures
        match zstd_decoded(frame@) {
            Some(b) => r matches Ok(v) && v@ == b,
            None => r is Err,
        },
{
    zstd::stream::decode_all(frame).map_err(|e| e.to_string())
}

/// Relies on `String::from_utf8`: it accepts exactly the valid UTF-8 byte
/// sequences, and the string holds the characters they encode.
#[verifier::external_body]
fn utf8_to_string(bytes: Vec<u8>) -> (r: Result<String, String>)
    ensures
        valid_utf8(bytes@) <==> r is Ok,
        r matches Ok(s) ==> s@ == decode_utf8(bytes@),
{
    String::from_utf8(bytes).map_err(|e| e.to_string())
}

/// The text that decompressing `frame` gives, if it holds any.
pub open spec fn decompressed_text(frame: Seq<u8>) -> Option<Seq<char>> {
    match zstd_decoded(frame) {
        Some(b) => if valid_utf8(b) {
            Some(decode_utf8(b))
        } else {
            None
        },
        None => None,
    }
}

/// Whether `frame` is a compressed form of `text`.
pub open spec fn compresses(frame: Seq<u8>, text: Seq<char>) -> bool {
    zstd_decoded(frame) == Some(encode_utf8(text))
}

/// Whether the zstd encoder accepts the UTF-8 bytes of `text`.
pub open spec fn compressible(text: Seq<char>) -> bool {
    zstd_encoded(encode_utf8(text)) is Some
}

/// Compresses the UTF-8 bytes of `text` into a zstd frame.
pub fn compress(text: &str) -> (r: Result<Vec<u8>, Error>)
    ensures
        r is Ok <==> compressible(text@),
        r matches Ok(frame) ==> frame@ == zstd_encoded(encode_utf8(text@))->0,
        r matches Ok(frame) ==> compresses(frame@, text@),
        r matches Err(e) ==> e is Compression,
{
    match zstd_encode(text.as_bytes()) {
        Ok(frame) => Ok(frame),
        Err(msg) => Err(Error::Compression(msg)),
    }
}

/// Decompresses a zstd frame back into text.
pub fn decompress(frame: &[u8]) -> (r: Result<String, Error>)
    ensures
        match decompressed_text(frame@) {
            Some(t) => r matches Ok(s) && s@ == t,
            None => r matches Err(e) && e is Compression,
        },
{
    match zstd_decode(frame) {
        Ok(bytes) => match utf8_to_string(bytes) {
            Ok(text) => Ok(text),
            Err(msg) => Err(Error::Compression(msg)),
        },
        Err(msg) => Err(Error::Compression(msg)),
    }
}

/// Decompressing what compressing `text` produced gives `text` back.
pub proof fn lemma_round_trip(text: Seq<char>, frame: Seq<u8>)
    requires
        compresses(frame, text),
    ensures
        decompressed_text(frame) == Some(text),
{
    encode_utf8_valid_utf8(text);
    encode_utf8_decode_utf8(text);
}

} // verus!
