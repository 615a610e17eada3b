//! Transcoding of names between the supported encodings.
//!
//! Decoding and encoding are done by `encoding_rs`.  What it returns for a
//! legacy encoding is named (`decoded`, `encoded`) rather than spelled out;
//! for UTF-8 the result is stated over vstd's model of UTF-8.

use vstd::prelude::*;
use vstd::utf8::*;
use crate::encoding::{CodecError, Encoding};

verus! {

/// The longest name that is transcoded.  A ZIP entry stores the length of
/// its name in 16 bits, so every stored name fits.
pub const MAX_NAME_LEN: usize = 65535;

/// What `encoding_rs` decodes `b` to under the legacy encoding `enc`, with
/// malformed input treated as fatal (`None`).
pub uninterp spec fn decoded(enc: Encoding, b: Seq<u8>) -> Option<Seq<char>>;

/// What `encoding_rs` encodes `t` to under the legacy encoding `enc`, where
/// a character that `enc` cannot represent makes the result `None`.
pub uninterp spec fn encoded(enc: Encoding, t: Seq<char>) -> Option<Seq<u8>>;

/// The text that `b` decodes to under `enc`: for UTF-8 the decoding of
/// valid UTF-8, for a legacy encoding what `encoding_rs` gives.
pub open spec fn decode_spec(enc: Encoding, b: Seq<u8>) -> Option<Seq<char>> {
    if enc == Encoding::Utf8 {
        if valid_utf8(b) {
            Some(decode_utf8(b))
        } else {
            None
        }
    } else {
        decoded(enc, b)
    }
}

/// The bytes that `t` encodes to under `enc`: for UTF-8 always its UTF-8
/// form, for a legacy encoding what `encoding_rs` gives.
pub open spec fn encode_spec(enc: Encoding, t: Seq<char>) -> Option<Seq<u8>> {
    if enc == Encoding::Utf8 {
        Some(encode_utf8(t))
    } else {
        encoded(enc, t)
    }
}

/// The text of `r`, as a sequence.
pub open spec fn text_view(r: Option<Vec<char>>) -> Option<Seq<char>> {
    match r {
        Some(t) => Some(t@),
        None => None,
    }
}

/// The bytes of `r`, as a sequence.
pub open spec fn bytes_view(r: Option<Vec<u8>>) -> Option<Seq<u8>> {
    match r {
        Some(b) => Some(b@),
        None => None,
    }
}

/// Relies on encoding_rs's `Encoding::decode_without_bom_handling_and_without_replacement`:
/// it returns `None` on a malformed sequence and the decoded text otherwise;
/// on UTF-8 it returns the input when, and only when, it is valid UTF-8; no
/// supported encoding yields more than one character per byte, and the
/// single-byte ones yield exactly one; and it panics only where three times
/// the input length overflows `usize`.
#[verifier::external_body]
pub(crate) fn decode_strict(enc: Encoding, b: &[u8]) -> (r: Option<Vec<char>>)
    requires
        b@.len() <= MAX_NAME_LEN,
    ensures
        enc != Encoding::Utf8 ==> text_view(r) == decoded(enc, b@),
        text_view(r) == decode_spec(enc, b@),
        r is Some ==> r->0@.len() <= b@.len(),
        enc != Encoding::Utf8 && r is Some ==> r->0@.len() == b@.len(),
{
    let e = match enc {
        Encoding::Utf8 => encoding_rs::UTF_8,
        Encoding::Windows1251 => encoding_rs::WINDOWS_1251,
        Encoding::Cp866 => encoding_rs::IBM866,
        Encoding::Koi8R => encoding_rs::KOI8_R,
        Encoding::Koi8U => encoding_rs::KOI8_U,
    };
    match e.decode_without_bom_handling_and_without_replacement(b) {
        Some(s) => Some(s.chars().collect()),
        None => None,
    }
}

/// Relies on encoding_rs's `Encoding::encode`: it reports whether some
/// character was unmappable (then the result is `None` here); a single-byte
/// encoding otherwise writes one byte per character; for UTF-8 it returns
/// the UTF-8 bytes of the text and never reports an error.
#[verifier::external_body]
pub(crate) fn encode_strict(enc: Encoding, t: &Vec<char>) -> (r: Option<Vec<u8>>)
    requires
        t@.len() <= MAX_NAME_LEN,
    ensures
        enc != Encoding::Utf8 ==> bytes_view(r) == encoded(enc, t@),
        bytes_view(r) == encode_spec(enc, t@),
        enc != Encoding::Utf8 && r is Some ==> r->0@.len() == t@.len(),
{
    let s: String = t.iter().collect();
    let e = match enc {
        Encoding::Utf8 => encoding_rs::UTF_8,
        Encoding::Windows1251 => encoding_rs::WINDOWS_1251,
        Encoding::Cp866 => encoding_rs::IBM866,
        Encoding::Koi8R => encoding_rs::KOI8_R,
        Encoding::Koi8U => encoding_rs::KOI8_U,
    };
    let (bytes, _, had_errors) = e.encode(&s);
    if had_errors { None } else { Some(bytes.into_owned()) }
}

/// Decodes `b` from `from`, then encodes the text to `to`; the first step
/// that fails gives the error.
pub open spec fn transcode(b: Seq<u8>, from: Encoding, to: Encoding) -> Result<Seq<u8>, CodecError> {
    match decode_spec(from, b) {
        None => Err(CodecError::DecodeError(from)),
        Some(t) => match encode_spec(to, t) {
            None => Err(CodecError::EncodeError(to)),
            Some(k) => Ok(k),
        },
    }
}

/// The bytes of a transcoding result, as a sequence.
pub open spec fn result_view(r: Result<Vec<u8>, CodecError>) -> Result<Seq<u8>, CodecError> {
    match r {
        Ok(b) => Ok(b@),
        Err(e) => Err(e),
    }
}

/// Transcodes the bytes `text` from encoding `from` to encoding `to`.
pub fn convert_encoding(text: &[u8], from: Encoding, to: Encoding) -> (r: Result<Vec<u8>, CodecError>)
    requires
        text@.len() <= MAX_NAME_LEN,
    ensures
        result_view(r) == transcode(text@, from, to),
{
    match decode_strict(from, text) {
        None => Err(CodecError::DecodeError(from)),
        Some(t) => match encode_strict(to, &t) {
            None => Err(CodecError::EncodeError(to)),
            Some(k) => Ok(k),
        },
    }
}

} // verus!
