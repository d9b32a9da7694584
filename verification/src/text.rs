//! Decoding the bytes of a PDF string into Unicode text.
//!
//! How the bytes read depends on the font in effect. A font with the
//! composite encoding `Identity-H` has character codes of two bytes, any
//! other encoding has codes of one byte, and either way the font's map says
//! what text a code stands for. With no font, or a font without an encoding
//! entry, the bytes are text as the PDF object layer reads it.

use crate::font::font_view;
use crate::font::BaseEncoding;
use crate::font::FontInfo;
use crate::font::FontInfoView;
use pdf::error::PdfError;
use pdf::primitive::PdfString;
use std::borrow::Cow;
use std::collections::HashMap;
use vstd::prelude::*;
use vstd::utf8::decode_utf8;
use vstd::utf8::encode_utf8;
use vstd::utf8::encode_utf8_decode_utf8;
use vstd::utf8::valid_utf8;

verus! {

broadcast use vstd::std_specs::hash::group_hash_axioms;

/// Why a string without a usable font encoding is no text.
#[derive(Clone, Copy, Debug, PartialEq, Eq, Structural)]
pub enum DecodeError {
    /// The bytes are not well-formed UTF-8.
    InvalidUtf8,
    /// The bytes start with the UTF-16 byte order mark and what follows is
    /// not well-formed big-endian UTF-16.
    InvalidUtf16,
}

/// The error type of the `pdf` crate, carried through unread.
#[verifier::external_type_specification]
#[verifier::external_body]
pub struct ExPdfError(PdfError);

/// `String::push` appends one character.
pub assume_specification[ std::string::String::push ](s: &mut std::string::String, c: char)
    ensures
        final(s)@ == old(s)@.push(c),
;

/// Whether two strings are the same text.
pub fn same_text(a: &str, b: &str) -> (same: bool)
    ensures
        same == (a@ == b@),
{
    let x: &[u8] = a.as_bytes();
    let y: &[u8] = b.as_bytes();
    proof {
        encode_utf8_decode_utf8(a@);
        encode_utf8_decode_utf8(b@);
    }
    if x.len() != y.len() {
        return false;
    }
    let mut k: usize = 0;
    while k < x.len()
        invariant
            k <= x.len() == y.len(),
            forall|i: int| 0 <= i < k ==> x@[i] == y@[i],
            x@ == encode_utf8(a@),
            y@ == encode_utf8(b@),
            a@ == b@ ==> x@ == y@,
        decreases x.len() - k,
    {
        if x[k] != y[k] {
            return false;
        }
        k = k + 1;
    }
    assert(x@ =~= y@);
    true
}

/// Whether a byte string starts with the UTF-16 byte order mark `FE FF`.
pub open spec fn has_utf16_mark(bytes: Seq<u8>) -> bool {
    bytes.len() >= 2 && bytes[0] == 0xfe && bytes[1] == 0xff
}

/// What `PdfString::as_str` of the `pdf` crate makes of a byte string that
/// starts with the UTF-16 byte order mark and has an even number of bytes:
/// the text, or nothing where it reports an error.
pub uninterp spec fn utf16_text(bytes: Seq<u8>) -> Option<Seq<char>>;

/// The character code of the `k`-th byte pair, high byte first.
pub open spec fn composite_code(bytes: Seq<u8>, k: int) -> u16 {
    (bytes[2 * k] * 256 + bytes[2 * k + 1]) as u16
}

/// What a two-byte code contributes: its mapped text, or nothing when the
/// map has no entry for it.
pub open spec fn composite_fragment(cmap: Map<u16, Seq<char>>, code: u16) -> Seq<char> {
    if cmap.contains_key(code) {
        cmap[code]
    } else {
        Seq::empty()
    }
}

/// What a one-byte code contributes: its mapped text, or the byte itself as
/// a character when the map has no entry for it.
pub open spec fn simple_fragment(cmap: Map<u16, Seq<char>>, byte: u8) -> Seq<char> {
    if cmap.contains_key(byte as u16) {
        cmap[byte as u16]
    } else {
        seq![byte as char]
    }
}

/// Text of a string under a composite encoding: the fragments of its byte
/// pairs, in order. A last byte without a partner is left out.
pub open spec fn decode_composite(bytes: Seq<u8>, cmap: Map<u16, Seq<char>>) -> Seq<char> {
    Seq::new(
        (bytes.len() / 2) as nat,
        |k: int| composite_fragment(cmap, composite_code(bytes, k)),
    ).flatten()
}

/// Text of a string under a single-byte encoding: the fragments of its
/// bytes, in order.
pub open spec fn decode_simple(bytes: Seq<u8>, cmap: Map<u16, Seq<char>>) -> Seq<char> {
    Seq::new(bytes.len(), |k: int| simple_fragment(cmap, bytes[k])).flatten()
}

/// Text of a string read without a font encoding. Behind the byte order
/// mark it is big-endian UTF-16, and an odd number of bytes is an error;
/// otherwise it is UTF-8.
pub open spec fn decode_plain(bytes: Seq<u8>) -> Result<Seq<char>, DecodeError> {
    if has_utf16_mark(bytes) {
        if bytes.len() % 2 == 1 {
            Err(DecodeError::InvalidUtf16)
        } else {
            match utf16_text(bytes) {
                Some(text) => Ok(text),
                None => Err(DecodeError::InvalidUtf16),
            }
        }
    } else if valid_utf8(bytes) {
        Ok(decode_utf8(bytes))
    } else {
        Err(DecodeError::InvalidUtf8)
    }
}

/// Text of a string under the font in effect.
pub open spec fn decode(bytes: Seq<u8>, font: Option<FontInfoView>) -> Result<
    Seq<char>,
    DecodeError,
> {
    match font {
        Some(f) => if f.encoding is None {
            decode_plain(bytes)
        } else if f.is_composite() {
            Ok(decode_composite(bytes, f.cmap))
        } else {
            Ok(decode_simple(bytes, f.cmap))
        },
        None => decode_plain(bytes),
    }
}

/// Model of a decoding result.
pub open spec fn decoded_view(r: Result<Cow<'_, str>, DecodeError>) -> Result<
    Seq<char>,
    DecodeError,
> {
    match r {
        Ok(text) => Ok(text@),
        Err(e) => Err(e),
    }
}

/// Calls `PdfString::as_str` of the `pdf` crate on a copy of the bytes.
///
/// That function reads a string that starts with `FE FF` as big-endian
/// UTF-16 through `String::from_utf16`, indexing the bytes behind the mark
/// in pairs, which panics on an odd count: such input is excluded. Any other
/// string it hands to `str::from_utf8`, which succeeds exactly on
/// well-formed UTF-8 and then yields the text those bytes encode.
#[verifier::external_body]
fn pdf_string_text(bytes: &[u8]) -> (r: Result<String, PdfError>)
    requires
        !(has_utf16_mark(bytes@) && bytes@.len() % 2 == 1),
    ensures
        has_utf16_mark(bytes@) ==> (match r {
            Ok(text) => utf16_text(bytes@) == Some(text@),
            Err(_) => utf16_text(bytes@) is None,
        }),
        !has_utf16_mark(bytes@) ==> (match r {
            Ok(text) => valid_utf8(bytes@) && text@ == decode_utf8(bytes@),
            Err(_) => !valid_utf8(bytes@),
        }),
{
    match PdfString::new(bytes.to_vec()).as_str() {
        Ok(text) => Ok(text.into_owned()),
        Err(e) => Err(e),
    }
}

/// Turns what the PDF object layer made of a string into this crate's
/// result: the text as it is, and for an error the kind that the string's
/// first bytes decide (`marked`: it starts with the byte order mark).
pub fn plain_text_from(outcome: Result<String, PdfError>, marked: bool) -> (r: Result<
    String,
    DecodeError,
>)
    ensures
        match outcome {
            Ok(text) => r == Ok::<String, DecodeError>(text),
            Err(_) => r == Err::<String, DecodeError>(
                if marked {
                    DecodeError::InvalidUtf16
                } else {
                    DecodeError::InvalidUtf8
                },
            ),
        },
{
    match outcome {
        Ok(text) => Ok(text),
        Err(_) => if marked {
            Err(DecodeError::InvalidUtf16)
        } else {
            Err(DecodeError::InvalidUtf8)
        },
    }
}

/// Text of a string that is read without a font encoding.
pub fn decode_plain_text(bytes: &[u8]) -> (r: Result<String, DecodeError>)
    ensures
        match r {
            Ok(text) => decode_plain(bytes@) == Ok::<Seq<char>, DecodeError>(text@),
            Err(e) => decode_plain(bytes@) == Err::<Seq<char>, DecodeError>(e),
        },
{
    let marked: bool = bytes.len() >= 2 && bytes[0] == 0xfe && bytes[1] == 0xff;
    if marked && bytes.len() % 2 == 1 {
        Err(DecodeError::InvalidUtf16)
    } else {
        plain_text_from(pdf_string_text(bytes), marked)
    }
}

/// Text of a string under a composite encoding with the given map.
pub fn decode_composite_text(bytes: &[u8], cmap: &HashMap<u16, String>) -> (out: String)
    ensures
        out@ == decode_composite(bytes@, cmap@.map_values(|text: String| text@)),
{
    let ghost map = cmap@.map_values(|text: String| text@);
    let ghost pieces = Seq::new(
        (bytes@.len() / 2) as nat,
        |k: int| composite_fragment(map, composite_code(bytes@, k)),
    );
    let pairs: usize = bytes.len() / 2;
    let mut out: String = String::new();
    let mut k: usize = 0;
    while k < pairs
        invariant
            k <= pairs,
            pairs == bytes.len() / 2,
            map == cmap@.map_values(|text: String| text@),
            pieces == Seq::new(
                (bytes@.len() / 2) as nat,
                |k: int| composite_fragment(map, composite_code(bytes@, k)),
            ),
            out@ == pieces.take(k as int).flatten(),
        decreases pairs - k,
    {
        let code: u16 = (bytes[2 * k] as u16) * 256 + (bytes[2 * k + 1] as u16);
        let ghost before = out@;
        match cmap.get(&code) {
            Some(text) => {
                out.append(text.as_str());
            },
            None => {},
        }
        proof {
            assert(out@ =~= before + pieces[k as int]);
            assert(pieces.take(k + 1) =~= pieces.take(k as int).push(pieces[k as int]));
            pieces.take(k as int).lemma_flatten_push(pieces[k as int]);
        }
        k = k + 1;
    }
    assert(pieces.take(k as int) =~= pieces);
    out
}

/// Text of a string under a single-byte encoding with the given map.
pub fn decode_simple_text(bytes: &[u8], cmap: &HashMap<u16, String>) -> (out: String)
    ensures
        out@ == decode_simple(bytes@, cmap@.map_values(|text: String| text@)),
{
    let ghost map = cmap@.map_values(|text: String| text@);
    let ghost pieces = Seq::new(bytes@.len(), |k: int| simple_fragment(map, bytes@[k]));
    let mut out: String = String::new();
    let mut k: usize = 0;
    while k < bytes.len()
        invariant
            k <= bytes.len(),
            map == cmap@.map_values(|text: String| text@),
            pieces == Seq::new(bytes@.len(), |k: int| simple_fragment(map, bytes@[k])),
            out@ == pieces.take(k as int).flatten(),
        decreases bytes.len() - k,
    {
        let byte: u8 = bytes[k];
        let code: u16 = byte as u16;
        let ghost before = out@;
        match cmap.get(&code) {
            Some(text) => {
                out.append(text.as_str());
            },
            None => {
                out.push(byte as char);
            },
        }
        proof {
            assert(out@ =~= before + pieces[k as int]);
            assert(pieces.take(k + 1) =~= pieces.take(k as int).push(pieces[k as int]));
            pieces.take(k as int).lemma_flatten_push(pieces[k as int]);
        }
        k = k + 1;
    }
    assert(pieces.take(k as int) =~= pieces);
    out
}

/// Decodes the bytes of a PDF string into text under the font in effect.
///
/// With a font that has an encoding entry this cannot fail: a two-byte code
/// without a mapping contributes nothing, a one-byte code without a mapping
/// stands for itself, and under a composite encoding a last byte without a
/// partner is dropped. With no font, or a font without an encoding entry,
/// the bytes must be well-formed text, and the error says which form they
/// broke.
pub fn decode_string<'a>(text: &'a [u8], current_font: Option<&FontInfo>) -> (r: Result<
    Cow<'a, str>,
    DecodeError,
>)
    ensures
        decoded_view(r) == decode(text@, font_view(current_font)),
{
    let decoded: Result<String, DecodeError> = match current_font {
        Some(font) => match font.encoding {
            Some(BaseEncoding::IdentityH) => Ok(decode_composite_text(text, &font.cmap)),
            Some(_) => Ok(decode_simple_text(text, &font.cmap)),
            None => decode_plain_text(text),
        },
        None => decode_plain_text(text),
    };
    match decoded {
        Ok(out) => Ok(Cow::Owned(out)),
        Err(e) => Err(e),
    }
}

} // verus!
