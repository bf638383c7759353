//! Decoding of a tool's raw output into text.
//!
//! Probing tools write in the console's encoding on some platforms, so the
//! bytes are tried as strict UTF-8, then as UTF-16 little-endian, then as GBK.
//! The first acceptable attempt wins; GBK is the last resort and is accepted
//! even when it had to replace malformed sequences.

use vstd::prelude::*;
use vstd::utf8::*;

verus! {

/// The candidate encodings, in the order in which they are tried.
#[derive(Clone, Copy, PartialEq, Eq, Debug, Structural)]
pub enum TextEncoding {
    Utf8,
    Utf16Le,
    Gbk,
}

/// Text decoded from raw bytes.
#[derive(Clone, Debug)]
pub struct DecodedText {
    pub text: String,
    /// The encoding whose attempt was accepted.
    pub encoding: TextEncoding,
    /// True when malformed sequences were replaced, so that some characters
    /// may be wrong. Callers are expected to warn about it.
    pub lossy: bool,
}

/// The longest input that the decoders take: their worst-case output buffer,
/// three bytes for each input byte and a few more, has to fit the address space.
pub open spec fn decodable(bytes: Seq<u8>) -> bool {
    bytes.len() <= usize::MAX / 8
}

/// What `encoding_rs::UTF_16LE.decode` makes of `bytes`: the text, and
/// whether malformed sequences were replaced.
pub uninterp spec fn utf16le_decoding(bytes: Seq<u8>) -> (Seq<char>, bool);

/// What `encoding_rs::GBK.decode` makes of `bytes`: the text, and whether
/// malformed sequences were replaced.
pub uninterp spec fn gbk_decoding(bytes: Seq<u8>) -> (Seq<char>, bool);

/// `core::str::Utf8Error`, which a failed strict attempt returns. Nothing
/// is claimed of what it holds.
#[verifier::external_type_specification]
#[verifier::external_body]
pub struct ExUtf8Error(core::str::Utf8Error);

/// `core::str::from_utf8` succeeds exactly on well-formed UTF-8, and the
/// string slice it returns holds the characters that the bytes encode.
pub assume_specification[ core::str::from_utf8 ](v: &[u8]) -> (r: Result<
    &str,
    core::str::Utf8Error,
>)
    ensures
        r is Ok <==> valid_utf8(v@),
        r matches Ok(s) ==> s@ == decode_utf8(v@),
;

/// Calls `encoding_rs::UTF_16LE.decode`, which decodes the whole input with
/// byte-order-mark sniffing and replaces malformed sequences. Text and error
/// flag are a function of the bytes alone, which is all the contract claims.
/// The call panics when its buffer size overflows, hence the bound.
#[verifier::external_body]
fn decode_utf16le(bytes: &[u8]) -> (r: (String, bool))
    requires
        decodable(bytes@),
    ensures
        (r.0@, r.1) == utf16le_decoding(bytes@),
{
    let (text, _, had_errors) = encoding_rs::UTF_16LE.decode(bytes);
    (text.into_owned(), had_errors)
}

/// Calls `encoding_rs::GBK.decode`, which decodes the whole input with
/// byte-order-mark sniffing and replaces malformed sequences. Text and error
/// flag are a function of the bytes alone, which is all the contract claims.
/// The call panics when its buffer size overflows, hence the bound.
#[verifier::external_body]
fn decode_gbk(bytes: &[u8]) -> (r: (String, bool))
    requires
        decodable(bytes@),
    ensures
        (r.0@, r.1) == gbk_decoding(bytes@),
{
    let (text, _, had_errors) = encoding_rs::GBK.decode(bytes);
    (text.into_owned(), had_errors)
}

/// One attempt: the text that `encoding` gives for `bytes`, and whether the
/// bytes were malformed for it. A failed strict UTF-8 attempt has no text.
pub open spec fn attempt(encoding: TextEncoding, bytes: Seq<u8>) -> (Seq<char>, bool) {
    match encoding {
        TextEncoding::Utf8 => if valid_utf8(bytes) {
            (decode_utf8(bytes), false)
        } else {
            (Seq::<char>::empty(), true)
        },
        TextEncoding::Utf16Le => utf16le_decoding(bytes),
        TextEncoding::Gbk => gbk_decoding(bytes),
    }
}

/// The acceptance rule: an attempt without errors is accepted, and the last
/// resort is accepted whatever happened.
pub open spec fn accepts(encoding: TextEncoding, had_errors: bool) -> bool {
    encoding == TextEncoding::Gbk || !had_errors
}

/// The first encoding, in order, whose attempt on `bytes` is accepted.
pub open spec fn chosen_encoding(bytes: Seq<u8>) -> TextEncoding {
    if accepts(TextEncoding::Utf8, attempt(TextEncoding::Utf8, bytes).1) {
        TextEncoding::Utf8
    } else if accepts(TextEncoding::Utf16Le, attempt(TextEncoding::Utf16Le, bytes).1) {
        TextEncoding::Utf16Le
    } else {
        TextEncoding::Gbk
    }
}

/// The text that the decoder gives for `bytes`.
pub open spec fn decoded_text(bytes: Seq<u8>) -> Seq<char> {
    attempt(chosen_encoding(bytes), bytes).0
}

/// Whether the text that the decoder gives for `bytes` has replacements.
pub open spec fn decoded_lossy(bytes: Seq<u8>) -> bool {
    attempt(chosen_encoding(bytes), bytes).1
}

/// Tells whether an attempt with `encoding` is accepted, given its error flag.
pub fn is_acceptable(encoding: TextEncoding, had_errors: bool) -> (ok: bool)
    ensures
        ok == accepts(encoding, had_errors),
{
    match encoding {
        TextEncoding::Gbk => true,
        _ => !had_errors,
    }
}

/// Decodes `bytes` with one encoding.
pub fn attempt_with(encoding: TextEncoding, bytes: &[u8]) -> (r: (String, bool))
    requires
        decodable(bytes@),
    ensures
        (r.0@, r.1) == attempt(encoding, bytes@),
{
    match encoding {
        TextEncoding::Utf8 => match core::str::from_utf8(bytes) {
            Ok(s) => (s.to_owned(), false),
            Err(_) => (String::new(), true),
        },
        TextEncoding::Utf16Le => decode_utf16le(bytes),
        TextEncoding::Gbk => decode_gbk(bytes),
    }
}

/// Decodes a tool's raw output. Never fails: the last resort is always
/// accepted, with `lossy` set when it replaced malformed sequences.
pub fn decode_probe_output(bytes: &[u8]) -> (r: DecodedText)
    requires
        decodable(bytes@),
    ensures
        r.encoding == chosen_encoding(bytes@),
        r.text@ == decoded_text(bytes@),
        r.lossy == decoded_lossy(bytes@),
        valid_utf8(bytes@) ==> r.encoding == TextEncoding::Utf8 && r.text@ == decode_utf8(bytes@)
            && !r.lossy,
        !valid_utf8(bytes@) && !utf16le_decoding(bytes@).1 ==> r.encoding == TextEncoding::Utf16Le
            && r.text@ == utf16le_decoding(bytes@).0 && !r.lossy,
        !valid_utf8(bytes@) && utf16le_decoding(bytes@).1 ==> r.encoding == TextEncoding::Gbk
            && r.text@ == gbk_decoding(bytes@).0 && r.lossy == gbk_decoding(bytes@).1,
{
    let (text, had_errors) = attempt_with(TextEncoding::Utf8, bytes);
    if is_acceptable(TextEncoding::Utf8, had_errors) {
        return DecodedText { text, encoding: TextEncoding::Utf8, lossy: had_errors };
    }
    let (text, had_errors) = attempt_with(TextEncoding::Utf16Le, bytes);
    if is_acceptable(TextEncoding::Utf16Le, had_errors) {
        return DecodedText { text, encoding: TextEncoding::Utf16Le, lossy: had_errors };
    }
    let (text, had_errors) = attempt_with(TextEncoding::Gbk, bytes);
    DecodedText { text, encoding: TextEncoding::Gbk, lossy: had_errors }
}

} // verus!
