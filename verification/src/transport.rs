//! The encodings in which values cross the boundary to the front end:
//! percent-encoding for the path that comes in, base64 for the bytes that
//! go out.

use crate::outcome::{ErrorKind, ErrorView, PipelineError};
use base64::Engine;
use vstd::prelude::*;

verus! {

/// What `urlencoding::decode` makes of `path`: the decoded text, or, where
/// the decoded bytes are not UTF-8, the words in which the error says so.
pub uninterp spec fn percent_decoding(path: Seq<char>) -> Result<Seq<char>, Seq<char>>;

/// What `base64::engine::general_purpose::STANDARD.encode` makes of `bytes`.
pub uninterp spec fn base64_text(bytes: Seq<u8>) -> Seq<char>;

/// The longest input that the encoder takes: its output, four characters
/// for each three bytes, has to fit the address space.
pub open spec fn encodable(bytes: Seq<u8>) -> bool {
    bytes.len() <= usize::MAX / 8
}

/// A text without `%` has nothing to decode and comes back as it is.
pub open spec fn passes_plain(path: Seq<char>, decoding: Result<Seq<char>, Seq<char>>) -> bool {
    !path.contains('%') ==> decoding == Ok::<Seq<char>, Seq<char>>(path)
}

/// The view of a decoding attempt.
pub open spec fn decoding_view(r: Result<String, String>) -> Result<Seq<char>, Seq<char>> {
    match r {
        Ok(text) => Ok(text@),
        Err(reason) => Err(reason@),
    }
}

/// The view of a decoded path or the error in its place.
pub open spec fn path_view(r: Result<String, PipelineError>) -> Result<Seq<char>, ErrorView> {
    match r {
        Ok(path) => Ok(path@),
        Err(e) => Err(e@),
    }
}

/// The path that a decoding attempt gives, or the error in its place.
pub open spec fn path_result(decoding: Result<Seq<char>, Seq<char>>) -> Result<
    Seq<char>,
    ErrorView,
> {
    match decoding {
        Ok(path) => Ok(path),
        Err(reason) => Err(ErrorView { kind: ErrorKind::PathDecode, detail: reason }),
    }
}

/// Calls `urlencoding::decode`, which replaces each `%` followed by two
/// hexadecimal digits by the byte they name and reads the result as UTF-8.
/// The contract claims that the outcome, with the error's printed form in
/// place of the error, is a function of the text alone, and that a text
/// without `%` comes back as it is.
#[verifier::external_body]
fn percent_decode(path: &str) -> (r: Result<String, String>)
    ensures
        decoding_view(r) == percent_decoding(path@),
        passes_plain(path@, decoding_view(r)),
{
    match urlencoding::decode(path) {
        Ok(text) => Ok(text.into_owned()),
        Err(e) => Err(format!("{}", e)),
    }
}

/// Calls `base64::engine::general_purpose::STANDARD.encode`, the base64
/// encoding with the standard alphabet and padding. The text is a function
/// of the bytes alone, which is all the contract claims. The call panics
/// when the length of its output overflows, hence the bound.
#[verifier::external_body]
pub(crate) fn base64_encode(bytes: &[u8]) -> (text: String)
    requires
        encodable(bytes@),
    ensures
        text@ == base64_text(bytes@),
{
    base64::engine::general_purpose::STANDARD.encode(bytes)
}

/// Turns a decoding attempt into the path or the fatal error.
pub fn path_from(decoding: Result<String, String>) -> (r: Result<String, PipelineError>)
    ensures
        path_view(r) == path_result(decoding_view(decoding)),
{
    match decoding {
        Ok(path) => Ok(path),
        Err(reason) => Err(PipelineError::new(ErrorKind::PathDecode, reason)),
    }
}

/// Decodes the percent-encoded path that the front end hands over. A path
/// without `%` is returned as it is; any other is decoded, and is an error
/// where the decoded bytes are not UTF-8.
pub fn decode_transport_path(raw: &str) -> (r: Result<String, PipelineError>)
    ensures
        path_view(r) == path_result(percent_decoding(raw@)),
        !raw@.contains('%') ==> (r matches Ok(path) && path@ == raw@),
{
    path_from(percent_decode(raw))
}

} // verus!
