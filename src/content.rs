//! Decoding of file content handed over as base64 text before it is saved.
use base64::Engine;
use vstd::prelude::*;

verus! {

#[verifier::external_type_specification]
#[verifier::external_body]
pub struct ExDecodeError(base64::DecodeError);

/// The bytes that standard-alphabet, padded base64 text stands for, or
/// `None` when the text is not such base64.
pub uninterp spec fn base64_decoded(text: Seq<char>) -> Option<Seq<u8>>;

/// Relies on `base64::engine::general_purpose::STANDARD.decode`: the decoded
/// bytes, or the reason the text is not valid padded standard base64.
#[verifier::external_body]
fn decode_standard(text: &str) -> (r: Result<Vec<u8>, base64::DecodeError>)
    ensures
        match r {
            Ok(bytes) => base64_decoded(text@) == Some(bytes@),
            Err(_) => base64_decoded(text@) is None,
        },
{
    base64::engine::general_purpose::STANDARD.decode(text)
}

/// Why file content could not be decoded.
pub enum ContentError {
    InvalidBase64(base64::DecodeError),
}

/// The bytes of file content given as base64 text; an error exactly when the
/// text is not valid padded standard base64.
pub fn decode_file_content(content_base64: &str) -> (r: Result<Vec<u8>, ContentError>)
    ensures
        match r {
            Ok(bytes) => base64_decoded(content_base64@) == Some(bytes@),
            Err(ContentError::InvalidBase64(_)) => base64_decoded(content_base64@) is None,
        },
{
    match decode_standard(content_base64) {
        Ok(bytes) => Ok(bytes),
        Err(e) => Err(ContentError::InvalidBase64(e)),
    }
}

} // verus!
