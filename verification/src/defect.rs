//! Attachments of defect reports, which the UI hands over in base64.

use vstd::prelude::*;
use vstd::string::*;

verus! {

/// Why a text is no base64.
#[verifier::external_type_specification]
#[verifier::external_body]
pub struct ExDecodeError(base64::DecodeError);

/// The bytes that a text stands for in standard base64 with padding, as the
/// `base64` crate decodes it; `None` for a text that it rejects.
pub uninterp spec fn base64_decoded(text: Seq<char>) -> Option<Seq<u8>>;

/// Decodes with the engine `base64::engine::general_purpose::STANDARD`.
/// Trusted: the outcome depends on the text alone.
#[verifier::external_body]
fn decode_standard(text: &str) -> (decoded: Result<Vec<u8>, base64::DecodeError>)
    ensures
        match decoded {
            Ok(bytes) => base64_decoded(text@) == Some(bytes@),
            Err(_) => base64_decoded(text@) is None,
        },
{
    base64::Engine::decode(&base64::engine::general_purpose::STANDARD, text)
}

/// Formats a decode error with its `Display`. Trusted; nothing is claimed of
/// the text.
#[verifier::external_body]
fn describe(error: &base64::DecodeError) -> (text: String) {
    error.to_string()
}

/// What every message about a file that is no base64 starts with.
pub open spec fn decode_failure_prefix() -> Seq<char> {
    "Failed to decode file: "@
}

/// The bytes of a file that was handed over in base64. A text that is no
/// base64 gives a message that says so and goes on with the decoder's
/// complaint.
pub fn decode_file(file_base64: &str) -> (file: Result<Vec<u8>, String>)
    ensures
        match file {
            Ok(bytes) => base64_decoded(file_base64@) == Some(bytes@),
            Err(message) => base64_decoded(file_base64@) is None
                && decode_failure_prefix().is_prefix_of(message@),
        },
{
    match decode_standard(file_base64) {
        Ok(bytes) => Ok(bytes),
        Err(error) => {
            let complaint = describe(&error);
            Err(decode_failure(complaint.as_str()))
        },
    }
}

/// The message for a file that is no base64, with the decoder's complaint.
pub fn decode_failure(complaint: &str) -> (message: String)
    ensures
        message@ == decode_failure_prefix() + complaint@,
        decode_failure_prefix().is_prefix_of(message@),
{
    let mut message = String::from_str("Failed to decode file: ");
    message.append(complaint);
    message
}

} // verus!
