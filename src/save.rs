use base64::Engine;
use vstd::prelude::*;

use crate::status::{ShellError, Status};

verus! {

/// base64's decoding error: only its message is kept.
#[verifier::external_type_specification]
#[verifier::external_body]
pub struct ExDecodeError(base64::DecodeError);

/// The bytes that standard base64 (standard alphabet, padding required)
/// decodes from a text, or `None` where the text is not such base64.
pub uninterp spec fn standard_base64_decoded(text: Seq<char>) -> Option<Seq<u8>>;

/// Relies on base64's `general_purpose::STANDARD.decode`: the decoded bytes
/// of valid input, an error otherwise, depending on the input alone.
#[verifier::external_body]
fn decode_standard(text: &str) -> (r: Result<Vec<u8>, base64::DecodeError>)
    ensures
        match r {
            Ok(bytes) => standard_base64_decoded(text@) == Some(bytes@),
            Err(_) => standard_base64_decoded(text@) is None,
        },
{
    base64::engine::general_purpose::STANDARD.decode(text)
}

/// The file write that a save asks the caller to perform.
#[derive(Debug, PartialEq, Eq)]
pub struct WriteRequest {
    pub path: String,
    pub bytes: Vec<u8>,
}

/// Turns the outcome of decoding a save's payload into the write to
/// perform: the decoded bytes at `path`, or a decode error carrying the
/// decoder's reason, in which case nothing is to be written.
pub fn request_write(path: String, decoded: Result<Vec<u8>, String>) -> (r: Result<
    WriteRequest,
    ShellError,
>)
    ensures
        match decoded {
            Ok(bytes) => r == Ok::<WriteRequest, ShellError>(WriteRequest { path, bytes }),
            Err(why) => r == Err::<WriteRequest, ShellError>(ShellError::DecodeError(why)),
        },
{
    match decoded {
        Ok(bytes) => Ok(WriteRequest { path, bytes }),
        Err(why) => Err(ShellError::DecodeError(why)),
    }
}

/// Decodes the base64 payload `data` of a save to `path`. Succeeds exactly
/// where `data` is valid standard base64, with the decoded bytes; fails
/// with `DecodeError` otherwise, and then asks for no write.
pub fn plan_save(path: String, data: &String) -> (r: Result<WriteRequest, ShellError>)
    ensures
        match standard_base64_decoded(data@) {
            Some(bytes) => r matches Ok(w) && w.path == path && w.bytes@ == bytes,
            None => r matches Err(ShellError::DecodeError(_)),
        },
{
    let decoded = match decode_standard(data.as_str()) {
        Ok(bytes) => Ok(bytes),
        Err(e) => Err(e.to_string()),
    };
    request_write(path, decoded)
}

/// What a save reports once the write to `path` was attempted with the
/// outcome `written`.
pub fn finish_save(path: String, written: Result<(), String>) -> (r: Result<Status, ShellError>)
    ensures
        match written {
            Ok(()) => r == Ok::<Status, ShellError>(Status::Saved(path)),
            Err(why) => r == Err::<Status, ShellError>(ShellError::WriteFailure(why)),
        },
{
    match written {
        Ok(()) => Ok(Status::Saved(path)),
        Err(why) => Err(ShellError::WriteFailure(why)),
    }
}

} // verus!
