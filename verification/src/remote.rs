//! The remote manifest: where it is asked for, and what an answer means.

use vstd::prelude::*;
use vstd::string::*;
use crate::text::{decimal, decimal_text};

verus! {

/// The service's base address.
pub const API_BASE: &'static str = "https://api.pvpscalpel.com";

/// The manifest's path below the base address.
pub const MANIFEST_PATH: &'static str = "/CDN/getManifest";

/// The name of the header that every request carries.
pub const REQUEST_HEADER_NAME: &'static str = "600";

/// The value of the header that every request carries.
pub const REQUEST_HEADER_VALUE: &'static str = "BasicPass";

/// `serde_json::Value`, a JSON value: carried through, never looked into.
#[verifier::external_type_specification]
#[verifier::external_body]
pub struct ExJsonValue(serde_json::Value);

/// Whether `serde_json::from_slice` reads `body` as one JSON value.
pub uninterp spec fn json_decodes(body: Seq<u8>) -> bool;

/// The message of the error with which `serde_json::from_slice` refuses `body`.
pub uninterp spec fn json_error_text(body: Seq<u8>) -> Seq<char>;

/// Calls `serde_json::from_slice` for a `serde_json::Value` and, where it
/// refuses, `to_string` on its error. Assumed, not proved: whether it succeeds,
/// and the error's message, depend on the bytes alone.
#[verifier::external_body]
fn decode_json(body: &Vec<u8>) -> (r: Result<serde_json::Value, String>)
    ensures
        r is Ok <==> json_decodes(body@),
        r is Err ==> r->Err_0@ == json_error_text(body@),
{
    match serde_json::from_slice::<serde_json::Value>(body.as_slice()) {
        Ok(value) => Ok(value),
        Err(error) => Err(error.to_string()),
    }
}

/// What came of the one request: no answer, or an answer with its status code
/// and its body.
#[derive(Debug)]
pub enum Transfer {
    /// The request could not be sent or no answer arrived; the text says why.
    Failed(String),
    /// An answer arrived.
    Answered { status: u16, body: Vec<u8> },
    /// An answer arrived, but its body could not be read; the text says why.
    Unreadable { status: u16, reason: String },
}

/// Why no manifest was obtained.
#[derive(Debug, PartialEq, Eq)]
pub enum FetchError {
    /// The request failed before any answer.
    Transport(String),
    /// The answer's status code was not one of success.
    Http(u16),
    /// The answer's body is no JSON, or could not be read; the text says why.
    Parse(String),
}

impl FetchError {
    /// The message that the caller shows.
    pub fn message(&self) -> (r: String)
        ensures
            r@ == match self {
                FetchError::Transport(detail) => "Manifest request failed: "@ + detail@,
                FetchError::Http(status) => "Manifest request failed: HTTP "@ + decimal_text(
                    *status as nat,
                ),
                FetchError::Parse(detail) => "Manifest parse failed: "@ + detail@,
            },
    {
        match self {
            FetchError::Transport(detail) => "Manifest request failed: ".to_owned().concat(
                detail.as_str(),
            ),
            FetchError::Http(status) => "Manifest request failed: HTTP ".to_owned().concat(
                decimal(*status).as_str(),
            ),
            FetchError::Parse(detail) => "Manifest parse failed: ".to_owned().concat(
                detail.as_str(),
            ),
        }
    }
}

/// The codes of success: 200 to 299.
pub open spec fn status_is_success(status: u16) -> bool {
    200 <= status < 300
}

/// Whether a status code is one of success.
pub fn is_success(status: u16) -> (r: bool)
    ensures
        r == status_is_success(status),
{
    200 <= status && status < 300
}

/// The address that the manifest is asked from.
pub fn manifest_url() -> (r: String)
    ensures
        r@ == API_BASE@ + MANIFEST_PATH@,
{
    API_BASE.to_owned().concat(MANIFEST_PATH)
}

/// What an answer means once its body went through the decoder: a status
/// outside 200..299 is `Http` with that status, whatever the body; else the
/// decoded value is the manifest, and a decoder's message is `Parse`.
pub fn answer_outcome(status: u16, decoded: Result<serde_json::Value, String>) -> (r: Result<
    serde_json::Value,
    FetchError,
>)
    ensures
        r == answer_meaning(status, decoded),
{
    if !is_success(status) {
        Err(FetchError::Http(status))
    } else {
        match decoded {
            Ok(manifest) => Ok(manifest),
            Err(detail) => Err(FetchError::Parse(detail)),
        }
    }
}

/// The outcome of `answer_outcome`.
pub open spec fn answer_meaning(status: u16, decoded: Result<serde_json::Value, String>) -> Result<
    serde_json::Value,
    FetchError,
> {
    if !status_is_success(status) {
        Err(FetchError::Http(status))
    } else {
        match decoded {
            Ok(manifest) => Ok(manifest),
            Err(detail) => Err(FetchError::Parse(detail)),
        }
    }
}

/// The manifest that the one request brought. A failed request is `Transport`
/// with its text; an answer with a status outside 200..299 is `Http` with that
/// status, and its body is not looked at; an answer of success is the JSON
/// value of its body where the body decodes, and `Parse` with the decoder's
/// message where it does not, or with the reason where the body was not read.
pub fn get_manifest(transfer: Transfer) -> (r: Result<serde_json::Value, FetchError>)
    ensures
        match transfer {
            Transfer::Failed(reason) => r == Err::<serde_json::Value, FetchError>(
                FetchError::Transport(reason),
            ),
            Transfer::Answered { status, body } => if !status_is_success(status) {
                r == Err::<serde_json::Value, FetchError>(FetchError::Http(status))
            } else if json_decodes(body@) {
                r is Ok
            } else {
                r is Err && r->Err_0 is Parse && r->Err_0->Parse_0@ == json_error_text(body@)
            },
            Transfer::Unreadable { status, reason } => if !status_is_success(status) {
                r == Err::<serde_json::Value, FetchError>(FetchError::Http(status))
            } else {
                r == Err::<serde_json::Value, FetchError>(FetchError::Parse(reason))
            },
        },
{
    match transfer {
        Transfer::Failed(reason) => Err(FetchError::Transport(reason)),
        Transfer::Answered { status, body } => {
            if !is_success(status) {
                Err(FetchError::Http(status))
            } else {
                answer_outcome(status, decode_json(&body))
            }
        },
        Transfer::Unreadable { status, reason } => answer_outcome(status, Err(reason)),
    }
}

} // verus!
