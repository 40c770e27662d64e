//! What one HTTP POST hands back to the protocol, and the checks made
//! on it before any JSON is read.
//!
//! The transport itself lives outside the library; it reports either a
//! transport failure or the response's status code and raw body bytes.
//! A response counts as successful only on status 200 or 201 (the hard
//! error policy: any other status aborts the operation), and its body
//! must be valid text.

use vstd::prelude::*;
use vstd::utf8::decode_utf8;
use vstd::utf8::valid_utf8;

verus! {

/// Everything one attempted POST can come to: a transport-level
/// failure (DNS, TLS, timeout), or a response with its status code
/// and raw body.
pub enum HttpOutcome {
    Transport,
    Reply { code: u32, body: Vec<u8> },
}

/// One POST request, ready to be carried out: where to send it and
/// the JSON text to send.
pub struct HttpRequest {
    pub url: String,
    pub body: String,
}

/// The failures of the deployment protocol, one variant per kind.
#[derive(Clone, Copy, Debug, PartialEq, Eq, Structural)]
pub enum DeployError {
    /// The POST could not be performed at all.
    Transport,
    /// The response status was neither 200 nor 201.
    UnexpectedStatus,
    /// The response body was not valid text.
    BodyNotText,
    /// The response body was not valid JSON.
    InvalidJson,
    /// The expected response field was missing or malformed.
    MissingField,
    /// The state the server reported differs from the one requested.
    StateMismatch,
}

impl DeployError {
    /// The message shown for this failure.
    pub open spec fn describe_spec(self) -> Seq<char> {
        match self {
            DeployError::Transport => "http request could not be performed"@,
            DeployError::UnexpectedStatus => "http response code not in 200 or 201"@,
            DeployError::BodyNotText => "response can not be transformed to String"@,
            DeployError::InvalidJson => "payload is not a valid json"@,
            DeployError::MissingField => "json attribute is missing"@,
            DeployError::StateMismatch => "deployment update status do not change"@,
        }
    }

    pub fn describe(&self) -> (r: String)
        ensures
            r@ == self.describe_spec(),
    {
        match self {
            DeployError::Transport => "http request could not be performed".to_owned(),
            DeployError::UnexpectedStatus => "http response code not in 200 or 201".to_owned(),
            DeployError::BodyNotText => "response can not be transformed to String".to_owned(),
            DeployError::InvalidJson => "payload is not a valid json".to_owned(),
            DeployError::MissingField => "json attribute is missing".to_owned(),
            DeployError::StateMismatch => "deployment update status do not change".to_owned(),
        }
    }
}

/// Whether a status code counts as success.
pub open spec fn success_code(code: u32) -> bool {
    code == 200 || code == 201
}

/// What checking one response yields: the decoded body of a 200/201
/// response with a textual body, or the exact error.
pub open spec fn spec_response_text(code: u32, body: Seq<u8>) -> Result<Seq<char>, DeployError> {
    if !success_code(code) {
        Err(DeployError::UnexpectedStatus)
    } else if !valid_utf8(body) {
        Err(DeployError::BodyNotText)
    } else {
        Ok(decode_utf8(body))
    }
}

/// Relies on core::str::from_utf8: it succeeds exactly on valid UTF-8
/// and yields its decoding.
#[verifier::external_body]
fn bytes_to_text(bytes: &[u8]) -> (r: Option<&str>)
    ensures
        match r {
            Some(s) => valid_utf8(bytes@) && s@ == decode_utf8(bytes@),
            None => !valid_utf8(bytes@),
        },
{
    core::str::from_utf8(bytes).ok()
}

/// Checks a response's status code and decodes its body.
pub fn response_text(code: u32, body: &[u8]) -> (r: Result<&str, DeployError>)
    ensures
        match r {
            Ok(s) => spec_response_text(code, body@) == Ok::<Seq<char>, DeployError>(s@),
            Err(e) => spec_response_text(code, body@) == Err::<Seq<char>, DeployError>(e),
        },
{
    if !(code == 200 || code == 201) {
        return Err(DeployError::UnexpectedStatus);
    }
    match bytes_to_text(body) {
        Some(s) => Ok(s),
        None => Err(DeployError::BodyNotText),
    }
}

} // verus!
