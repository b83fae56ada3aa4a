//! Verified core of the live provider client.
//!
//! The HTTP transport lives outside the library and hands back plain
//! values: a status code and a body text, or a transport failure. This
//! module states what the client computes around those exchanges — the
//! request URL, the Basic-authentication header, the send payload — and how
//! each outcome maps to a result.

use vstd::prelude::*;

use crate::error::{AppError, AppResult};
use crate::json::{append_json_escaped, append_u16_decimal, dec_digits, json_escape};

verus! {

/// The base64 rendering (standard alphabet, padded) of the characters of a
/// string.
pub uninterp spec fn base64_standard(s: Seq<char>) -> Seq<char>;

/// Relies on `base64`'s `STANDARD` engine: the encoding of a string's bytes
/// is a function of that string alone, and cannot panic because a string's
/// byte length is bounded well below the buffer-size overflow the engine
/// guards against.
#[verifier::external_body]
fn encode_base64(s: &str) -> (r: String)
    ensures
        r@ == base64_standard(s@),
{
    base64::Engine::encode(&base64::engine::general_purpose::STANDARD, s)
}

/// The `Authorization` header value for Basic authentication with the
/// given account: `Basic ` followed by the encoding of `username:api_key`.
pub fn basic_auth_header_value(username: &str, api_key: &str) -> (r: String)
    ensures
        r@ == "Basic "@ + base64_standard(username@ + ":"@ + api_key@),
{
    let mut credentials = String::from_str(username);
    credentials.append(":");
    credentials.append(api_key);
    let encoded = encode_base64(credentials.as_str());
    let mut out = String::from_str("Basic ");
    out.append(encoded.as_str());
    out
}

/// The request URL for an endpoint: `base_url/version/endpoint`.
pub fn construct_url(base_url: &str, version: &str, endpoint: &str) -> (r: String)
    ensures
        r@ == base_url@ + "/"@ + version@ + "/"@ + endpoint@,
{
    let mut out = String::from_str(base_url);
    out.append("/");
    out.append(version);
    out.append("/");
    out.append(endpoint);
    out
}

/// The provider's send payload: one message entry carrying the body, the
/// destination, the sender, and the fixed `api` source marker.
pub open spec fn spec_sms_send_payload(
    message: Seq<char>,
    recipient: Seq<char>,
    sender: Seq<char>,
) -> Seq<char> {
    "{\"messages\":[{\"body\":\""@ + json_escape(message) + "\",\"to\":\""@ + json_escape(recipient)
        + "\",\"from\":\""@ + json_escape(sender) + "\",\"source\":\"api\"}]}"@
}

/// Builds the JSON payload POSTed to the provider's send endpoint.
pub fn sms_send_payload(recipient: &str, sender: &str, message: &str) -> (s: String)
    ensures
        s@ == spec_sms_send_payload(message@, recipient@, sender@),
{
    let mut out = String::new();
    out.append("{\"messages\":[{\"body\":\"");
    append_json_escaped(&mut out, message);
    out.append("\",\"to\":\"");
    append_json_escaped(&mut out, recipient);
    out.append("\",\"from\":\"");
    append_json_escaped(&mut out, sender);
    out.append("\",\"source\":\"api\"}]}");
    proof {
        assert(out@ =~= spec_sms_send_payload(message@, recipient@, sender@));
    }
    out
}

/// What one attempted HTTP exchange with the provider produced: a response
/// with its status code and body text, or a transport-level failure with no
/// response at all.
pub enum HttpOutcome {
    Response { status: u16, body: String },
    TransportFailure { detail: String },
}

/// An HTTP status code in the success class.
pub open spec fn is_success_status(status: u16) -> bool {
    200 <= status < 300
}

/// The failure text for a non-success provider response.
pub open spec fn spec_status_failure(prefix: Seq<char>, status: u16, body: Seq<char>) -> Seq<char> {
    prefix + dec_digits(status as nat) + ": "@ + body
}

/// Builds `prefix` + status + `: ` + body.
fn status_failure_message(prefix: &str, status: u16, body: &str) -> (m: String)
    ensures
        m@ == spec_status_failure(prefix@, status, body@),
{
    let mut out = String::from_str(prefix);
    append_u16_decimal(&mut out, status);
    out.append(": ");
    out.append(body);
    proof {
        assert(out@ =~= spec_status_failure(prefix@, status, body@));
    }
    out
}

/// Maps the outcome of the provider's send call: a success-class response
/// is a successful send; any other response fails with the status and the
/// response body; a transport failure fails with its own text. Every
/// failure is a `MessageSendFailed`.
pub fn map_send_response(outcome: HttpOutcome) -> (r: AppResult<()>)
    ensures
        r is Ok <==> (outcome matches HttpOutcome::Response { status, .. }
            && is_success_status(status)),
        outcome matches HttpOutcome::Response { status, body } ==> !is_success_status(status)
            ==> (r matches Err(AppError::MessageSendFailed(m)) && m@ == spec_status_failure(
            "Failed with status "@,
            status,
            body@,
        )),
        outcome matches HttpOutcome::TransportFailure { detail } ==> (r matches Err(
            AppError::MessageSendFailed(m),
        ) && m@ == detail@),
{
    match outcome {
        HttpOutcome::Response { status, body } => {
            if 200 <= status && status < 300 {
                Ok(())
            } else {
                Err(
                    AppError::MessageSendFailed(
                        status_failure_message("Failed with status ", status, body.as_str()),
                    ),
                )
            }
        },
        HttpOutcome::TransportFailure { detail } => Err(AppError::MessageSendFailed(detail)),
    }
}

/// Maps the outcome of a directory listing fetch. `parsed` is the list a
/// caller extracted from the body of a success response, or `None` where
/// extraction failed; on a success response with a failed extraction the
/// fetch deliberately degrades to the empty list, so callers must treat an
/// empty list as "unknown", not "confirmed absent".
fn map_directory_response(
    error_prefix: &str,
    outcome: HttpOutcome,
    parsed: Option<Vec<String>>,
) -> (r: AppResult<Vec<String>>)
    ensures
        outcome matches HttpOutcome::Response { status, .. } && is_success_status(status)
            ==> (match parsed {
            Some(v) => r == AppResult::<Vec<String>>::Ok(v),
            None => r matches Ok(v) && v@.len() == 0,
        }),
        outcome matches HttpOutcome::Response { status, body } ==> !is_success_status(status)
            ==> (r matches Err(AppError::MessageSendFailed(m)) && m@ == spec_status_failure(
            error_prefix@,
            status,
            body@,
        )),
        outcome matches HttpOutcome::TransportFailure { detail } ==> (r matches Err(
            AppError::MessageSendFailed(m),
        ) && m@ == detail@),
{
    match outcome {
        HttpOutcome::Response { status, body } => {
            if 200 <= status && status < 300 {
                match parsed {
                    Some(v) => Ok(v),
                    None => Ok(Vec::new()),
                }
            } else {
                Err(
                    AppError::MessageSendFailed(
                        status_failure_message(error_prefix, status, body.as_str()),
                    ),
                )
            }
        },
        HttpOutcome::TransportFailure { detail } => Err(AppError::MessageSendFailed(detail)),
    }
}

/// Maps the outcome of the own-numbers listing (the verified numbers).
pub fn map_own_numbers_response(outcome: HttpOutcome, parsed: Option<Vec<String>>) -> (r: AppResult<
    Vec<String>,
>)
    ensures
        outcome matches HttpOutcome::Response { status, .. } && is_success_status(status)
            ==> (match parsed {
            Some(v) => r == AppResult::<Vec<String>>::Ok(v),
            None => r matches Ok(v) && v@.len() == 0,
        }),
        outcome matches HttpOutcome::Response { status, body } ==> !is_success_status(status)
            ==> (r matches Err(AppError::MessageSendFailed(m)) && m@ == spec_status_failure(
            "Failed with status "@,
            status,
            body@,
        )),
        outcome matches HttpOutcome::TransportFailure { detail } ==> (r matches Err(
            AppError::MessageSendFailed(m),
        ) && m@ == detail@),
{
    map_directory_response("Failed with status ", outcome, parsed)
}

/// Maps the outcome of the dedicated-numbers listing; only the failure
/// prefix differs from the own-numbers mapping.
pub fn map_dedicated_numbers_response(
    outcome: HttpOutcome,
    parsed: Option<Vec<String>>,
) -> (r: AppResult<Vec<String>>)
    ensures
        outcome matches HttpOutcome::Response { status, .. } && is_success_status(status)
            ==> (match parsed {
            Some(v) => r == AppResult::<Vec<String>>::Ok(v),
            None => r matches Ok(v) && v@.len() == 0,
        }),
        outcome matches HttpOutcome::Response { status, body } ==> !is_success_status(status)
            ==> (r matches Err(AppError::MessageSendFailed(m)) && m@ == spec_status_failure(
            "Failed to fetch verified numbers "@,
            status,
            body@,
        )),
        outcome matches HttpOutcome::TransportFailure { detail } ==> (r matches Err(
            AppError::MessageSendFailed(m),
        ) && m@ == detail@),
{
    map_directory_response("Failed to fetch verified numbers ", outcome, parsed)
}

/// The provider has no alpha-tag listing endpoint, so the fetched set is
/// always empty.
pub fn fetch_alpha_tags() -> (r: AppResult<Vec<String>>)
    ensures
        r matches Ok(v) && v@.len() == 0,
{
    Ok(Vec::new())
}

} // verus!
