//! The gateway core: bearer authentication, request planning, and response
//! mapping.
//!
//! The transport hands the core a bearer token (if one was presented) and
//! the parsed request body (if it parsed at all); the core decides, in this
//! order, whether to reject the call as unauthorized, reject the body as
//! malformed, or publish the request to the queue, and maps the publish
//! outcome to the reply. Authentication is checked before the body is
//! looked at.

use vstd::prelude::*;

use crate::queue::{spec_sms_request_json, AppError, MockQueue};
use crate::shared::{ApiResponse, SmsRequest};
use crate::validators::str_views;

verus! {

/// The caller presented a bearer token that is one of the configured API
/// keys.
pub open spec fn spec_bearer_authorized(keys: Seq<Seq<char>>, bearer: Option<&str>) -> bool {
    bearer matches Some(t) && keys.contains(t@)
}

/// What one gateway call does next.
pub enum SendPlan {
    /// No token, or a token outside the configured key set: reject before
    /// reading the body.
    Unauthorized,
    /// Authorized, but the body did not parse.
    MalformedBody,
    /// Authorized and well-formed: publish exactly this request.
    Publish(SmsRequest),
}

/// Whether the presented bearer token is one of the configured API keys.
pub fn bearer_authorized(valid_api_keys: &Vec<String>, bearer: Option<&str>) -> (b: bool)
    ensures
        b == spec_bearer_authorized(str_views(valid_api_keys@), bearer),
{
    match bearer {
        None => false,
        Some(token) => {
            let needle = String::from_str(token);
            let mut i: usize = 0;
            while i < valid_api_keys.len()
                invariant
                    0 <= i <= valid_api_keys.len(),
                    bearer == Some(token),
                    needle@ == token@,
                    forall|j: int| 0 <= j < i ==> valid_api_keys@[j]@ != token@,
                decreases valid_api_keys.len() - i,
            {
                if valid_api_keys[i] == needle {
                    proof {
                        assert(valid_api_keys@[i as int]@ == token@);
                        assert(str_views(valid_api_keys@).len() == valid_api_keys@.len());
                        assert(str_views(valid_api_keys@)[i as int] == token@);
                        assert(str_views(valid_api_keys@).contains(token@));
                    }
                    return true;
                }
                i = i + 1;
            }
            assert(forall|j: int|
                0 <= j < str_views(valid_api_keys@).len() ==> str_views(valid_api_keys@)[j]
                    != token@);
            false
        },
    }
}

/// Decides one gateway call: authentication first, then the body check,
/// then the publish of exactly the parsed request.
pub fn plan_send_sms(
    valid_api_keys: &Vec<String>,
    bearer: Option<&str>,
    body: Option<SmsRequest>,
) -> (p: SendPlan)
    ensures
        p is Unauthorized <==> !spec_bearer_authorized(str_views(valid_api_keys@), bearer),
        p is MalformedBody <==> (spec_bearer_authorized(str_views(valid_api_keys@), bearer)
            && body is None),
        p matches SendPlan::Publish(req) ==> (spec_bearer_authorized(
            str_views(valid_api_keys@),
            bearer,
        ) && body == Some(req)),
        spec_bearer_authorized(str_views(valid_api_keys@), bearer) && body is Some ==> p is Publish,
{
    if !bearer_authorized(valid_api_keys, bearer) {
        SendPlan::Unauthorized
    } else {
        match body {
            None => SendPlan::MalformedBody,
            Some(req) => SendPlan::Publish(req),
        }
    }
}

/// The reply for a rejected bearer token.
pub fn unauthorized_response() -> (r: ApiResponse)
    ensures
        r.status == 401 && r.message@ == "Unauthorized"@,
{
    ApiResponse { status: 401, message: String::from_str("Unauthorized") }
}

/// The reply for a body that did not parse. The gateway answers with a
/// server-error status here even though the fault is the caller's; a
/// client-error status would be the natural choice if the reply contract
/// were ever revised.
pub fn malformed_request_response() -> (r: ApiResponse)
    ensures
        r.status == 500 && r.message@ == "Malformed request"@,
{
    ApiResponse { status: 500, message: String::from_str("Malformed request") }
}

/// Maps the publish outcome to the reply: an acknowledgment on success, an
/// error reply on a failed publish.
pub fn send_sms_response(publish_result: Result<(), AppError>) -> (r: ApiResponse)
    ensures
        publish_result is Ok ==> r.status == 200 && r.message@ == "Message queued"@,
        publish_result is Err ==> r.status == 500 && r.message@
            == "Failed to queue the message"@,
{
    match publish_result {
        Ok(()) => ApiResponse { status: 200, message: String::from_str("Message queued") },
        Err(_) => ApiResponse {
            status: 500,
            message: String::from_str("Failed to queue the message"),
        },
    }
}

/// One whole gateway call against a recording queue: an unauthorized or
/// malformed call publishes nothing; an authorized, well-formed call
/// publishes exactly one envelope — the request's — and acknowledges it.
pub fn handle_send_sms(
    queue: &mut MockQueue,
    valid_api_keys: &Vec<String>,
    bearer: Option<&str>,
    body: Option<SmsRequest>,
) -> (resp: ApiResponse)
    ensures
        !spec_bearer_authorized(str_views(valid_api_keys@), bearer) ==> (
        final(queue).published@ == old(queue).published@
            && resp.status == 401
            && resp.message@ == "Unauthorized"@),
        spec_bearer_authorized(str_views(valid_api_keys@), bearer) && body is None ==> (
        final(queue).published@ == old(queue).published@
            && resp.status == 500
            && resp.message@ == "Malformed request"@),
        spec_bearer_authorized(str_views(valid_api_keys@), bearer) ==> (body matches Some(req)
            ==> (final(queue).published@.len() == old(queue).published@.len() + 1
            && final(queue).published@.drop_last() == old(queue).published@
            && final(queue).published@.last()@ == spec_sms_request_json(
            req.phone_number@,
            req.message@,
        )
            && resp.status == 200
            && resp.message@ == "Message queued"@)),
{
    match plan_send_sms(valid_api_keys, bearer, body) {
        SendPlan::Unauthorized => unauthorized_response(),
        SendPlan::MalformedBody => malformed_request_response(),
        SendPlan::Publish(req) => {
            let outcome = queue.publish_message(&req);
            send_sms_response(outcome)
        },
    }
}

} // verus!
