//! Request and response shapes shared by the gateway and the queue.

use vstd::prelude::*;

verus! {

/// One inbound send request: the destination number and the message body.
#[derive(Debug)]
pub struct SmsRequest {
    pub phone_number: String,
    pub message: String,
}

/// The gateway's acknowledgment or error reply.
#[derive(Debug)]
pub struct ApiResponse {
    pub status: u32,
    pub message: String,
}

} // verus!
