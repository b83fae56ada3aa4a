//! The queued delivery path: the broker envelope and a recording queue.
//!
//! A queued request is serialized to the JSON envelope
//! `{"phone_number": ..., "message": ...}` and published to a single durable
//! queue. The broker connection itself lives outside the library; the
//! envelope framing and the recording queue used for deterministic testing
//! are verified here. The queued path performs no sender validation — it
//! trusts whatever consumes the queue to validate, an asymmetry with the
//! direct path that callers must keep in mind.

use vstd::prelude::*;

use crate::json::{append_json_escaped, json_escape};
use crate::shared::SmsRequest;

verus! {

/// A failure of the broker interaction.
#[derive(Debug)]
pub enum AppError {
    /// The broker connection or the publish call failed.
    ConnectionError(String),
    /// The envelope could not be serialized.
    SerializationError(String),
}

/// The broker wire form of a request: a JSON object holding the destination
/// number and the message body, in that order, with escaped string values.
pub open spec fn spec_sms_request_json(phone_number: Seq<char>, message: Seq<char>) -> Seq<char> {
    "{\"phone_number\":\""@ + json_escape(phone_number) + "\",\"message\":\""@ + json_escape(
        message,
    ) + "\"}"@
}

/// Serializes a request to its broker envelope.
pub fn sms_request_json(sms: &SmsRequest) -> (s: String)
    ensures
        s@ == spec_sms_request_json(sms.phone_number@, sms.message@),
{
    let mut out = String::new();
    out.append("{\"phone_number\":\"");
    append_json_escaped(&mut out, sms.phone_number.as_str());
    out.append("\",\"message\":\"");
    append_json_escaped(&mut out, sms.message.as_str());
    out.append("\"}");
    proof {
        assert(out@ =~= spec_sms_request_json(sms.phone_number@, sms.message@));
    }
    out
}

/// An in-memory stand-in for the durable queue: it records every published
/// envelope, in publish order.
pub struct MockQueue {
    pub published: Vec<String>,
}

impl MockQueue {
    /// A queue that has seen no publishes.
    pub fn new() -> (q: MockQueue)
        ensures
            q.published@ == Seq::<String>::empty(),
    {
        MockQueue { published: Vec::new() }
    }

    /// Publishes the envelope of `sms`: exactly one envelope is appended,
    /// and nothing already recorded changes.
    pub fn publish_message(&mut self, sms: &SmsRequest) -> (r: Result<(), AppError>)
        ensures
            r is Ok,
            final(self).published@.len() == old(self).published@.len() + 1,
            final(self).published@.drop_last() == old(self).published@,
            final(self).published@.last()@ == spec_sms_request_json(
                sms.phone_number@,
                sms.message@,
            ),
    {
        let payload = sms_request_json(sms);
        self.published.push(payload);
        proof {
            assert(final(self).published@.drop_last() =~= old(self).published@);
        }
        Ok(())
    }
}

} // verus!
