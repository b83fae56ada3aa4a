//! An offline provider client with fixed directory contents.
//!
//! The mock answers every directory lookup from pre-seeded sets and records
//! every accepted send in memory, so authorization and dispatch can be
//! exercised deterministically and without network access.

use vstd::prelude::*;

use crate::clicksend::ClickSendApi;
use crate::error::{AppError, AppResult};
use crate::validators::{
    is_e164, is_numeric_sender, sender_authorized, str_views, validate_e164, validate_sender_logic,
};

verus! {

/// The pre-seeded verified own numbers.
pub open spec fn mock_verified_numbers() -> Seq<Seq<char>> {
    seq!["+1234567890"@, "+1987654321"@]
}

/// The pre-seeded dedicated numbers.
pub open spec fn mock_dedicated_numbers() -> Seq<Seq<char>> {
    seq!["+11234567890"@]
}

/// The pre-seeded alpha tags.
pub open spec fn mock_alpha_tags() -> Seq<Seq<char>> {
    seq!["MYBUSINESS"@, "ALPHAEXAMPLE"@]
}

/// One message the offline client accepted.
#[derive(Debug)]
pub struct SentMessage {
    pub recipient: String,
    pub sender: String,
    pub message: String,
}

/// The offline client: fixed directory contents and an in-memory record of
/// every accepted send, in order.
#[derive(Debug)]
pub struct MockClickSendClient {
    pub sent_messages: Vec<SentMessage>,
}

impl MockClickSendClient {
    /// An offline client that has accepted no sends.
    pub fn new() -> (c: MockClickSendClient)
        ensures
            c.sent_messages@ == Seq::<SentMessage>::empty(),
    {
        MockClickSendClient { sent_messages: Vec::new() }
    }
}

impl ClickSendApi for MockClickSendClient {
    open spec fn fetch_verified_ens(&self, r: AppResult<Vec<String>>) -> bool {
        r matches Ok(v) && str_views(v@) == mock_verified_numbers()
    }

    open spec fn fetch_dedicated_ens(&self, r: AppResult<Vec<String>>) -> bool {
        r matches Ok(v) && str_views(v@) == mock_dedicated_numbers()
    }

    open spec fn fetch_alpha_ens(&self, r: AppResult<Vec<String>>) -> bool {
        r matches Ok(v) && str_views(v@) == mock_alpha_tags()
    }

    open spec fn validate_sender_ens(&self, sender: Seq<char>, r: AppResult<()>) -> bool {
        &&& r is Ok <==> sender_authorized(
            sender,
            mock_verified_numbers(),
            mock_dedicated_numbers(),
            mock_alpha_tags(),
        )
        &&& r matches Err(e) ==> (if is_numeric_sender(sender) && !is_e164(sender) {
            e matches AppError::InvalidPhoneNumber(v) && v@ == sender
        } else {
            e matches AppError::InvalidSender(v) && v@ == sender
        })
    }

    open spec fn send_ens(
        &self,
        post: Self,
        recipient: Seq<char>,
        sender: Seq<char>,
        message: Seq<char>,
        r: AppResult<()>,
    ) -> bool {
        &&& r is Ok <==> (is_e164(recipient) && sender_authorized(
            sender,
            mock_verified_numbers(),
            mock_dedicated_numbers(),
            mock_alpha_tags(),
        ))
        &&& r is Ok ==> (post.sent_messages@.len() == self.sent_messages@.len() + 1
            && post.sent_messages@.drop_last() == self.sent_messages@
            && post.sent_messages@.last().recipient@ == recipient
            && post.sent_messages@.last().sender@ == sender
            && post.sent_messages@.last().message@ == message)
        &&& r matches Err(e) ==> (post.sent_messages@ == self.sent_messages@ && (if !is_e164(
            recipient,
        ) {
            e matches AppError::InvalidPhoneNumber(v) && v@ == recipient
        } else if is_numeric_sender(sender) && !is_e164(sender) {
            e matches AppError::InvalidPhoneNumber(v) && v@ == sender
        } else {
            e matches AppError::InvalidSender(v) && v@ == sender
        }))
    }

    fn fetch_verified_numbers(&self) -> (r: AppResult<Vec<String>>) {
        let mut v: Vec<String> = Vec::new();
        v.push(String::from_str("+1234567890"));
        v.push(String::from_str("+1987654321"));
        proof {
            assert(str_views(v@) =~= mock_verified_numbers());
        }
        Ok(v)
    }

    fn fetch_dedicated_numbers(&self) -> (r: AppResult<Vec<String>>) {
        let mut v: Vec<String> = Vec::new();
        v.push(String::from_str("+11234567890"));
        proof {
            assert(str_views(v@) =~= mock_dedicated_numbers());
        }
        Ok(v)
    }

    fn fetch_alpha_tags(&self) -> (r: AppResult<Vec<String>>) {
        let mut v: Vec<String> = Vec::new();
        v.push(String::from_str("MYBUSINESS"));
        v.push(String::from_str("ALPHAEXAMPLE"));
        proof {
            assert(str_views(v@) =~= mock_alpha_tags());
        }
        Ok(v)
    }

    fn validate_sender(&self, sender: &str) -> (r: AppResult<()>) {
        let verified = match self.fetch_verified_numbers() {
            Ok(v) => v,
            Err(e) => {
                return Err(e);
            },
        };
        let dedicated = match self.fetch_dedicated_numbers() {
            Ok(v) => v,
            Err(e) => {
                return Err(e);
            },
        };
        let alpha = match self.fetch_alpha_tags() {
            Ok(v) => v,
            Err(e) => {
                return Err(e);
            },
        };
        validate_sender_logic(sender, &verified, &dedicated, &alpha)
    }

    fn send_single_sms(&mut self, recipient: &str, sender: &str, message: &str) -> (r: AppResult<
        (),
    >) {
        match validate_e164(recipient) {
            Ok(()) => {},
            Err(e) => {
                return Err(e);
            },
        }
        match self.validate_sender(sender) {
            Ok(()) => {},
            Err(e) => {
                return Err(e);
            },
        }
        self.sent_messages.push(
            SentMessage {
                recipient: String::from_str(recipient),
                sender: String::from_str(sender),
                message: String::from_str(message),
            },
        );
        proof {
            assert(self.sent_messages@.drop_last() =~= old(self).sent_messages@);
        }
        Ok(())
    }
}

} // verus!
