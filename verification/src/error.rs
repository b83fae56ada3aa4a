//! Error taxonomy of the dispatch core.

use vstd::prelude::*;

verus! {

/// A failure of validation, authorization, provider construction, or a
/// provider-side send.
#[derive(Debug)]
pub enum AppError {
    /// The candidate sender identity is neither a verified own number, a
    /// dedicated number, nor a registered alpha tag.
    InvalidSender(String),
    /// The string does not satisfy the E.164 numbering format.
    InvalidPhoneNumber(String),
    /// The provider rejected a send, or the transport failed outright.
    MessageSendFailed(String),
    /// The provider client could not be constructed at startup.
    ClickSendApiError(String),
}

pub type AppResult<T> = Result<T, AppError>;

impl AppError {
    /// A human-readable description of the failure, one fixed prefix per
    /// variant followed by the carried detail.
    pub fn message(&self) -> (r: String)
        ensures
            match self {
                AppError::InvalidSender(s) => r@ == "Sender ID must be either a registered alpha tag, a verified own number, or a purchased dedicated number: "@ + s@,
                AppError::InvalidPhoneNumber(s) => r@ == "Invalid Phone number: "@ + s@,
                AppError::MessageSendFailed(s) => r@ == "Failed to send message: "@ + s@,
                AppError::ClickSendApiError(s) => r@ == "ClickSend API Error: "@ + s@,
            },
    {
        match self {
            AppError::InvalidSender(s) => String::from_str(
                "Sender ID must be either a registered alpha tag, a verified own number, or a purchased dedicated number: ",
            ).concat(s.as_str()),
            AppError::InvalidPhoneNumber(s) => String::from_str("Invalid Phone number: ").concat(
                s.as_str(),
            ),
            AppError::MessageSendFailed(s) => String::from_str("Failed to send message: ").concat(
                s.as_str(),
            ),
            AppError::ClickSendApiError(s) => String::from_str("ClickSend API Error: ").concat(
                s.as_str(),
            ),
        }
    }
}

} // verus!
