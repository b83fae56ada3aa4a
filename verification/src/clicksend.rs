//! The capability surface of a provider client.
//!
//! Delivery is polymorphic over the client variant: a live variant that
//! talks to the provider from outside the library, and an offline variant
//! with fixed directory contents. Each variant states what it promises of
//! every operation through the `..._ens` spec functions, so callers generic
//! over the trait inherit exactly the chosen variant's contract.

use vstd::prelude::*;

use crate::error::AppResult;

verus! {

/// Three directory lookups, sender validation, and a single send.
pub trait ClickSendApi: Sized {
    /// What this variant promises of a verified-own-numbers fetch.
    spec fn fetch_verified_ens(&self, r: AppResult<Vec<String>>) -> bool;

    /// What this variant promises of a dedicated-numbers fetch.
    spec fn fetch_dedicated_ens(&self, r: AppResult<Vec<String>>) -> bool;

    /// What this variant promises of an alpha-tags fetch.
    spec fn fetch_alpha_ens(&self, r: AppResult<Vec<String>>) -> bool;

    /// What this variant promises of a sender validation.
    spec fn validate_sender_ens(&self, sender: Seq<char>, r: AppResult<()>) -> bool;

    /// What this variant promises of a send, relating the client before and
    /// after the call.
    spec fn send_ens(
        &self,
        post: Self,
        recipient: Seq<char>,
        sender: Seq<char>,
        message: Seq<char>,
        r: AppResult<()>,
    ) -> bool;

    /// The verified own numbers of the account.
    fn fetch_verified_numbers(&self) -> (r: AppResult<Vec<String>>)
        ensures
            self.fetch_verified_ens(r),
    ;

    /// The dedicated numbers purchased for the account.
    fn fetch_dedicated_numbers(&self) -> (r: AppResult<Vec<String>>)
        ensures
            self.fetch_dedicated_ens(r),
    ;

    /// The alpha tags registered for the account.
    fn fetch_alpha_tags(&self) -> (r: AppResult<Vec<String>>)
        ensures
            self.fetch_alpha_ens(r),
    ;

    /// Decides whether the sender identity may originate a message.
    fn validate_sender(&self, sender: &str) -> (r: AppResult<()>)
        ensures
            self.validate_sender_ens(sender@, r),
    ;

    /// Validates the recipient and the sender, then delivers one message.
    fn send_single_sms(&mut self, recipient: &str, sender: &str, message: &str) -> (r: AppResult<
        (),
    >)
        ensures
            old(self).send_ens(*final(self), recipient@, sender@, message@, r),
    ;
}

} // verus!
