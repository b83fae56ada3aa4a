//! A thin service facade over one provider client variant.

use vstd::prelude::*;

use crate::clicksend::ClickSendApi;
use crate::error::AppResult;

verus! {

/// Wraps one client variant, chosen at construction time.
pub struct MessageService<T: ClickSendApi> {
    pub client: T,
}

impl<T: ClickSendApi> MessageService<T> {
    /// A service backed by the given client.
    pub fn new(client: T) -> (s: Self)
        ensures
            s.client == client,
    {
        MessageService { client }
    }

    /// Sends one message through the wrapped client; the outcome is
    /// whatever that variant promises of a send.
    pub fn send_single_sms(&mut self, recipient: &str, sender: &str, message: &str) -> (r:
        AppResult<()>)
        ensures
            old(self).client.send_ens(final(self).client, recipient@, sender@, message@, r),
    {
        self.client.send_single_sms(recipient, sender, message)
    }
}

} // verus!
