//! The outbound notification channel, as a capability interface: the
//! engine hands it a recipient and a message and learns only whether
//! dispatch was accepted.

use vstd::prelude::*;

use crate::user::Email;

verus! {

/// A dispatcher for one-time codes. Implementations are external
/// collaborators; nothing can be promised of their outcome, so callers
/// must treat `Err` as a dispatch failure and not report success.
pub trait EmailClient {
    fn send_email(&self, recipient: &Email, subject: &str, content: &str) -> (r: Result<(), ()>);
}

/// A dispatcher that accepts every message and delivers none.
pub struct MockEmailClient;

impl EmailClient for MockEmailClient {
    fn send_email(&self, recipient: &Email, subject: &str, content: &str) -> (r: Result<(), ()>)
        ensures
            r is Ok,
    {
        Ok(())
    }
}

} // verus!
