use vstd::prelude::*;
use crate::domain::email::Email;

verus! {

/// One message handed to an email collaborator, as plain values.
pub struct MailView {
    pub recipient: Seq<char>,
    pub subject: Seq<char>,
    pub content: Seq<char>,
}

/// The collaborator that delivers mail out of band.
///
/// `outbox` is the sequence of messages it has accepted so far. A client
/// that is `reliable` accepts every message; of any other the contract
/// claims nothing.
pub trait EmailClient {
    /// The messages accepted for delivery, oldest first.
    open spec fn outbox(&self) -> Seq<MailView> {
        Seq::empty()
    }

    /// Whether this client accepts every message and records it.
    open spec fn reliable(&self) -> bool {
        false
    }

    /// Hands one message over for delivery.
    fn send_email(&mut self, recipient: &Email, subject: &str, content: &str) -> (r: Result<
        (),
        String,
    >)
        ensures
            final(self).reliable() == old(self).reliable(),
            old(self).reliable() ==> r is Ok && final(self).outbox() == old(self).outbox().push(
                MailView { recipient: recipient@, subject: subject@, content: content@ },
            ),
    ;
}

} // verus!
