use vstd::prelude::*;
use crate::domain::email::Email;
use crate::domain::email_client::EmailClient;
use crate::domain::email_client::MailView;

verus! {

/// One message as the mock client keeps it.
#[derive(Debug, PartialEq, Eq)]
pub struct SentEmail {
    pub recipient: String,
    pub subject: String,
    pub content: String,
}

impl View for SentEmail {
    type V = MailView;

    open spec fn view(&self) -> MailView {
        MailView { recipient: self.recipient@, subject: self.subject@, content: self.content@ }
    }
}

/// An email client that delivers nothing and keeps every message it was
/// given, oldest first. It never fails.
pub struct MockEmailClient {
    sent: Vec<SentEmail>,
}

impl MockEmailClient {
    /// The messages kept so far, as plain values.
    pub closed spec fn kept(&self) -> Seq<MailView> {
        Seq::new(self.sent@.len(), |i: int| self.sent@[i]@)
    }

    /// A client that has been given nothing yet.
    pub fn new() -> (client: MockEmailClient)
        ensures
            client.kept() == Seq::<MailView>::empty(),
    {
        let client = MockEmailClient { sent: Vec::new() };
        assert(client.kept() =~= Seq::<MailView>::empty());
        client
    }

    /// The messages kept so far.
    pub fn messages(&self) -> (sent: &Vec<SentEmail>)
        ensures
            sent@.len() == self.kept().len(),
            forall|i: int| 0 <= i < sent@.len() ==> (#[trigger] sent@[i])@ == self.kept()[i],
    {
        &self.sent
    }
}

impl Default for MockEmailClient {
    fn default() -> (client: Self)
        ensures
            client.kept() == Seq::<MailView>::empty(),
    {
        MockEmailClient::new()
    }
}

impl EmailClient for MockEmailClient {
    open spec fn outbox(&self) -> Seq<MailView> {
        self.kept()
    }

    open spec fn reliable(&self) -> bool {
        true
    }

    fn send_email(&mut self, recipient: &Email, subject: &str, content: &str) -> (r: Result<
        (),
        String,
    >) {
        let mail = SentEmail {
            recipient: recipient.as_ref().to_owned(),
            subject: subject.to_owned(),
            content: content.to_owned(),
        };
        self.sent.push(mail);
        assert(self.kept() =~= old(self).kept().push(
            MailView { recipient: recipient@, subject: subject@, content: content@ },
        ));
        Ok(())
    }
}

} // verus!
