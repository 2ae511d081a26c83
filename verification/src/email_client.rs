//! A model of the outbound message-send capability: one operation that
//! sends to one recipient and reports success or failure. Deliveries
//! are recorded, and failures follow a script, so that callers'
//! failure policies can be stated and proved; the live transport sits
//! outside the library and is driven by the application shell.

use crate::domain::SubscriberEmail;
use vstd::prelude::*;

verus! {

/// One delivered message.
pub struct SentEmail {
    pub recipient: String,
    pub subject: String,
    pub html_content: String,
    pub text_content: String,
}

/// The send capability: each call consumes the next scripted outcome;
/// past the end of the script every send succeeds.
pub struct MailSink {
    pub script: Vec<bool>,
    pub cursor: usize,
    pub sent: Vec<SentEmail>,
}

impl MailSink {
    /// Whether the next send will succeed.
    pub open spec fn spec_next_ok(self) -> bool {
        self.cursor >= self.script@.len() || self.script@[self.cursor as int]
    }

    /// Whether the send made after `k` more sends will succeed.
    pub open spec fn spec_ok_at(self, k: int) -> bool {
        self.cursor + k >= self.script@.len() || self.script@[self.cursor + k]
    }

    /// A sink on which every send succeeds.
    pub fn new() -> (s: MailSink)
        ensures
            s.script@.len() == 0,
            s.cursor == 0,
            s.sent@.len() == 0,
            s.cursor <= s.script@.len(),
    {
        MailSink { script: Vec::new(), cursor: 0, sent: Vec::new() }
    }

    /// A sink whose first sends follow the given outcomes.
    pub fn with_script(script: Vec<bool>) -> (s: MailSink)
        ensures
            s.script@ == script@,
            s.cursor == 0,
            s.sent@.len() == 0,
            s.cursor <= s.script@.len(),
    {
        MailSink { script, cursor: 0, sent: Vec::new() }
    }

    /// Attempts one send. On success the message is recorded; on
    /// failure nothing is, and the caller decides what the failure
    /// means.
    pub fn send_email(
        &mut self,
        recipient: &SubscriberEmail,
        subject: &str,
        html_content: &str,
        text_content: &str,
    ) -> (ok: bool)
        ensures
            ok == old(self).spec_next_ok(),
            final(self).script@ == old(self).script@,
            final(self).cursor == if old(self).cursor < old(self).script@.len() {
                old(self).cursor + 1
            } else {
                old(self).cursor as int
            },
            old(self).cursor <= old(self).script@.len() ==> final(self).cursor <= final(self).script@.len(),
            ok ==> final(self).sent@ == old(self).sent@.push(final(self).sent@.last())
                && final(self).sent@.last().recipient@ == recipient@
                && final(self).sent@.last().subject@ == subject@
                && final(self).sent@.last().html_content@ == html_content@
                && final(self).sent@.last().text_content@ == text_content@,
            !ok ==> final(self).sent@ == old(self).sent@,
    {
        let ok = if self.cursor < self.script.len() {
            let outcome = self.script[self.cursor];
            self.cursor = self.cursor + 1;
            outcome
        } else {
            true
        };
        if ok {
            let record = SentEmail {
                recipient: String::from_str(recipient.as_ref()),
                subject: String::from_str(subject),
                html_content: String::from_str(html_content),
                text_content: String::from_str(text_content),
            };
            self.sent.push(record);
        }
        ok
    }
}

} // verus!
