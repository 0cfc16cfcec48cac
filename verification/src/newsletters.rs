//! Newsletter fan-out: list the confirmed subscribers, re-validate each
//! stored email (a bad stored row is skipped, not fatal), then offer the
//! recipients one at a time, in store order. The first delivery failure
//! aborts the rest of the run; parse failures never do. That asymmetry
//! is deliberate: changing it silently would change who receives an
//! issue.

use crate::domain::subscriber_email::{is_valid_email, SubscriberEmail};
use crate::store::{SubscriberRow, SubscriberStatus};
use vstd::prelude::*;

verus! {

/// A newsletter issue as submitted: title and both content bodies.
pub struct BodyData {
    pub title: String,
    pub content: Content,
}

/// The two bodies of an issue.
pub struct Content {
    pub text: String,
    pub html: String,
}

/// A recipient whose stored email re-validated.
pub struct ConfirmedSubscriber {
    email: SubscriberEmail,
}

/// Why a publish run failed.
#[derive(Debug)]
pub enum PublishError {
    UnexpectedError(String),
}

impl PublishError {
    /// Every publish failure maps to a server fault.
    pub fn status_code(&self) -> (c: u16)
        ensures
            c == 500,
    {
        match self {
            PublishError::UnexpectedError(_) => 500,
        }
    }
}

/// The rows whose emails re-validate, in order; the others are skipped.
pub open spec fn valid_emails(rows: Seq<Seq<char>>) -> Seq<Seq<char>>
    decreases rows.len(),
{
    if rows.len() == 0 {
        Seq::empty()
    } else if is_valid_email(rows.last()) {
        valid_emails(rows.drop_last()).push(rows.last())
    } else {
        valid_emails(rows.drop_last())
    }
}

/// One publish run: the validated recipients, how far the run has come,
/// and whether a delivery has failed. The driver asks for the next
/// recipient, attempts the delivery, and records the result; after the
/// first recorded failure no further recipient is ever offered.
pub struct NewsletterDispatch {
    recipients: Vec<ConfirmedSubscriber>,
    next: usize,
    failed: bool,
}

impl NewsletterDispatch {
    /// The recipients of this run, in store order.
    pub closed spec fn recipients(&self) -> Seq<Seq<char>> {
        self.recipients@.map_values(|c: ConfirmedSubscriber| c.email@)
    }

    /// How many recipients the run has delivered to.
    pub closed spec fn position(&self) -> int {
        self.next as int
    }

    /// Whether a delivery failure has been recorded.
    pub closed spec fn has_failed(&self) -> bool {
        self.failed
    }

    /// The position never runs past the recipients.
    pub open spec fn wf(&self) -> bool {
        0 <= self.position() <= self.recipients().len()
    }

    /// The addresses actually delivered to so far: everything before the
    /// current position. A failed attempt is not a delivery.
    pub open spec fn delivered(&self) -> Seq<Seq<char>> {
        self.recipients().take(self.position())
    }

    /// Begin a run over the stored emails of the confirmed subscribers:
    /// each row that re-validates becomes a recipient, each row that
    /// does not is skipped without aborting the run.
    pub fn start(rows: Vec<String>) -> (d: NewsletterDispatch)
        ensures
            d.wf(),
            d.recipients() == valid_emails(rows@.map_values(|s: String| s@)),
            d.position() == 0,
            !d.has_failed(),
    {
        let ghost all = rows@.map_values(|s: String| s@);
        let n = rows.len();
        let mut recipients: Vec<ConfirmedSubscriber> = Vec::new();
        proof {
            assert(recipients@.map_values(|c: ConfirmedSubscriber| c.email@) =~= valid_emails(
                all.take(0),
            ));
        }
        let mut i: usize = 0;
        while i < n
            invariant
                n == rows@.len(),
                i <= n,
                all == rows@.map_values(|s: String| s@),
                recipients@.map_values(|c: ConfirmedSubscriber| c.email@) == valid_emails(
                    all.take(i as int),
                ),
            decreases n - i,
        {
            proof {
                assert(all.take(i as int + 1).drop_last() =~= all.take(i as int));
                assert(all.take(i as int + 1).last() == all[i as int]);
                assert(all[i as int] == rows@[i as int]@);
            }
            let row = rows[i].clone();
            match SubscriberEmail::parse(row) {
                Ok(email) => {
                    recipients.push(ConfirmedSubscriber { email });
                    proof {
                        assert(recipients@.map_values(|c: ConfirmedSubscriber| c.email@)
                            =~= valid_emails(all.take(i as int + 1)));
                    }
                },
                Err(_) => {},
            }
            i += 1;
        }
        proof {
            assert(all.take(n as int) =~= all);
        }
        NewsletterDispatch { recipients, next: 0, failed: false }
    }

    /// The next address to deliver to: none once the run is done, and
    /// none ever again once a failure has been recorded.
    pub fn next_recipient(&self) -> (r: Option<String>)
        requires
            self.wf(),
        ensures
            !self.has_failed() && self.position() < self.recipients().len() ==> (r matches Some(e)
                && e@ == self.recipients()[self.position()]),
            self.has_failed() || self.position() >= self.recipients().len() ==> r is None,
    {
        if self.failed || self.next >= self.recipients.len() {
            None
        } else {
            Some(self.recipients[self.next].email.as_string())
        }
    }

    /// Record that the current recipient's delivery succeeded.
    pub fn record_sent(&mut self)
        requires
            old(self).wf(),
            !old(self).has_failed(),
            old(self).position() < old(self).recipients().len(),
        ensures
            final(self).wf(),
            final(self).recipients() == old(self).recipients(),
            final(self).position() == old(self).position() + 1,
            !final(self).has_failed(),
    {
        let n = self.recipients.len();
        proof {
            assert(self.recipients().len() == self.recipients@.len());
            assert(self.next < n);
        }
        self.next = self.next + 1;
    }

    /// Record that the current recipient's delivery failed. The rest of
    /// the run is abandoned: the failed recipient is not counted as
    /// delivered, and no later recipient is offered. The returned error
    /// names the address that failed.
    pub fn record_failure(&mut self) -> (e: PublishError)
        requires
            old(self).wf(),
            !old(self).has_failed(),
            old(self).position() < old(self).recipients().len(),
        ensures
            final(self).wf(),
            final(self).recipients() == old(self).recipients(),
            final(self).position() == old(self).position(),
            final(self).has_failed(),
            final(self).delivered() == old(self).delivered(),
            e matches PublishError::UnexpectedError(msg) && msg@ == "Failed to send email to "@
                + old(self).recipients()[old(self).position()],
    {
        self.failed = true;
        let mut msg = String::new();
        msg.append("Failed to send email to ");
        msg.append(self.recipients[self.next].email.as_str());
        proof {
            assert(msg@ =~= "Failed to send email to "@
                + self.recipients()[self.position()]);
        }
        PublishError::UnexpectedError(msg)
    }
}

/// An address that re-validated out of some sequence of rows occurs in
/// those rows.
proof fn lemma_valid_emails_from_rows(rows: Seq<Seq<char>>, e: Seq<char>)
    requires
        valid_emails(rows).contains(e),
    ensures
        rows.contains(e),
    decreases rows.len(),
{
    if rows.len() > 0 {
        if valid_emails(rows.drop_last()).contains(e) {
            lemma_valid_emails_from_rows(rows.drop_last(), e);
            let j = choose|j: int| 0 <= j < rows.drop_last().len() && rows.drop_last()[j] == e;
            assert(rows[j] == e);
        } else {
            assert(rows.last() == e);
            assert(rows[rows.len() - 1] == e);
        }
    }
}

/// An email listed as confirmed belongs to a confirmed row.
proof fn lemma_confirmed_email_has_row(s: Seq<SubscriberRow>, e: Seq<char>)
    requires
        crate::store::confirmed_emails(s).contains(e),
    ensures
        exists|i: int|
            0 <= i < s.len() && (#[trigger] s[i]).status == SubscriberStatus::Confirmed && s[i].email
                == e,
    decreases s.len(),
{
    if s.len() > 0 {
        if crate::store::confirmed_emails(s.drop_last()).contains(e) {
            lemma_confirmed_email_has_row(s.drop_last(), e);
            let j = choose|j: int|
                0 <= j < s.drop_last().len() && (#[trigger] s.drop_last()[j]).status
                    == SubscriberStatus::Confirmed && s.drop_last()[j].email == e;
            assert(s[j].status == SubscriberStatus::Confirmed && s[j].email == e);
        } else {
            assert(s.last().status == SubscriberStatus::Confirmed && s.last().email == e);
            assert(s[s.len() - 1].status == SubscriberStatus::Confirmed);
        }
    }
}

/// The fan-out law: every address a dispatch started from a store's
/// confirmed listing can ever offer belongs to a subscriber row whose
/// status is `Confirmed`. A subscriber still pending never receives an
/// issue, even though its row exists.
pub proof fn lemma_dispatch_only_confirmed(s: Seq<SubscriberRow>, e: Seq<char>)
    requires
        valid_emails(crate::store::confirmed_emails(s)).contains(e),
    ensures
        exists|i: int|
            0 <= i < s.len() && (#[trigger] s[i]).status == SubscriberStatus::Confirmed && s[i].email
                == e,
{
    lemma_valid_emails_from_rows(crate::store::confirmed_emails(s), e);
    lemma_confirmed_email_has_row(s, e);
}

} // verus!
