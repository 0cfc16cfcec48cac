//! The subscribe workflow: validate the raw form, persist the subscriber
//! and a confirmation token atomically, and build the confirmation
//! message for the email gateway. The commit happens strictly before the
//! message leaves, and a delivery failure never undoes the commit.

use crate::domain::new_subscriber::NewSubscriber;
use crate::domain::subscriber_email::{is_valid_email, SubscriberEmail};
use crate::domain::subscriber_name::{name_valid, SubscriberName};
use crate::store::{SubscriberRow, SubscriberStatus, SubscriptionStore, TokenRow};
use crate::token::{generate_subscription_token, token_wf};
use vstd::prelude::*;

verus! {

/// The raw subscribe form, exactly as submitted.
pub struct FormData {
    pub email: String,
    pub name: String,
}

/// Why a subscribe attempt failed: the client's input was invalid, or
/// something on the server side went wrong.
#[derive(Debug)]
pub enum SubscirbeError {
    ValidationError(String),
    UnexpectedError(String),
}

impl SubscirbeError {
    /// The HTTP status the error maps to: client fault 400, server
    /// fault 500.
    pub fn status_code(&self) -> (c: u16)
        ensures
            self matches SubscirbeError::ValidationError(_) ==> c == 400,
            self matches SubscirbeError::UnexpectedError(_) ==> c == 500,
    {
        match self {
            SubscirbeError::ValidationError(_) => 400,
            SubscirbeError::UnexpectedError(_) => 500,
        }
    }
}

/// Both form fields pass validation.
pub open spec fn form_valid(name: Seq<char>, email: Seq<char>) -> bool {
    name_valid(name) && is_valid_email(email)
}

/// Turn the raw form into validated value objects; the name is checked
/// first, so an invalid name is reported even when the email is also
/// invalid.
pub fn parse_subscriber(form: FormData) -> (r: Result<NewSubscriber, String>)
    ensures
        r is Ok <==> form_valid(form.name@, form.email@),
        r matches Ok(ns) ==> ns.name@ == form.name@ && ns.email@ == form.email@,
        r matches Err(e) ==> e@ == (if !name_valid(form.name@) {
            form.name@ + " is not a valid subscriber name."@
        } else {
            form.email@ + " is not a valid subscriber email address."@
        }),
{
    let name = match SubscriberName::parse(form.name) {
        Ok(name) => name,
        Err(e) => { return Err(e) },
    };
    let email = match SubscriberEmail::parse(form.email) {
        Ok(email) => email,
        Err(e) => { return Err(e) },
    };
    Ok(NewSubscriber { email, name })
}

/// The confirmation link: the externally reachable base URL with the
/// token appended as a query parameter.
pub open spec fn spec_confirmation_link(base_url: Seq<char>, token: Seq<char>) -> Seq<char> {
    base_url + "/subscriptions/confirm?subscription_token="@ + token
}

/// The plain-text confirmation body around a link.
pub open spec fn spec_plain_body(link: Seq<char>) -> Seq<char> {
    "Welcome to our newsletter!\nVisit "@ + link + " to confirm your subscription."@
}

/// The HTML confirmation body around a link.
pub open spec fn spec_html_body(link: Seq<char>) -> Seq<char> {
    "Welcome to our newsletter!<br />Click <a href=\""@ + link
        + "\">here</a> to confirm your subscription."@
}

/// Build the confirmation link for a token.
pub fn confirmation_link(base_url: &str, subscription_token: &str) -> (r: String)
    ensures
        r@ == spec_confirmation_link(base_url@, subscription_token@),
{
    let mut link = String::new();
    link.append(base_url);
    link.append("/subscriptions/confirm?subscription_token=");
    link.append(subscription_token);
    proof {
        assert(link@ =~= spec_confirmation_link(base_url@, subscription_token@));
    }
    link
}

/// One confirmation message, ready for the email gateway.
#[derive(Debug)]
pub struct ConfirmationEmail {
    pub recipient: SubscriberEmail,
    pub subject: String,
    pub html_body: String,
    pub plain_body: String,
}

/// Build the confirmation message: subject "Welcome!", and both bodies
/// carrying the confirmation link for the token.
pub fn build_confirmation_email(
    recipient: SubscriberEmail,
    base_url: &str,
    subscription_token: &str,
) -> (m: ConfirmationEmail)
    ensures
        m.recipient == recipient,
        m.subject@ == "Welcome!"@,
        m.plain_body@ == spec_plain_body(
            spec_confirmation_link(base_url@, subscription_token@),
        ),
        m.html_body@ == spec_html_body(spec_confirmation_link(base_url@, subscription_token@)),
{
    let confirmation_link = confirmation_link(base_url, subscription_token);

    let mut plain_body = String::new();
    plain_body.append("Welcome to our newsletter!\nVisit ");
    plain_body.append(confirmation_link.as_str());
    plain_body.append(" to confirm your subscription.");

    let mut html_body = String::new();
    html_body.append("Welcome to our newsletter!<br />Click <a href=\"");
    html_body.append(confirmation_link.as_str());
    html_body.append("\">here</a> to confirm your subscription.");

    let mut subject = String::new();
    subject.append("Welcome!");

    proof {
        let link = spec_confirmation_link(base_url@, subscription_token@);
        assert(plain_body@ =~= spec_plain_body(link));
        assert(html_body@ =~= spec_html_body(link));
        assert(subject@ =~= "Welcome!"@);
    }

    ConfirmationEmail { recipient, subject, html_body, plain_body }
}

/// What a successful subscribe hands back: the new row's id, the token
/// that was stored for it, and the confirmation message to deliver.
#[derive(Debug)]
pub struct SubscribeReceipt {
    pub subscriber_id: u64,
    pub subscription_token: String,
    pub confirmation_email: ConfirmationEmail,
}

/// The subscribe workflow. On valid input it adds exactly one pending
/// subscriber row and exactly one token row, atomically, and returns the
/// confirmation message to send; on invalid input it rejects the request
/// and leaves the store exactly as it was.
pub fn subscribe(
    store: &mut SubscriptionStore,
    form: FormData,
    base_url: &str,
    now: u64,
) -> (r: Result<SubscribeReceipt, SubscirbeError>)
    requires
        old(store).wf(),
        old(store).next_id() < u64::MAX,
    ensures
        final(store).wf(),
        r is Ok <==> form_valid(form.name@, form.email@),
        r matches Err(e) ==> {
            &&& e matches SubscirbeError::ValidationError(msg) && msg@ == (if !name_valid(
                form.name@,
            ) {
                form.name@ + " is not a valid subscriber name."@
            } else {
                form.email@ + " is not a valid subscriber email address."@
            })
            &&& final(store).subscribers() == old(store).subscribers()
            &&& final(store).tokens() == old(store).tokens()
            &&& final(store).next_id() == old(store).next_id()
        },
        r matches Ok(receipt) ==> {
            &&& receipt.subscriber_id == old(store).next_id()
            &&& token_wf(receipt.subscription_token@)
            &&& final(store).subscribers() == old(store).subscribers().push(
                SubscriberRow {
                    id: receipt.subscriber_id,
                    email: form.email@,
                    name: form.name@,
                    subscribed_at: now,
                    status: SubscriberStatus::PendingConfirmation,
                },
            )
            &&& final(store).tokens() == old(store).tokens().push(
                TokenRow { token: receipt.subscription_token@, subscriber_id: receipt.subscriber_id },
            )
            &&& final(store).next_id() == old(store).next_id() + 1
            &&& receipt.confirmation_email.recipient@ == form.email@
            &&& receipt.confirmation_email.subject@ == "Welcome!"@
            &&& receipt.confirmation_email.plain_body@ == spec_plain_body(
                spec_confirmation_link(base_url@, receipt.subscription_token@),
            )
            &&& receipt.confirmation_email.html_body@ == spec_html_body(
                spec_confirmation_link(base_url@, receipt.subscription_token@),
            )
        },
{
    let new_subscriber = match parse_subscriber(form) {
        Ok(ns) => ns,
        Err(e) => { return Err(SubscirbeError::ValidationError(e)) },
    };
    let recipient = new_subscriber.email.duplicate();

    let mut transaction = store.begin();
    let subscriber_id = transaction.insert_pending_subscriber(
        new_subscriber.email,
        new_subscriber.name,
        now,
    );
    let subscription_token = generate_subscription_token();
    transaction.store_token(subscriber_id, subscription_token.clone());
    store.commit(transaction);

    let confirmation_email = build_confirmation_email(
        recipient,
        base_url,
        subscription_token.as_str(),
    );

    proof {
        let row = SubscriberRow {
            id: subscriber_id,
            email: form.email@,
            name: form.name@,
            subscribed_at: now,
            status: SubscriberStatus::PendingConfirmation,
        };
        let trow = TokenRow { token: subscription_token@, subscriber_id: subscriber_id };
        assert(store.subscribers() =~= old(store).subscribers().push(row));
        assert(store.tokens() =~= old(store).tokens().push(trow));
    }

    Ok(SubscribeReceipt { subscriber_id, subscription_token, confirmation_email })
}

} // verus!
