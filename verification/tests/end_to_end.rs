//! The full journey: subscribe, follow the confirmation link from the
//! captured message, then publish an issue to the confirmed subscriber.

use zero2prod::newsletters::{BodyData, Content, NewsletterDispatch};
use zero2prod::store::{SubscriberStatus, SubscriptionStore};
use zero2prod::subscriptions::{subscribe, FormData};
use zero2prod::subscriptions_confirm::{confirm, ConfirmOutcome, Parameters};

const BASE_URL: &str = "https://newsletter.example.com";

/// One captured outbound message of a recording gateway.
struct SentMessage {
    to: String,
    subject: String,
    text: String,
    html: String,
}

#[test]
fn subscribe_confirm_publish_delivers_exactly_one_issue() {
    let mut store = SubscriptionStore::new();

    // Subscribe: 200-equivalent, one pending row.
    let form = FormData {
        email: "ursula_le_guin@gmail.com".to_string(),
        name: "le guin".to_string(),
    };
    let receipt = subscribe(&mut store, form, BASE_URL, 7).unwrap();
    let (_, _, status, _) = store.get_subscriber(receipt.subscriber_id).unwrap();
    assert_eq!(status, SubscriberStatus::PendingConfirmation);

    // Extract the confirmation link from the captured message body.
    let plain_body = receipt.confirmation_email.plain_body.clone();
    let link_start = plain_body.find("https://").unwrap();
    let link_end = plain_body[link_start..].find(' ').unwrap() + link_start;
    let link = &plain_body[link_start..link_end];
    let token = link.split("subscription_token=").nth(1).unwrap();
    assert_eq!(token, receipt.subscription_token);

    // Call the link: 200-equivalent, the row becomes confirmed.
    let parameters = Parameters::new(token.to_string());
    let outcome = confirm(&mut store, &parameters);
    assert_eq!(outcome, ConfirmOutcome::Confirmed);
    assert_eq!(outcome.status_code(), 200);
    let (_, _, status, _) = store.get_subscriber(receipt.subscriber_id).unwrap();
    assert_eq!(status, SubscriberStatus::Confirmed);

    // Publish: the confirmed subscriber's mailbox receives exactly one
    // message with the submitted subject and bodies.
    let body = BodyData {
        title: "T".to_string(),
        content: Content { text: "t".to_string(), html: "<p>t</p>".to_string() },
    };
    let mut mailbox: Vec<SentMessage> = Vec::new();
    let mut dispatch = NewsletterDispatch::start(store.list_confirmed_subscribers());
    while let Some(recipient) = dispatch.next_recipient() {
        mailbox.push(SentMessage {
            to: recipient,
            subject: body.title.clone(),
            text: body.content.text.clone(),
            html: body.content.html.clone(),
        });
        dispatch.record_sent();
    }

    assert_eq!(mailbox.len(), 1);
    assert_eq!(mailbox[0].to, "ursula_le_guin@gmail.com");
    assert_eq!(mailbox[0].subject, "T");
    assert_eq!(mailbox[0].text, "t");
    assert_eq!(mailbox[0].html, "<p>t</p>");
}

#[test]
fn gateway_failure_on_first_recipient_leaves_second_mailbox_empty() {
    let mut store = SubscriptionStore::new();
    for email in ["first@example.com", "second@example.com"] {
        let form = FormData { email: email.to_string(), name: "A Reader".to_string() };
        let receipt = subscribe(&mut store, form, BASE_URL, 0).unwrap();
        confirm(&mut store, &Parameters::new(receipt.subscription_token));
    }

    let mut mailbox: Vec<SentMessage> = Vec::new();
    let mut dispatch = NewsletterDispatch::start(store.list_confirmed_subscribers());
    let mut failure = None;
    while let Some(recipient) = dispatch.next_recipient() {
        // The gateway is configured to fail on the first attempt.
        if failure.is_none() && mailbox.is_empty() {
            failure = Some(dispatch.record_failure());
            continue;
        }
        mailbox.push(SentMessage {
            to: recipient,
            subject: "T".to_string(),
            text: "t".to_string(),
            html: "<p>t</p>".to_string(),
        });
        dispatch.record_sent();
    }

    // The endpoint reports failure and nobody received anything.
    assert_eq!(failure.unwrap().status_code(), 500);
    assert!(mailbox.is_empty());
}
