//! The confirm workflow: unknown tokens are rejected as such, known
//! tokens confirm their subscriber, and re-confirming is a no-op.

use zero2prod::store::{SubscriberStatus, SubscriptionStore};
use zero2prod::subscriptions::{subscribe, FormData};
use zero2prod::subscriptions_confirm::{confirm, ConfirmOutcome, Parameters};

const BASE_URL: &str = "https://newsletter.example.com";

fn subscribed_store(n: usize) -> (SubscriptionStore, Vec<u64>, Vec<String>) {
    let mut store = SubscriptionStore::new();
    let mut ids = Vec::new();
    let mut tokens = Vec::new();
    for i in 0..n {
        let form = FormData {
            email: format!("subscriber{}@example.com", i),
            name: format!("Subscriber {}", i),
        };
        let receipt = subscribe(&mut store, form, BASE_URL, 0).unwrap();
        ids.push(receipt.subscriber_id);
        tokens.push(receipt.subscription_token);
    }
    (store, ids, tokens)
}

#[test]
fn confirming_a_never_issued_token_is_unknown() {
    let (mut store, ids, _tokens) = subscribed_store(3);
    // The generator only issues alphanumeric tokens, so this one cannot exist.
    let parameters = Parameters::new("never-issued-token".to_string());
    let outcome = confirm(&mut store, &parameters);
    assert_eq!(outcome, ConfirmOutcome::UnknownToken);
    assert_eq!(outcome.status_code(), 401);
    for id in ids {
        let (_, _, status, _) = store.get_subscriber(id).unwrap();
        assert_eq!(status, SubscriberStatus::PendingConfirmation);
    }
}

#[test]
fn confirming_on_an_empty_store_is_unknown() {
    let mut store = SubscriptionStore::new();
    let parameters = Parameters::new("anything".to_string());
    assert_eq!(confirm(&mut store, &parameters), ConfirmOutcome::UnknownToken);
}

#[test]
fn confirming_a_valid_token_confirms_its_subscriber_only() {
    let (mut store, ids, tokens) = subscribed_store(2);
    let parameters = Parameters::new(tokens[0].clone());
    let outcome = confirm(&mut store, &parameters);
    assert_eq!(outcome, ConfirmOutcome::Confirmed);
    assert_eq!(outcome.status_code(), 200);

    let (_, _, status0, _) = store.get_subscriber(ids[0]).unwrap();
    assert_eq!(status0, SubscriberStatus::Confirmed);
    let (_, _, status1, _) = store.get_subscriber(ids[1]).unwrap();
    assert_eq!(status1, SubscriberStatus::PendingConfirmation);
}

#[test]
fn confirming_twice_succeeds_and_changes_nothing_more() {
    let (mut store, ids, tokens) = subscribed_store(1);
    let parameters = Parameters::new(tokens[0].clone());
    assert_eq!(confirm(&mut store, &parameters), ConfirmOutcome::Confirmed);
    let (email, name, status, at) = store.get_subscriber(ids[0]).unwrap();
    assert_eq!(status, SubscriberStatus::Confirmed);

    assert_eq!(confirm(&mut store, &parameters), ConfirmOutcome::Confirmed);
    let (email2, name2, status2, at2) = store.get_subscriber(ids[0]).unwrap();
    assert_eq!(status2, SubscriberStatus::Confirmed);
    assert_eq!(email2, email);
    assert_eq!(name2, name);
    assert_eq!(at2, at);
    assert_eq!(store.subscriber_count(), 1);
}
