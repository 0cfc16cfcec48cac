//! The subscribe workflow: a valid form creates exactly one pending row
//! and a token; an invalid form writes nothing at all.

use zero2prod::store::{SubscriberStatus, SubscriptionStore};
use zero2prod::subscriptions::{confirmation_link, subscribe, FormData, SubscirbeError};
use zero2prod::token::generate_subscription_token;

const BASE_URL: &str = "https://newsletter.example.com";

#[test]
fn subscribe_valid_form_creates_one_pending_row() {
    let mut store = SubscriptionStore::new();
    let form = FormData {
        email: "ursula_le_guin@gmail.com".to_string(),
        name: "le guin".to_string(),
    };
    let receipt = subscribe(&mut store, form, BASE_URL, 42).unwrap();

    assert_eq!(store.subscriber_count(), 1);
    let (email, name, status, subscribed_at) =
        store.get_subscriber(receipt.subscriber_id).unwrap();
    assert_eq!(email, "ursula_le_guin@gmail.com");
    assert_eq!(name, "le guin");
    assert_eq!(status, SubscriberStatus::PendingConfirmation);
    assert_eq!(subscribed_at, 42);
}

#[test]
fn subscribe_issues_a_25_char_alphanumeric_token() {
    let mut store = SubscriptionStore::new();
    let form = FormData {
        email: "ursula_le_guin@gmail.com".to_string(),
        name: "le guin".to_string(),
    };
    let receipt = subscribe(&mut store, form, BASE_URL, 0).unwrap();
    assert_eq!(receipt.subscription_token.chars().count(), 25);
    assert!(receipt.subscription_token.chars().all(|c| c.is_ascii_alphanumeric()));
}

#[test]
fn generated_tokens_are_25_alphanumeric_chars_and_vary() {
    let a = generate_subscription_token();
    let b = generate_subscription_token();
    assert_eq!(a.chars().count(), 25);
    assert!(a.chars().all(|c| c.is_ascii_alphanumeric()));
    assert_ne!(a, b);
}

#[test]
fn subscribe_builds_the_confirmation_message() {
    let mut store = SubscriptionStore::new();
    let form = FormData {
        email: "ursula_le_guin@gmail.com".to_string(),
        name: "le guin".to_string(),
    };
    let receipt = subscribe(&mut store, form, BASE_URL, 0).unwrap();
    let link = confirmation_link(BASE_URL, &receipt.subscription_token);
    assert_eq!(
        link,
        format!(
            "{}/subscriptions/confirm?subscription_token={}",
            BASE_URL, receipt.subscription_token
        )
    );
    let message = &receipt.confirmation_email;
    assert_eq!(message.subject, "Welcome!");
    assert_eq!(message.recipient.as_str(), "ursula_le_guin@gmail.com");
    assert_eq!(
        message.plain_body,
        format!(
            "Welcome to our newsletter!\nVisit {} to confirm your subscription.",
            link
        )
    );
    assert_eq!(
        message.html_body,
        format!(
            "Welcome to our newsletter!<br />Click <a href=\"{}\">here</a> to confirm your subscription.",
            link
        )
    );
}

fn assert_rejected_with_empty_store(form: FormData) {
    let mut store = SubscriptionStore::new();
    let error = subscribe(&mut store, form, BASE_URL, 0).unwrap_err();
    assert!(matches!(error, SubscirbeError::ValidationError(_)));
    assert_eq!(error.status_code(), 400);
    assert_eq!(store.subscriber_count(), 0);
}

#[test]
fn subscribe_reports_the_offending_field() {
    let mut store = SubscriptionStore::new();
    let error = subscribe(
        &mut store,
        FormData { email: "ursula_le_guin@gmail.com".to_string(), name: "{}".to_string() },
        BASE_URL,
        0,
    )
    .unwrap_err();
    match error {
        SubscirbeError::ValidationError(message) => {
            assert_eq!(message, "{} is not a valid subscriber name.");
        }
        other => panic!("expected a validation error, got status {}", other.status_code()),
    }

    let error = subscribe(
        &mut store,
        FormData { email: "nope".to_string(), name: "le guin".to_string() },
        BASE_URL,
        0,
    )
    .unwrap_err();
    match error {
        SubscirbeError::ValidationError(message) => {
            assert_eq!(message, "nope is not a valid subscriber email address.");
        }
        other => panic!("expected a validation error, got status {}", other.status_code()),
    }
}

#[test]
fn subscribe_empty_name_writes_nothing() {
    assert_rejected_with_empty_store(FormData {
        email: "ursula_le_guin@gmail.com".to_string(),
        name: "".to_string(),
    });
}

#[test]
fn subscribe_blank_name_writes_nothing() {
    assert_rejected_with_empty_store(FormData {
        email: "ursula_le_guin@gmail.com".to_string(),
        name: "   ".to_string(),
    });
}

#[test]
fn subscribe_forbidden_character_name_writes_nothing() {
    for forbidden in &['/', '(', ')', '"', '<', '>', '\\', '{', '}'] {
        assert_rejected_with_empty_store(FormData {
            email: "ursula_le_guin@gmail.com".to_string(),
            name: format!("Ursula{}", forbidden),
        });
    }
}

#[test]
fn subscribe_invalid_email_writes_nothing() {
    assert_rejected_with_empty_store(FormData {
        email: "definitely-not-an-email".to_string(),
        name: "Ursula".to_string(),
    });
}

#[test]
fn subscribe_empty_email_writes_nothing() {
    assert_rejected_with_empty_store(FormData {
        email: "".to_string(),
        name: "Ursula".to_string(),
    });
}

#[test]
fn name_length_boundary_sits_at_256_graphemes() {
    let mut store = SubscriptionStore::new();
    let accepted = subscribe(
        &mut store,
        FormData {
            email: "ursula_le_guin@gmail.com".to_string(),
            name: "中".repeat(256),
        },
        BASE_URL,
        0,
    );
    assert!(accepted.is_ok());
    assert_eq!(store.subscriber_count(), 1);

    let rejected = subscribe(
        &mut store,
        FormData {
            email: "ursula_le_guin@gmail.com".to_string(),
            name: "中".repeat(257),
        },
        BASE_URL,
        0,
    );
    assert!(rejected.is_err());
    assert_eq!(store.subscriber_count(), 1);
}

#[test]
fn two_subscriptions_for_the_same_address_both_succeed() {
    let mut store = SubscriptionStore::new();
    for _ in 0..2 {
        let form = FormData {
            email: "ursula_le_guin@gmail.com".to_string(),
            name: "le guin".to_string(),
        };
        assert!(subscribe(&mut store, form, BASE_URL, 0).is_ok());
    }
    assert_eq!(store.subscriber_count(), 2);
}
