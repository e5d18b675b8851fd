use ruststripe::cart::add_to_cart_at;
use ruststripe::errors::{ErrorKind, PayloadDefect, ServiceError};
use ruststripe::models::{
    AddToCartRequest, CheckoutRequest, OrderStatus, Product, SubscriptionStatus, UpdateOrderRequest,
    CartItem, UserSubscription,
};
use ruststripe::orders::{checkout_at, complete_checkout, get_order, update_order_at, PaymentIntentRef};
use ruststripe::state::{AppState, Config};
use ruststripe::time::Timestamp;
use ruststripe::webhooks::{
    apply_event, apply_event_at, decode_event, has_saved_method, stripe_webhook,
    stripe_webhook_at, Notification, WebhookEvent,
};

const T0: i64 = 1_700_000_000;

fn at(secs: i64) -> Timestamp {
    Timestamp::from_unix(secs, 0).unwrap()
}

fn new_state() -> AppState {
    AppState::new(Config {
        stripe_secret_key: "sk_test_fake".to_string(),
        stripe_webhook_secret: "whsec_test".to_string(),
        base_url: "http://localhost:3000".to_string(),
    })
}

fn state_with_processing_order() -> AppState {
    let mut state = new_state();
    let add = AddToCartRequest {
        user_id: "u1".to_string(),
        product_id: "cap_001".to_string(),
        quantity: 2,
    };
    add_to_cart_at(&mut state, &add, at(T0)).unwrap();
    let req = CheckoutRequest { user_id: "u1".to_string() };
    let order = checkout_at(&state, &req, "order_1".to_string(), at(T0)).unwrap();
    let paid = Ok(PaymentIntentRef { id: "pi_1".to_string(), client_secret: None });
    complete_checkout(&mut state, order, paid).unwrap();
    state
}

fn subscription(id: &str, reference: &str) -> UserSubscription {
    UserSubscription {
        id: id.to_string(),
        user_id: "u1".to_string(),
        plan_id: "plan_normal".to_string(),
        stripe_subscription_id: reference.to_string(),
        status: SubscriptionStatus::Active,
        current_period_end: at(T0 + 30 * 86_400),
        cancel_at_period_end: false,
        created_at: at(T0),
        payment_method_id: None,
    }
}

#[test]
fn test_decode_payment_succeeded() {
    let payload = r#"{"type":"payment_intent.succeeded","data":{"object":{"id":"pi_42","metadata":{"order_id":"o-7"}}}}"#;
    match decode_event(payload).unwrap() {
        WebhookEvent::PaymentSucceeded { payment_intent_id, order_id } => {
            assert_eq!(payment_intent_id, "pi_42");
            assert_eq!(order_id.as_deref(), Some("o-7"));
        }
        other => panic!("decoded to {:?}", other),
    }
}

#[test]
fn test_decode_payment_failed_without_metadata() {
    let payload = r#"{"type":"payment_intent.payment_failed","data":{"object":{}}}"#;
    match decode_event(payload).unwrap() {
        WebhookEvent::PaymentFailed { payment_intent_id, order_id } => {
            assert_eq!(payment_intent_id, "");
            assert!(order_id.is_none());
        }
        other => panic!("decoded to {:?}", other),
    }
}

#[test]
fn test_decode_setup_and_invoices() {
    let setup = r#"{"type":"setup_intent.succeeded","data":{"object":{"payment_method":"pm_9","metadata":{"user_id":"u5"}}}}"#;
    match decode_event(setup).unwrap() {
        WebhookEvent::SetupSucceeded { payment_method_id, user_id } => {
            assert_eq!(payment_method_id, "pm_9");
            assert_eq!(user_id, "u5");
        }
        other => panic!("decoded to {:?}", other),
    }

    let paid = r#"{"type":"invoice.payment_succeeded","data":{"object":{"subscription":"sub_1","amount_paid":1500}}}"#;
    match decode_event(paid).unwrap() {
        WebhookEvent::InvoicePaid { subscription_id, amount_paid } => {
            assert_eq!(subscription_id, "sub_1");
            assert_eq!(amount_paid, 1500);
        }
        other => panic!("decoded to {:?}", other),
    }

    let failed = r#"{"type":"invoice.payment_failed","data":{"object":{"subscription":"sub_1","attempt_count":3}}}"#;
    match decode_event(failed).unwrap() {
        WebhookEvent::InvoiceFailed { subscription_id, attempt_count } => {
            assert_eq!(subscription_id, "sub_1");
            assert_eq!(attempt_count, 3);
        }
        other => panic!("decoded to {:?}", other),
    }

    let no_count = r#"{"type":"invoice.payment_failed","data":{"object":{"attempt_count":"3"}}}"#;
    match decode_event(no_count).unwrap() {
        WebhookEvent::InvoiceFailed { subscription_id, attempt_count } => {
            assert_eq!(subscription_id, "");
            assert_eq!(attempt_count, 0);
        }
        other => panic!("decoded to {:?}", other),
    }
}

#[test]
fn test_decode_notification_only_and_unknown_types() {
    assert!(matches!(
        decode_event(r#"{"type":"customer.subscription.created"}"#).unwrap(),
        WebhookEvent::SubscriptionCreated
    ));
    assert!(matches!(
        decode_event(r#"{"type":"customer.source.expiring"}"#).unwrap(),
        WebhookEvent::SourceExpiring
    ));
    match decode_event(r#"{"type":"charge.refunded"}"#).unwrap() {
        WebhookEvent::Unknown { event_type } => assert_eq!(event_type, "charge.refunded"),
        other => panic!("decoded to {:?}", other),
    }
    for payload in ["{}", "[1,2]", "17", r#"{"type":5}"#, r#""payment_intent.succeeded""#] {
        match decode_event(payload).unwrap() {
            WebhookEvent::Unknown { event_type } => assert_eq!(event_type, ""),
            other => panic!("decoded to {:?}", other),
        }
    }
}

#[test]
fn test_decode_refuses_what_is_not_json() {
    for payload in ["", "{", "not json", r#"{"type":"payment_intent.succeeded""#] {
        match decode_event(payload) {
            Err(ServiceError::MalformedPayload { payload: defect }) => {
                assert_eq!(defect, PayloadDefect::InvalidJson)
            }
            other => panic!("expected a malformed payload, got {:?}", other),
        }
    }
}

#[test]
fn test_webhook_refuses_invalid_utf8_and_invalid_json() {
    let mut state = state_with_processing_order();
    let e = stripe_webhook(&mut state, vec![0xff, 0xfe, 0x7b]).unwrap_err();
    assert!(matches!(
        e,
        ServiceError::MalformedPayload { payload: PayloadDefect::InvalidUtf8 }
    ));
    assert_eq!(e.kind(), ErrorKind::MalformedPayload);
    assert_eq!(e.status_code(), 400);

    let e = stripe_webhook(&mut state, b"{oops".to_vec()).unwrap_err();
    assert!(matches!(
        e,
        ServiceError::MalformedPayload { payload: PayloadDefect::InvalidJson }
    ));
    assert_eq!(get_order(&state, "order_1").unwrap().status, OrderStatus::Processing);
}

#[test]
fn test_webhook_acknowledges_unknown_type_and_changes_nothing() {
    let mut state = state_with_processing_order();
    let note = stripe_webhook(&mut state, br#"{"type":"charge.refunded"}"#.to_vec()).unwrap();
    assert!(note.is_none());
    let note = stripe_webhook(&mut state, b"{}".to_vec()).unwrap();
    assert!(note.is_none());
    assert_eq!(get_order(&state, "order_1").unwrap().status, OrderStatus::Processing);
    assert_eq!(state.products.get("cap_001").unwrap().stock, 50);
    assert!(state.carts.contains_key("u1"));
    assert!(state.payment_methods.is_empty());
}

#[test]
fn test_payment_succeeded_for_unknown_or_absent_order_is_a_no_op() {
    let mut state = state_with_processing_order();
    let unknown = br#"{"type":"payment_intent.succeeded","data":{"object":{"id":"pi_1","metadata":{"order_id":"other"}}}}"#;
    assert!(stripe_webhook(&mut state, unknown.to_vec()).unwrap().is_none());
    let absent = br#"{"type":"payment_intent.succeeded","data":{"object":{"id":"pi_1"}}}"#;
    assert!(stripe_webhook(&mut state, absent.to_vec()).unwrap().is_none());

    assert_eq!(get_order(&state, "order_1").unwrap().status, OrderStatus::Processing);
    assert_eq!(state.products.get("cap_001").unwrap().stock, 50);
    assert!(state.carts.contains_key("u1"));
}

#[test]
fn test_payment_succeeded_sets_times_and_keeps_lines() {
    let mut state = state_with_processing_order();
    let event = WebhookEvent::PaymentSucceeded {
        payment_intent_id: "pi_1".to_string(),
        order_id: Some("order_1".to_string()),
    };
    let note = apply_event_at(&mut state, &event, at(T0 + 90), "unused".to_string());
    assert!(matches!(note, Some(Notification::OrderConfirmed { order_id }) if order_id == "order_1"));

    let order = get_order(&state, "order_1").unwrap();
    assert_eq!(order.status, OrderStatus::Completed);
    assert_eq!(order.updated_at, at(T0 + 90));
    assert_eq!(order.created_at, at(T0));
    assert_eq!(order.items.len(), 1);
    assert_eq!(order.total, 5000);
    assert_eq!(order.payment_intent_id.as_deref(), Some("pi_1"));
    assert_eq!(state.products.get("cap_002").unwrap().stock, 30);
}

#[test]
fn test_payment_succeeded_has_no_floor_and_passes_over_unknown_products() {
    let mut state = state_with_processing_order();
    state.products.get_mut("cap_001").unwrap().stock = 1;
    state.orders.get_mut("order_1").unwrap().items.push(ruststripe::models::OrderItem {
        product_id: "gone".to_string(),
        product_name: "Gone".to_string(),
        quantity: 4,
        price: 1,
    });
    let event = WebhookEvent::PaymentSucceeded {
        payment_intent_id: "pi_1".to_string(),
        order_id: Some("order_1".to_string()),
    };
    apply_event(&mut state, &event);
    assert_eq!(state.products.get("cap_001").unwrap().stock, -1);
    assert!(!state.products.contains_key("gone"));
    assert_eq!(state.products.len(), 3);
}

#[test]
fn test_payment_succeeded_sums_lines_of_one_product() {
    let mut state = state_with_processing_order();
    state.orders.get_mut("order_1").unwrap().status = OrderStatus::Pending;
    let req = UpdateOrderRequest {
        items: vec![
            CartItem { product_id: "cap_001".to_string(), quantity: 3 },
            CartItem { product_id: "cap_002".to_string(), quantity: 1 },
            CartItem { product_id: "cap_001".to_string(), quantity: 4 },
        ],
    };
    update_order_at(&mut state, "order_1", &req, at(T0 + 1)).unwrap();
    let event = WebhookEvent::PaymentSucceeded {
        payment_intent_id: "pi_1".to_string(),
        order_id: Some("order_1".to_string()),
    };
    apply_event_at(&mut state, &event, at(T0 + 2), "unused".to_string());
    assert_eq!(state.products.get("cap_001").unwrap().stock, 43);
    assert_eq!(state.products.get("cap_002").unwrap().stock, 29);
    assert_eq!(state.products.get("cap_003").unwrap().stock, 20);
}

#[test]
fn test_stock_saturates_at_the_counter_range() {
    let mut state = state_with_processing_order();
    state.insert_product(Product {
        id: "cap_001".to_string(),
        name: "Casquette Classic Rouge".to_string(),
        price: 2500,
        stock: i32::MIN + 1,
        description: "Low".to_string(),
    });
    let event = WebhookEvent::PaymentSucceeded {
        payment_intent_id: "pi_1".to_string(),
        order_id: Some("order_1".to_string()),
    };
    apply_event_at(&mut state, &event, at(T0 + 2), "unused".to_string());
    assert_eq!(state.products.get("cap_001").unwrap().stock, i32::MIN);
}

#[test]
fn test_payment_failed_marks_order_failed() {
    let mut state = state_with_processing_order();
    let body = br#"{"type":"payment_intent.payment_failed","data":{"object":{"id":"pi_1","metadata":{"order_id":"order_1"}}}}"#;
    let note = stripe_webhook_at(&mut state, body.to_vec(), at(T0 + 5), "x".to_string()).unwrap();
    assert!(matches!(note, Some(Notification::PaymentFailed { order_id }) if order_id == "order_1"));
    let order = get_order(&state, "order_1").unwrap();
    assert_eq!(order.status, OrderStatus::Failed);
    assert_eq!(order.updated_at, at(T0 + 5));
    assert_eq!(state.products.get("cap_001").unwrap().stock, 50);
    assert!(state.carts.contains_key("u1"));

    let unknown = br#"{"type":"payment_intent.payment_failed","data":{"object":{"metadata":{"order_id":"zz"}}}}"#;
    assert!(stripe_webhook(&mut state, unknown.to_vec()).unwrap().is_none());
}

#[test]
fn test_setup_succeeded_saves_method_and_first_is_default() {
    let mut state = new_state();
    assert!(!has_saved_method(&state, &"u1".to_string()));
    let body = br#"{"type":"setup_intent.succeeded","data":{"object":{"payment_method":"pm_a","metadata":{"user_id":"u1"}}}}"#;
    let note = stripe_webhook_at(&mut state, body.to_vec(), at(T0), "m1".to_string()).unwrap();
    assert!(matches!(note, Some(Notification::CardSaved { card_last4 }) if card_last4 == "4242"));
    {
        let first = state.payment_methods.get("m1").unwrap();
        assert_eq!(first.id, "m1");
        assert_eq!(first.user_id, "u1");
        assert_eq!(first.stripe_payment_method_id, "pm_a");
        assert_eq!(first.card_last4, "4242");
        assert_eq!(first.card_brand, "visa");
        assert_eq!(first.exp_month, 12);
        assert_eq!(first.exp_year, 2025);
        assert!(first.is_default);
        assert_eq!(first.created_at, at(T0));
    }
    assert!(has_saved_method(&state, &"u1".to_string()));
    assert!(!has_saved_method(&state, &"u2".to_string()));

    let second = br#"{"type":"setup_intent.succeeded","data":{"object":{"payment_method":"pm_b","metadata":{"user_id":"u1"}}}}"#;
    stripe_webhook_at(&mut state, second.to_vec(), at(T0 + 1), "m2".to_string()).unwrap();
    assert!(!state.payment_methods.get("m2").unwrap().is_default);
    assert!(state.payment_methods.get("m1").unwrap().is_default);

    let other = br#"{"type":"setup_intent.succeeded","data":{"object":{"payment_method":"pm_c","metadata":{"user_id":"u2"}}}}"#;
    stripe_webhook(&mut state, other.to_vec()).unwrap();
    assert_eq!(state.payment_methods.len(), 3);
    let theirs: Vec<bool> = state
        .payment_methods
        .iter()
        .filter(|m| m.user_id == "u2")
        .map(|m| m.is_default)
        .collect();
    assert_eq!(theirs, vec![true]);
}

#[test]
fn test_invoice_failed_suspends_from_the_third_attempt() {
    let mut state = new_state();
    state.subscriptions.insert("s1".to_string(), subscription("s1", "sub_A"));
    state.subscriptions.insert("s2".to_string(), subscription("s2", "sub_B"));

    let second = br#"{"type":"invoice.payment_failed","data":{"object":{"subscription":"sub_A","attempt_count":2}}}"#;
    let note = stripe_webhook(&mut state, second.to_vec()).unwrap();
    assert!(matches!(note, Some(Notification::PaymentRetry { attempts_left: 1 })));
    assert_eq!(state.subscriptions.get("s1").unwrap().status, SubscriptionStatus::Active);

    let third = br#"{"type":"invoice.payment_failed","data":{"object":{"subscription":"sub_A","attempt_count":3}}}"#;
    let note = stripe_webhook(&mut state, third.to_vec()).unwrap();
    assert!(matches!(note, Some(Notification::SubscriptionSuspended)));
    assert_eq!(state.subscriptions.get("s1").unwrap().status, SubscriptionStatus::PastDue);
    assert_eq!(state.subscriptions.get("s2").unwrap().status, SubscriptionStatus::Active);
    assert_eq!(state.subscriptions.get("s1").unwrap().stripe_subscription_id, "sub_A");

    let unknown = br#"{"type":"invoice.payment_failed","data":{"object":{"subscription":"sub_Z","attempt_count":7}}}"#;
    assert!(stripe_webhook(&mut state, unknown.to_vec()).unwrap().is_none());
    assert_eq!(state.subscriptions.get("s2").unwrap().status, SubscriptionStatus::Active);
}

#[test]
fn test_invoice_failed_suspends_only_one_of_several() {
    let mut state = new_state();
    state.subscriptions.insert("s1".to_string(), subscription("s1", "sub_A"));
    state.subscriptions.insert("s2".to_string(), subscription("s2", "sub_A"));
    let event = WebhookEvent::InvoiceFailed { subscription_id: "sub_A".to_string(), attempt_count: 3 };
    apply_event(&mut state, &event);
    let suspended = state
        .subscriptions
        .iter()
        .filter(|s| s.status == SubscriptionStatus::PastDue)
        .count();
    assert_eq!(suspended, 1);
}

#[test]
fn test_attempts_left_formula() {
    let mut state = new_state();
    for (count, left) in [(0, 3), (1, 2), (2, 1), (-4, 7), (i64::MIN, i64::MAX)] {
        let event =
            WebhookEvent::InvoiceFailed { subscription_id: "s".to_string(), attempt_count: count };
        match apply_event(&mut state, &event) {
            Some(Notification::PaymentRetry { attempts_left }) => assert_eq!(attempts_left, left),
            other => panic!("expected a retry, got {:?}", other),
        }
    }
}

#[test]
fn test_invoice_paid_only_notifies() {
    let mut state = new_state();
    state.subscriptions.insert("s1".to_string(), subscription("s1", "sub_A"));
    let body = br#"{"type":"invoice.payment_succeeded","data":{"object":{"subscription":"sub_A","amount_paid":1000}}}"#;
    let note = stripe_webhook(&mut state, body.to_vec()).unwrap();
    assert!(matches!(note, Some(Notification::SubscriptionRenewed { amount_paid: 1000 })));
    assert_eq!(state.subscriptions.get("s1").unwrap().status, SubscriptionStatus::Active);
    for body in [
        br#"{"type":"customer.subscription.created"}"#.to_vec(),
        br#"{"type":"customer.source.expiring"}"#.to_vec(),
    ] {
        assert!(stripe_webhook(&mut state, body).unwrap().is_none());
    }
}
