use ruststripe::cart::{add_to_cart, add_to_cart_at, view_cart};
use ruststripe::errors::{Entity, ErrorKind, InputDefect, OrderAction, ServiceError};
use ruststripe::models::{
    AddToCartRequest, Cart, CartItem, CheckoutRequest, ListOrdersQuery, OrderStatus, Product,
    UpdateOrderRequest, ViewCartQuery,
};
use ruststripe::orders::{
    cancel_order, cancel_order_at, checkout, checkout_at, complete_checkout, get_order,
    list_orders, update_order, update_order_at, PaymentIntentRef,
};
use ruststripe::pricing::calculate_cart;
use ruststripe::state::{AppState, Config};
use ruststripe::time::Timestamp;
use ruststripe::webhooks::{stripe_webhook, stripe_webhook_at, Notification};

const T0: i64 = 1_700_000_000;

fn at(secs: i64) -> Timestamp {
    Timestamp::from_unix(secs, 0).unwrap()
}

fn new_state() -> AppState {
    AppState::new(Config {
        stripe_secret_key: "sk_test_fake".to_string(),
        stripe_webhook_secret: "whsec_test".to_string(),
        base_url: "http://localhost:3000".to_string(),
    })
}

fn add(user: &str, product: &str, quantity: i32) -> AddToCartRequest {
    AddToCartRequest {
        user_id: user.to_string(),
        product_id: product.to_string(),
        quantity,
    }
}

fn line(product: &str, quantity: i32) -> CartItem {
    CartItem { product_id: product.to_string(), quantity }
}

fn paid(id: &str, secret: Option<&str>) -> Result<PaymentIntentRef, String> {
    Ok(PaymentIntentRef { id: id.to_string(), client_secret: secret.map(|s| s.to_string()) })
}

fn succeeded_event(order_id: &str) -> Vec<u8> {
    format!(
        "{{\"type\":\"payment_intent.succeeded\",\"data\":{{\"object\":{{\"id\":\"pi_1\",\"metadata\":{{\"order_id\":\"{}\"}}}}}}}}",
        order_id
    )
    .into_bytes()
}

/// A processing order of `u1` for two `cap_001`, under the id `order_1`.
fn state_with_processing_order() -> AppState {
    let mut state = new_state();
    add_to_cart_at(&mut state, &add("u1", "cap_001", 2), at(T0)).unwrap();
    let req = CheckoutRequest { user_id: "u1".to_string() };
    let order = checkout_at(&state, &req, "order_1".to_string(), at(T0)).unwrap();
    complete_checkout(&mut state, order, paid("pi_1", Some("secret_1"))).unwrap();
    state
}

/// As above, but the order is put back to `status`.
fn state_with_order_in(status: OrderStatus) -> AppState {
    let state = state_with_processing_order();
    state.orders.get_mut("order_1").unwrap().status = status;
    state
}

#[test]
fn test_cart_to_completed_order_scenario() {
    let mut state = new_state();

    let cart = add_to_cart(&mut state, &add("u1", "cap_001", 2)).unwrap();
    assert_eq!(cart.items.len(), 1);
    assert_eq!(cart.items[0].quantity, 2);

    let shown = view_cart(&state, &ViewCartQuery { user_id: "u1".to_string() }).unwrap();
    assert_eq!(shown.total, 5000);
    assert!(shown.stock_warnings.is_empty());
    assert_eq!(shown.items[0].subtotal, 5000);

    let order = checkout(&state, &CheckoutRequest { user_id: "u1".to_string() }).unwrap();
    assert_eq!(order.status, OrderStatus::Pending);
    assert_eq!(order.total, 5000);
    assert!(order.payment_intent_id.is_none());
    assert!(state.orders.is_empty());
    let order_id = order.id.clone();

    let response = complete_checkout(&mut state, order, paid("pi_1", Some("secret_1"))).unwrap();
    assert_eq!(response.order_id, order_id);
    assert_eq!(response.client_secret, "secret_1");
    assert_eq!(response.checkout_url, format!("http://localhost:3000/checkout/{}", order_id));
    let stored = get_order(&state, &order_id).unwrap();
    assert_eq!(stored.status, OrderStatus::Processing);
    assert_eq!(stored.total, 5000);
    assert_eq!(stored.payment_intent_id.as_deref(), Some("pi_1"));
    assert!(state.carts.contains_key("u1"));
    assert_eq!(state.products.get("cap_001").unwrap().stock, 50);

    let note = stripe_webhook(&mut state, succeeded_event(&order_id)).unwrap();
    assert!(matches!(note, Some(Notification::OrderConfirmed { order_id: id }) if id == order_id));
    assert_eq!(get_order(&state, &order_id).unwrap().status, OrderStatus::Completed);
    assert_eq!(state.products.get("cap_001").unwrap().stock, 48);
    assert!(!state.carts.contains_key("u1"));
}

#[test]
fn test_cancel_after_window_fails_and_within_window_succeeds() {
    let mut state = state_with_order_in(OrderStatus::Pending);

    let late = cancel_order_at(&mut state, "order_1", at(T0 + 25 * 3600));
    match late {
        Err(ServiceError::CancellationWindowExpired { action, elapsed_hours }) => {
            assert_eq!(action, OrderAction::Cancel);
            assert_eq!(elapsed_hours, 25);
        }
        other => panic!("expected an expired window, got {:?}", other),
    }
    assert_eq!(get_order(&state, "order_1").unwrap().status, OrderStatus::Pending);

    let receipt = cancel_order_at(&mut state, "order_1", at(T0 + 23 * 3600)).unwrap();
    assert_eq!(receipt.order_id, "order_1");
    assert_eq!(receipt.hours_since_order, 23);
    assert_eq!(receipt.cancelled_at, at(T0 + 23 * 3600));
    let order = get_order(&state, "order_1").unwrap();
    assert_eq!(order.status, OrderStatus::Cancelled);
    assert_eq!(order.updated_at, at(T0 + 23 * 3600));
    assert_eq!(order.created_at, at(T0));
}

#[test]
fn test_cancel_window_is_inclusive_of_the_last_hour() {
    let mut state = state_with_order_in(OrderStatus::Failed);
    let receipt = cancel_order_at(&mut state, "order_1", at(T0 + 25 * 3600 - 1)).unwrap();
    assert_eq!(receipt.hours_since_order, 24);
    assert_eq!(get_order(&state, "order_1").unwrap().status, OrderStatus::Cancelled);
}

#[test]
fn test_cancel_is_refused_by_status() {
    for status in [OrderStatus::Processing, OrderStatus::Completed, OrderStatus::Cancelled] {
        let mut state = state_with_order_in(status);
        match cancel_order_at(&mut state, "order_1", at(T0 + 3600)) {
            Err(ServiceError::InvalidState { action, status: found }) => {
                assert_eq!(action, OrderAction::Cancel);
                assert_eq!(found, status);
            }
            other => panic!("expected an invalid state, got {:?}", other),
        }
        assert_eq!(get_order(&state, "order_1").unwrap().status, status);
    }
}

#[test]
fn test_cancel_unknown_order_is_not_found() {
    let mut state = new_state();
    match cancel_order(&mut state, "nope") {
        Err(ServiceError::NotFound { entity, id }) => {
            assert_eq!(entity, Entity::Order);
            assert_eq!(id, "nope");
        }
        other => panic!("expected not found, got {:?}", other),
    }
}

#[test]
fn test_cancel_now_on_old_order_is_expired() {
    let mut state = state_with_order_in(OrderStatus::Pending);
    let e = cancel_order(&mut state, "order_1").unwrap_err();
    assert_eq!(e.kind(), ErrorKind::CancellationWindowExpired);
    assert_eq!(e.status_code(), 400);
}

#[test]
fn test_add_to_cart_accumulates_quantities() {
    let mut state = new_state();
    add_to_cart_at(&mut state, &add("u1", "cap_001", 2), at(T0)).unwrap();
    add_to_cart_at(&mut state, &add("u1", "cap_002", 1), at(T0 + 1)).unwrap();
    let cart = add_to_cart_at(&mut state, &add("u1", "cap_001", 3), at(T0 + 2)).unwrap();

    assert_eq!(cart.user_id, "u1");
    assert_eq!(cart.created_at, at(T0));
    assert_eq!(cart.items.len(), 2);
    assert_eq!(cart.items[0].product_id, "cap_001");
    assert_eq!(cart.items[0].quantity, 5);
    assert_eq!(cart.items[1].product_id, "cap_002");
    assert_eq!(cart.items[1].quantity, 1);

    let shown = view_cart(&state, &ViewCartQuery { user_id: "u1".to_string() }).unwrap();
    assert_eq!(shown.items.len(), 2);
    assert_eq!(shown.items[0].quantity, 5);
    assert_eq!(shown.items[0].name, "Casquette Classic Rouge");
    assert_eq!(shown.items[0].price, 2500);
    assert_eq!(shown.items[0].subtotal, 12500);
    assert_eq!(shown.items[1].subtotal, 3000);
    assert_eq!(shown.total, 15500);
    assert_eq!(shown.created_at, at(T0));
    assert_eq!(state.products.get("cap_001").unwrap().stock, 50);
}

#[test]
fn test_add_to_cart_keeps_carts_apart() {
    let mut state = new_state();
    add_to_cart_at(&mut state, &add("u1", "cap_001", 2), at(T0)).unwrap();
    add_to_cart_at(&mut state, &add("u2", "cap_001", 7), at(T0)).unwrap();
    assert_eq!(state.carts.get("u1").unwrap().items[0].quantity, 2);
    assert_eq!(state.carts.get("u2").unwrap().items[0].quantity, 7);
}

#[test]
fn test_add_to_cart_unknown_product() {
    let mut state = new_state();
    match add_to_cart_at(&mut state, &add("u1", "cap_999", 1), at(T0)) {
        Err(ServiceError::NotFound { entity, id }) => {
            assert_eq!(entity, Entity::Product);
            assert_eq!(id, "cap_999");
        }
        other => panic!("expected not found, got {:?}", other),
    }
    assert!(!state.carts.contains_key("u1"));
}

#[test]
fn test_add_to_cart_more_than_stock() {
    let mut state = new_state();
    match add_to_cart_at(&mut state, &add("u1", "cap_003", 21), at(T0)) {
        Err(ServiceError::InsufficientStock { product_name, available }) => {
            assert_eq!(product_name, "Casquette Premium Blanche");
            assert_eq!(available, 20);
        }
        other => panic!("expected insufficient stock, got {:?}", other),
    }
    assert!(!state.carts.contains_key("u1"));
    assert!(add_to_cart_at(&mut state, &add("u1", "cap_003", 20), at(T0)).is_ok());
}

#[test]
fn test_add_to_cart_counter_out_of_range() {
    let mut state = new_state();
    state.insert_product(Product {
        id: "bulk".to_string(),
        name: "Bulk".to_string(),
        price: 1,
        stock: i32::MAX,
        description: "Plenty".to_string(),
    });
    add_to_cart_at(&mut state, &add("u1", "bulk", i32::MAX), at(T0)).unwrap();
    match add_to_cart_at(&mut state, &add("u1", "bulk", 1), at(T0)) {
        Err(ServiceError::InvalidInput { input }) => {
            assert_eq!(input, InputDefect::QuantityOutOfRange)
        }
        other => panic!("expected an invalid input, got {:?}", other),
    }
    assert_eq!(state.carts.get("u1").unwrap().items[0].quantity, i32::MAX);
}

#[test]
fn test_view_cart_without_cart() {
    let state = new_state();
    match view_cart(&state, &ViewCartQuery { user_id: "ghost".to_string() }) {
        Err(ServiceError::NotFound { entity, id }) => {
            assert_eq!(entity, Entity::Cart);
            assert_eq!(id, "ghost");
        }
        other => panic!("expected not found, got {:?}", other),
    }
}

#[test]
fn test_view_cart_warns_and_prices_what_was_asked() {
    let mut state = new_state();
    add_to_cart_at(&mut state, &add("u1", "cap_003", 15), at(T0)).unwrap();
    add_to_cart_at(&mut state, &add("u1", "cap_001", 1), at(T0)).unwrap();
    state.products.get_mut("cap_003").unwrap().stock = 4;

    let shown = view_cart(&state, &ViewCartQuery { user_id: "u1".to_string() }).unwrap();
    assert_eq!(shown.total, 15 * 4500 + 2500);
    assert_eq!(shown.items[0].quantity, 15);
    assert_eq!(shown.stock_warnings.len(), 1);
    assert_eq!(shown.stock_warnings[0].product_name, "Casquette Premium Blanche");
    assert_eq!(shown.stock_warnings[0].requested, 15);
    assert_eq!(shown.stock_warnings[0].available, 4);
}

#[test]
fn test_calculate_cart_strict_and_lenient() {
    let state = new_state();
    let cart = Cart {
        user_id: "u1".to_string(),
        items: vec![line("cap_001", 2), line("cap_002", 31), line("cap_003", 21)],
        created_at: at(T0),
    };

    match calculate_cart(&cart, &state.products, true) {
        Err(ServiceError::InsufficientStock { product_name, available }) => {
            assert_eq!(product_name, "Casquette Sport Noire");
            assert_eq!(available, 30);
        }
        other => panic!("expected insufficient stock, got {:?}", other),
    }

    let calc = calculate_cart(&cart, &state.products, false).unwrap();
    assert_eq!(calc.total, 2 * 2500 + 31 * 3000 + 21 * 4500);
    assert_eq!(calc.items.len(), 3);
    assert_eq!(calc.items[1].product_id, "cap_002");
    assert_eq!(calc.items[1].product_name, "Casquette Sport Noire");
    assert_eq!(calc.items[1].price, 3000);
    assert_eq!(calc.items[1].quantity, 31);
    assert_eq!(calc.stock_warnings.len(), 2);
    assert_eq!(calc.stock_warnings[0].product_name, "Casquette Sport Noire");
    assert_eq!(calc.stock_warnings[1].available, 20);
}

#[test]
fn test_calculate_cart_unknown_product_and_empty() {
    let state = new_state();
    let cart = Cart {
        user_id: "u1".to_string(),
        items: vec![line("cap_001", 1), line("nope", 1)],
        created_at: at(T0),
    };
    for strict in [true, false] {
        match calculate_cart(&cart, &state.products, strict) {
            Err(ServiceError::NotFound { entity, id }) => {
                assert_eq!(entity, Entity::Product);
                assert_eq!(id, "nope");
            }
            other => panic!("expected not found, got {:?}", other),
        }
    }
    let empty = Cart { user_id: "u1".to_string(), items: vec![], created_at: at(T0) };
    let calc = calculate_cart(&empty, &state.products, true).unwrap();
    assert_eq!(calc.total, 0);
    assert!(calc.items.is_empty());
}

#[test]
fn test_calculate_cart_amount_out_of_range() {
    let mut state = new_state();
    state.insert_product(Product {
        id: "gem".to_string(),
        name: "Gem".to_string(),
        price: i64::MAX,
        stock: 10,
        description: "Dear".to_string(),
    });
    let one = Cart { user_id: "u1".to_string(), items: vec![line("gem", 1)], created_at: at(T0) };
    assert_eq!(calculate_cart(&one, &state.products, true).unwrap().total, i64::MAX);

    for items in [vec![line("gem", 2)], vec![line("gem", 1), line("cap_001", 1)]] {
        let cart = Cart { user_id: "u1".to_string(), items, created_at: at(T0) };
        match calculate_cart(&cart, &state.products, true) {
            Err(ServiceError::InvalidInput { input }) => {
                assert_eq!(input, InputDefect::AmountOutOfRange)
            }
            other => panic!("expected an invalid input, got {:?}", other),
        }
    }
}

#[test]
fn test_checkout_without_cart_and_with_empty_cart() {
    let state = new_state();
    let req = CheckoutRequest { user_id: "u1".to_string() };
    match checkout(&state, &req) {
        Err(ServiceError::NotFound { entity, .. }) => assert_eq!(entity, Entity::Cart),
        other => panic!("expected not found, got {:?}", other),
    }

    state.carts.insert(
        "u1".to_string(),
        Cart { user_id: "u1".to_string(), items: vec![], created_at: at(T0) },
    );
    let e = checkout(&state, &req).unwrap_err();
    assert!(matches!(e, ServiceError::EmptyCart));
    assert_eq!(e.kind(), ErrorKind::EmptyCart);
    assert_eq!(e.status_code(), 400);
}

#[test]
fn test_checkout_with_short_stock_creates_no_order() {
    let mut state = new_state();
    add_to_cart_at(&mut state, &add("u1", "cap_001", 1), at(T0)).unwrap();
    add_to_cart_at(&mut state, &add("u1", "cap_002", 30), at(T0)).unwrap();
    state.products.get_mut("cap_002").unwrap().stock = 29;

    let req = CheckoutRequest { user_id: "u1".to_string() };
    match checkout_at(&state, &req, "order_1".to_string(), at(T0)) {
        Err(ServiceError::InsufficientStock { product_name, available }) => {
            assert_eq!(product_name, "Casquette Sport Noire");
            assert_eq!(available, 29);
        }
        other => panic!("expected insufficient stock, got {:?}", other),
    }
    assert!(state.orders.is_empty());
    assert!(state.carts.contains_key("u1"));
}

#[test]
fn test_checkout_snapshot_does_not_follow_the_catalog() {
    let mut state = state_with_processing_order();
    {
        let mut cap = state.products.get_mut("cap_001").unwrap();
        cap.price = 9999;
        cap.name = "Renamed".to_string();
    }
    let order = get_order(&state, "order_1").unwrap();
    assert_eq!(order.items[0].price, 2500);
    assert_eq!(order.items[0].product_name, "Casquette Classic Rouge");
    assert_eq!(order.total, 5000);
    assert_eq!(order.user_id, "u1");
    assert_eq!(order.created_at, at(T0));
    let _ = &mut state;
}

#[test]
fn test_complete_checkout_processor_failure_stores_nothing() {
    let mut state = new_state();
    add_to_cart_at(&mut state, &add("u1", "cap_001", 2), at(T0)).unwrap();
    let req = CheckoutRequest { user_id: "u1".to_string() };
    let order = checkout_at(&state, &req, "order_1".to_string(), at(T0)).unwrap();

    let e = complete_checkout(&mut state, order, Err("card declined".to_string())).unwrap_err();
    match &e {
        ServiceError::ProcessorError { message } => assert_eq!(message, "card declined"),
        other => panic!("expected a processor error, got {:?}", other),
    }
    assert_eq!(e.status_code(), 500);
    assert!(state.orders.is_empty());
    assert!(state.carts.contains_key("u1"));
}

#[test]
fn test_complete_checkout_without_token_gives_empty_secret() {
    let mut state = new_state();
    add_to_cart_at(&mut state, &add("u1", "cap_001", 2), at(T0)).unwrap();
    let req = CheckoutRequest { user_id: "u1".to_string() };
    let order = checkout_at(&state, &req, "order_1".to_string(), at(T0)).unwrap();
    let response = complete_checkout(&mut state, order, paid("pi_9", None)).unwrap();
    assert_eq!(response.client_secret, "");
    assert_eq!(response.checkout_url, "http://localhost:3000/checkout/order_1");
}

#[test]
fn test_get_order_unknown() {
    let state = new_state();
    let e = get_order(&state, "nope").unwrap_err();
    assert_eq!(e.kind(), ErrorKind::NotFound);
    assert_eq!(e.status_code(), 404);
}

#[test]
fn test_list_orders_filters_by_user() {
    let mut state = state_with_processing_order();
    add_to_cart_at(&mut state, &add("u2", "cap_002", 1), at(T0)).unwrap();
    for id in ["order_2", "order_3"] {
        let req = CheckoutRequest { user_id: "u2".to_string() };
        let order = checkout_at(&state, &req, id.to_string(), at(T0)).unwrap();
        complete_checkout(&mut state, order, paid("pi_2", None)).unwrap();
    }

    let mine = list_orders(&state, &ListOrdersQuery { user_id: "u2".to_string() }).unwrap();
    let mut ids: Vec<String> = mine.iter().map(|o| o.id.clone()).collect();
    ids.sort();
    assert_eq!(ids, vec!["order_2".to_string(), "order_3".to_string()]);
    assert!(mine.iter().all(|o| o.user_id == "u2"));

    let theirs = list_orders(&state, &ListOrdersQuery { user_id: "u1".to_string() }).unwrap();
    assert_eq!(theirs.len(), 1);
    assert_eq!(theirs[0].id, "order_1");
    let none = list_orders(&state, &ListOrdersQuery { user_id: "u3".to_string() }).unwrap();
    assert!(none.is_empty());
}

#[test]
fn test_update_order_reprices_and_resets() {
    let mut state = state_with_order_in(OrderStatus::Failed);
    let req = UpdateOrderRequest { items: vec![line("cap_002", 3), line("cap_003", 1)] };
    let order = update_order_at(&mut state, "order_1", &req, at(T0 + 7200)).unwrap();

    assert_eq!(order.total, 3 * 3000 + 4500);
    assert_eq!(order.status, OrderStatus::Pending);
    assert!(order.payment_intent_id.is_none());
    assert_eq!(order.items.len(), 2);
    assert_eq!(order.items[0].product_name, "Casquette Sport Noire");
    assert_eq!(order.updated_at, at(T0 + 7200));
    assert_eq!(order.created_at, at(T0));

    let stored = get_order(&state, "order_1").unwrap();
    assert_eq!(stored.total, 13500);
    assert_eq!(stored.status, OrderStatus::Pending);
    assert!(stored.payment_intent_id.is_none());
    assert_eq!(stored.items[1].product_id, "cap_003");
}

#[test]
fn test_update_order_with_short_stock_leaves_order() {
    let mut state = state_with_order_in(OrderStatus::Pending);
    let req = UpdateOrderRequest { items: vec![line("cap_001", 1), line("cap_003", 21)] };
    match update_order_at(&mut state, "order_1", &req, at(T0 + 3600)) {
        Err(ServiceError::InsufficientStock { product_name, available }) => {
            assert_eq!(product_name, "Casquette Premium Blanche");
            assert_eq!(available, 20);
        }
        other => panic!("expected insufficient stock, got {:?}", other),
    }
    let stored = get_order(&state, "order_1").unwrap();
    assert_eq!(stored.total, 5000);
    assert_eq!(stored.items.len(), 1);
    assert_eq!(stored.items[0].quantity, 2);
    assert_eq!(stored.status, OrderStatus::Pending);
    assert_eq!(stored.payment_intent_id.as_deref(), Some("pi_1"));
    assert_eq!(stored.updated_at, at(T0));
}

#[test]
fn test_update_order_is_gated_like_cancel() {
    let req = UpdateOrderRequest { items: vec![line("cap_001", 1)] };

    let mut state = state_with_order_in(OrderStatus::Pending);
    match update_order_at(&mut state, "order_1", &req, at(T0 + 30 * 3600)) {
        Err(ServiceError::CancellationWindowExpired { action, elapsed_hours }) => {
            assert_eq!(action, OrderAction::Modify);
            assert_eq!(elapsed_hours, 30);
        }
        other => panic!("expected an expired window, got {:?}", other),
    }

    for status in [OrderStatus::Processing, OrderStatus::Completed, OrderStatus::Cancelled] {
        let mut state = state_with_order_in(status);
        match update_order_at(&mut state, "order_1", &req, at(T0 + 60)) {
            Err(ServiceError::InvalidState { action, status: found }) => {
                assert_eq!(action, OrderAction::Modify);
                assert_eq!(found, status);
            }
            other => panic!("expected an invalid state, got {:?}", other),
        }
    }

    let mut state = new_state();
    let e = update_order(&mut state, "nope", &req).unwrap_err();
    assert_eq!(e.kind(), ErrorKind::NotFound);
}

#[test]
fn test_update_order_with_unknown_product() {
    let mut state = state_with_order_in(OrderStatus::Pending);
    let req = UpdateOrderRequest { items: vec![line("nope", 1)] };
    let e = update_order_at(&mut state, "order_1", &req, at(T0 + 60)).unwrap_err();
    assert_eq!(e.kind(), ErrorKind::NotFound);
    assert_eq!(get_order(&state, "order_1").unwrap().total, 5000);
}

#[test]
fn test_replayed_payment_event_decrements_twice() {
    let mut state = state_with_processing_order();
    stripe_webhook_at(&mut state, succeeded_event("order_1"), at(T0 + 10), "x".to_string())
        .unwrap();
    assert_eq!(state.products.get("cap_001").unwrap().stock, 48);
    stripe_webhook_at(&mut state, succeeded_event("order_1"), at(T0 + 20), "x".to_string())
        .unwrap();
    assert_eq!(state.products.get("cap_001").unwrap().stock, 46);
    assert_eq!(get_order(&state, "order_1").unwrap().status, OrderStatus::Completed);
}
