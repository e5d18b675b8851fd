use vstd::prelude::*;
use vstd::utf8::{decode_utf8, valid_utf8};
use dashmap::DashMap;
use crate::errors::{PayloadDefect, ServiceError};
use crate::ids::new_id;
use crate::json::{
    json_int_at, json_int_or_zero, json_is_valid, json_parses, json_text, json_text_at,
    json_text_or_empty, option_text, text_or_empty, utf8_text,
};
use crate::models::{
    OrderItem, OrderStatus, OrderView, Product, SavedPaymentMethod, SubscriptionStatus,
    UserSubscription,
};
use crate::state::{AppState, StateView};
use crate::store::{
    lists_keys, product_entries, store_get, store_insert, store_keys, store_remove,
};
use crate::time::Timestamp;

verus! {

/// An event of the processor, decoded by its type.
#[derive(Debug)]
pub enum WebhookEvent {
    /// `payment_intent.succeeded`
    PaymentSucceeded { payment_intent_id: String, order_id: Option<String> },
    /// `payment_intent.payment_failed`
    PaymentFailed { payment_intent_id: String, order_id: Option<String> },
    /// `setup_intent.succeeded`
    SetupSucceeded { payment_method_id: String, user_id: String },
    /// `customer.subscription.created`
    SubscriptionCreated,
    /// `invoice.payment_succeeded`
    InvoicePaid { subscription_id: String, amount_paid: i64 },
    /// `invoice.payment_failed`
    InvoiceFailed { subscription_id: String, attempt_count: i64 },
    /// `customer.source.expiring`
    SourceExpiring,
    /// Any other type: acknowledged, and nothing is done.
    Unknown { event_type: String },
}

/// The type of the event in `payload`: empty where it names none.
pub open spec fn event_type_of(payload: Seq<char>) -> Seq<char> {
    text_or_empty(json_text_at(payload, "/type"@))
}

/// The text at `pointer` in `payload`: empty where there is none.
pub open spec fn field_text(payload: Seq<char>, pointer: Seq<char>) -> Seq<char> {
    text_or_empty(json_text_at(payload, pointer))
}

/// The integer at `pointer` in `payload`: zero where there is none.
pub open spec fn field_int(payload: Seq<char>, pointer: Seq<char>) -> i64 {
    match json_int_at(payload, pointer) {
        Some(n) => n,
        None => 0i64,
    }
}

/// Whether `event` is what the JSON value `payload` decodes to.
pub open spec fn is_decoding(payload: Seq<char>, event: WebhookEvent) -> bool {
    let kind = event_type_of(payload);
    if kind == "payment_intent.succeeded"@ {
        &&& event matches WebhookEvent::PaymentSucceeded { payment_intent_id, order_id }
        &&& payment_intent_id@ == field_text(payload, "/data/object/id"@)
        &&& option_text(order_id) == json_text_at(payload, "/data/object/metadata/order_id"@)
    } else if kind == "payment_intent.payment_failed"@ {
        &&& event matches WebhookEvent::PaymentFailed { payment_intent_id, order_id }
        &&& payment_intent_id@ == field_text(payload, "/data/object/id"@)
        &&& option_text(order_id) == json_text_at(payload, "/data/object/metadata/order_id"@)
    } else if kind == "setup_intent.succeeded"@ {
        &&& event matches WebhookEvent::SetupSucceeded { payment_method_id, user_id }
        &&& payment_method_id@ == field_text(payload, "/data/object/payment_method"@)
        &&& user_id@ == field_text(payload, "/data/object/metadata/user_id"@)
    } else if kind == "customer.subscription.created"@ {
        event is SubscriptionCreated
    } else if kind == "invoice.payment_succeeded"@ {
        &&& event matches WebhookEvent::InvoicePaid { subscription_id, amount_paid }
        &&& subscription_id@ == field_text(payload, "/data/object/subscription"@)
        &&& amount_paid == field_int(payload, "/data/object/amount_paid"@)
    } else if kind == "invoice.payment_failed"@ {
        &&& event matches WebhookEvent::InvoiceFailed { subscription_id, attempt_count }
        &&& subscription_id@ == field_text(payload, "/data/object/subscription"@)
        &&& attempt_count == field_int(payload, "/data/object/attempt_count"@)
    } else if kind == "customer.source.expiring"@ {
        event is SourceExpiring
    } else {
        event matches WebhookEvent::Unknown { event_type } && event_type@ == kind
    }
}

/// Whether `text` is the text `literal`.
fn text_is(text: &String, literal: &str) -> (b: bool)
    ensures
        b == (text@ == literal@),
{
    let other = literal.to_owned();
    *text == other
}

/// Decodes the event that `payload` holds. A payload that is not JSON is
/// refused; one that is JSON always decodes, to `Unknown` where its type is
/// none of those that the service acts on.
pub fn decode_event(payload: &str) -> (r: Result<WebhookEvent, ServiceError>)
    ensures
        match r {
            Ok(event) => json_is_valid(payload@) && is_decoding(payload@, event),
            Err(e) => !json_is_valid(payload@) && e == (ServiceError::MalformedPayload {
                payload: PayloadDefect::InvalidJson,
            }),
        },
{
    if !json_parses(payload) {
        return Err(ServiceError::MalformedPayload { payload: PayloadDefect::InvalidJson });
    }
    let kind = json_text_or_empty(payload, "/type");
    if text_is(&kind, "payment_intent.succeeded") {
        Ok(
            WebhookEvent::PaymentSucceeded {
                payment_intent_id: json_text_or_empty(payload, "/data/object/id"),
                order_id: json_text(payload, "/data/object/metadata/order_id"),
            },
        )
    } else if text_is(&kind, "payment_intent.payment_failed") {
        Ok(
            WebhookEvent::PaymentFailed {
                payment_intent_id: json_text_or_empty(payload, "/data/object/id"),
                order_id: json_text(payload, "/data/object/metadata/order_id"),
            },
        )
    } else if text_is(&kind, "setup_intent.succeeded") {
        Ok(
            WebhookEvent::SetupSucceeded {
                payment_method_id: json_text_or_empty(payload, "/data/object/payment_method"),
                user_id: json_text_or_empty(payload, "/data/object/metadata/user_id"),
            },
        )
    } else if text_is(&kind, "customer.subscription.created") {
        Ok(WebhookEvent::SubscriptionCreated)
    } else if text_is(&kind, "invoice.payment_succeeded") {
        Ok(
            WebhookEvent::InvoicePaid {
                subscription_id: json_text_or_empty(payload, "/data/object/subscription"),
                amount_paid: json_int_or_zero(payload, "/data/object/amount_paid"),
            },
        )
    } else if text_is(&kind, "invoice.payment_failed") {
        Ok(
            WebhookEvent::InvoiceFailed {
                subscription_id: json_text_or_empty(payload, "/data/object/subscription"),
                attempt_count: json_int_or_zero(payload, "/data/object/attempt_count"),
            },
        )
    } else if text_is(&kind, "customer.source.expiring") {
        Ok(WebhookEvent::SourceExpiring)
    } else {
        Ok(WebhookEvent::Unknown { event_type: kind })
    }
}

/// What the user is to be told after an event.
#[derive(Debug)]
pub enum Notification {
    OrderConfirmed { order_id: String },
    PaymentFailed { order_id: String },
    CardSaved { card_last4: String },
    SubscriptionRenewed { amount_paid: i64 },
    SubscriptionSuspended,
    PaymentRetry { attempts_left: i64 },
}

/// Attempts at a payment after which a subscription is suspended.
pub const MAX_PAYMENT_ATTEMPTS: i64 = 3;

/// `n`, or the nearest stock count where `n` is none.
pub open spec fn clamp_stock(n: int) -> i32 {
    if n < i32::MIN {
        i32::MIN
    } else if n > i32::MAX {
        i32::MAX
    } else {
        n as i32
    }
}

/// The catalog after the quantity of `line` has left the stock of its
/// product. There is no floor at zero: the stock may go negative. A product
/// that the catalog does not hold is passed over.
pub open spec fn take_from_stock(catalog: Map<Seq<char>, Product>, line: OrderItem) -> Map<
    Seq<char>,
    Product,
> {
    let key = line.product_id@;
    if catalog.contains_key(key) {
        catalog.insert(
            key,
            Product { stock: clamp_stock(catalog[key].stock - line.quantity), ..catalog[key] },
        )
    } else {
        catalog
    }
}

/// The catalog after the quantities of `lines` have left the stock, line by
/// line.
pub open spec fn stock_after(catalog: Map<Seq<char>, Product>, lines: Seq<OrderItem>) -> Map<
    Seq<char>,
    Product,
>
    decreases lines.len(),
{
    if lines.len() == 0 {
        catalog
    } else {
        take_from_stock(stock_after(catalog, lines.drop_last()), lines.last())
    }
}

/// Takes the quantities of `lines` from the stock, line by line.
fn decrement_stock(products: &mut DashMap<String, Product>, lines: &Vec<OrderItem>)
    ensures
        product_entries(*final(products)) == stock_after(product_entries(*old(products)), lines@),
{
    let ghost pre = product_entries(*products);
    let mut i: usize = 0;
    while i < lines.len()
        invariant
            i <= lines.len(),
            product_entries(*products) == stock_after(pre, lines@.take(i as int)),
        decreases lines.len() - i,
    {
        let line = &lines[i];
        proof {
            assert(lines@.take(i + 1).drop_last() == lines@.take(i as int));
            assert(lines@.take(i + 1).last() == lines@[i as int]);
        }
        match store_get(products, line.product_id.as_str()) {
            Some(p) => {
                let mut product = p;
                let n: i64 = product.stock as i64 - line.quantity as i64;
                product.stock = if n < i32::MIN as i64 {
                    i32::MIN
                } else if n > i32::MAX as i64 {
                    i32::MAX
                } else {
                    n as i32
                };
                store_insert(products, line.product_id.clone(), product);
            },
            None => {},
        }
        i += 1;
    }
    assert(lines@.take(lines.len() as int) == lines@);
}

/// The order once its payment is confirmed.
pub open spec fn completed_order(order: OrderView, now: Timestamp) -> OrderView {
    OrderView { status: OrderStatus::Completed, updated_at: now, ..order }
}

/// The order once its payment has failed.
pub open spec fn failed_order(order: OrderView, now: Timestamp) -> OrderView {
    OrderView { status: OrderStatus::Failed, updated_at: now, ..order }
}

/// Whether the event names an order that the store holds.
pub open spec fn names_known_order(s: StateView, order_id: Option<String>) -> bool {
    order_id is Some && s.orders.contains_key(order_id->0@)
}

/// What a confirmed payment does. Where the event names an order that the
/// store holds, the order is completed, the quantities of its lines leave
/// the stock, and the cart of its user is removed. Otherwise nothing is
/// done.
pub open spec fn payment_succeeded_post(
    pre: StateView,
    order_id: Option<String>,
    now: Timestamp,
    post: StateView,
    note: Option<Notification>,
) -> bool {
    if names_known_order(pre, order_id) {
        let key = order_id->0@;
        let order = pre.orders[key];
        &&& post == StateView {
            orders: pre.orders.insert(key, completed_order(order, now)),
            products: stock_after(pre.products, order.items),
            carts: pre.carts.remove(order.user_id@),
            ..pre
        }
        &&& note == Some(Notification::OrderConfirmed { order_id: order_id->0 })
    } else {
        post == pre && note is None
    }
}

fn handle_payment_success(state: &mut AppState, order_id: &Option<String>, now: Timestamp) -> (note:
    Option<Notification>)
    ensures
        payment_succeeded_post(old(state)@, *order_id, now, final(state)@, note),
        final(state).config == old(state).config,
{
    let id = match order_id {
        Some(id) => id,
        None => {
            return None;
        },
    };
    let mut order = match store_get(&state.orders, id.as_str()) {
        Some(o) => o,
        None => {
            return None;
        },
    };
    order.status = OrderStatus::Completed;
    order.updated_at = now;
    decrement_stock(&mut state.products, &order.items);
    store_remove(&mut state.carts, order.user_id.as_str());
    store_insert(&mut state.orders, id.clone(), order);
    Some(Notification::OrderConfirmed { order_id: id.clone() })
}

/// What a failed payment does. Where the event names an order that the store
/// holds, the order is marked failed. Otherwise nothing is done.
pub open spec fn payment_failed_post(
    pre: StateView,
    order_id: Option<String>,
    now: Timestamp,
    post: StateView,
    note: Option<Notification>,
) -> bool {
    if names_known_order(pre, order_id) {
        let key = order_id->0@;
        &&& post == StateView {
            orders: pre.orders.insert(key, failed_order(pre.orders[key], now)),
            ..pre
        }
        &&& note == Some(Notification::PaymentFailed { order_id: order_id->0 })
    } else {
        post == pre && note is None
    }
}

fn handle_payment_failed(state: &mut AppState, order_id: &Option<String>, now: Timestamp) -> (note:
    Option<Notification>)
    ensures
        payment_failed_post(old(state)@, *order_id, now, final(state)@, note),
        final(state).config == old(state).config,
{
    let id = match order_id {
        Some(id) => id,
        None => {
            return None;
        },
    };
    let mut order = match store_get(&state.orders, id.as_str()) {
        Some(o) => o,
        None => {
            return None;
        },
    };
    order.status = OrderStatus::Failed;
    order.updated_at = now;
    store_insert(&mut state.orders, id.clone(), order);
    Some(Notification::PaymentFailed { order_id: id.clone() })
}

/// Whether `user` has a saved payment method.
pub open spec fn has_method(s: StateView, user: Seq<char>) -> bool {
    exists|k: Seq<char>|
        s.payment_methods.contains_key(k) && #[trigger] s.payment_methods[k].user_id@ == user
}

/// Whether `user_id` has a saved payment method, found by going through the
/// whole store.
pub fn has_saved_method(state: &AppState, user_id: &String) -> (b: bool)
    ensures
        b == has_method(state@, user_id@),
{
    let all = store_keys(&state.payment_methods);
    let mut i: usize = 0;
    while i < all.len()
        invariant
            i <= all.len(),
            lists_keys(all@, state@.payment_methods.dom()),
            forall|a: int|
                0 <= a < i ==> (#[trigger] state@.payment_methods[all@[a]@]).user_id@ != user_id@,
        decreases all.len() - i,
    {
        match store_get(&state.payment_methods, all[i].as_str()) {
            Some(m) => {
                if m.user_id == *user_id {
                    assert(state@.payment_methods.contains_key(all@[i as int]@));
                    return true;
                }
            },
            None => {},
        }
        i += 1;
    }
    proof {
        if has_method(state@, user_id@) {
            let k = choose|k: Seq<char>|
                state@.payment_methods.contains_key(k) && #[trigger] state@.payment_methods[k].user_id@
                    == user_id@;
            assert(state@.payment_methods.dom().contains(k));
            let a = choose|a: int| 0 <= a < all@.len() && #[trigger] all@[a]@ == k;
            assert(state@.payment_methods[all@[a]@].user_id@ != user_id@);
        }
    }
    false
}

/// Whether `method` is the record that a confirmed setup saves. The card's
/// details are stand-ins: the processor is not asked for the real ones.
pub open spec fn is_new_method(
    method: SavedPaymentMethod,
    id: String,
    payment_method_id: String,
    user_id: String,
    is_default: bool,
    now: Timestamp,
) -> bool {
    &&& method.id == id
    &&& method.user_id == user_id
    &&& method.stripe_payment_method_id == payment_method_id
    &&& method.card_last4@ == "4242"@
    &&& method.card_brand@ == "visa"@
    &&& method.exp_month == 12
    &&& method.exp_year == 2025
    &&& method.is_default == is_default
    &&& method.created_at == now
}

/// What a confirmed setup does: a payment method is saved for the user under
/// `id`, as the default one where the user had none.
pub open spec fn setup_succeeded_post(
    pre: StateView,
    payment_method_id: String,
    user_id: String,
    id: String,
    now: Timestamp,
    post: StateView,
    note: Option<Notification>,
) -> bool {
    &&& post.payment_methods.contains_key(id@)
    &&& is_new_method(
        post.payment_methods[id@],
        id,
        payment_method_id,
        user_id,
        !has_method(pre, user_id@),
        now,
    )
    &&& post == StateView {
        payment_methods: pre.payment_methods.insert(id@, post.payment_methods[id@]),
        ..pre
    }
    &&& note matches Some(Notification::CardSaved { card_last4 })
    &&& card_last4@ == "4242"@
}

fn handle_setup_success(
    state: &mut AppState,
    payment_method_id: &String,
    user_id: &String,
    id: String,
    now: Timestamp,
) -> (note: Option<Notification>)
    ensures
        setup_succeeded_post(
            old(state)@,
            *payment_method_id,
            *user_id,
            id,
            now,
            final(state)@,
            note,
        ),
        final(state).config == old(state).config,
{
    let is_default = !has_saved_method(state, user_id);
    let method = SavedPaymentMethod {
        id: id.clone(),
        user_id: user_id.clone(),
        stripe_payment_method_id: payment_method_id.clone(),
        card_last4: "4242".to_owned(),
        card_brand: "visa".to_owned(),
        exp_month: 12,
        exp_year: 2025,
        is_default,
        created_at: now,
    };
    store_insert(&mut state.payment_methods, id, method);
    Some(Notification::CardSaved { card_last4: "4242".to_owned() })
}

/// Whether the store holds, under `key`, a subscription with the
/// processor's reference `reference`.
pub open spec fn bills_to(s: StateView, key: Seq<char>, reference: Seq<char>) -> bool {
    s.subscriptions.contains_key(key) && s.subscriptions[key].stripe_subscription_id@ == reference
}

/// The subscription once its payments have failed too often.
pub open spec fn past_due(subscription: UserSubscription) -> UserSubscription {
    UserSubscription { status: SubscriptionStatus::PastDue, ..subscription }
}

/// What suspending does: one subscription with the processor's reference
/// `reference` becomes past due, whichever the store comes to first; where
/// there is none, nothing is done.
pub open spec fn suspension_post(
    pre: StateView,
    reference: Seq<char>,
    post: StateView,
    found: bool,
) -> bool {
    if exists|k: Seq<char>| bills_to(pre, k, reference) {
        &&& found
        &&& exists|k: Seq<char>|
            #[trigger] bills_to(pre, k, reference) && post == StateView {
                subscriptions: pre.subscriptions.insert(k, past_due(pre.subscriptions[k])),
                ..pre
            }
    } else {
        !found && post == pre
    }
}

fn suspend_subscription(state: &mut AppState, reference: &String) -> (found: bool)
    ensures
        suspension_post(old(state)@, reference@, final(state)@, found),
        final(state).config == old(state).config,
{
    let all = store_keys(&state.subscriptions);
    let mut i: usize = 0;
    while i < all.len()
        invariant
            i <= all.len(),
            *state == *old(state),
            lists_keys(all@, state@.subscriptions.dom()),
            forall|a: int| 0 <= a < i ==> !bills_to(state@, #[trigger] all@[a]@, reference@),
        decreases all.len() - i,
    {
        match store_get(&state.subscriptions, all[i].as_str()) {
            Some(found) => {
                if found.stripe_subscription_id == *reference {
                    let mut subscription = found;
                    subscription.status = SubscriptionStatus::PastDue;
                    assert(bills_to(old(state)@, all@[i as int]@, reference@));
                    store_insert(&mut state.subscriptions, all[i].clone(), subscription);
                    return true;
                }
            },
            None => {},
        }
        i += 1;
    }
    proof {
        if exists|k: Seq<char>| bills_to(state@, k, reference@) {
            let k = choose|k: Seq<char>| bills_to(state@, k, reference@);
            assert(state@.subscriptions.dom().contains(k));
            let a = choose|a: int| 0 <= a < all@.len() && #[trigger] all@[a]@ == k;
            assert(!bills_to(state@, all@[a]@, reference@));
        }
    }
    false
}

/// A paid invoice changes nothing: the user is told of the renewal.
fn handle_invoice_paid(amount_paid: i64) -> (note: Option<Notification>)
    ensures
        note == Some(Notification::SubscriptionRenewed { amount_paid }),
{
    Some(Notification::SubscriptionRenewed { amount_paid })
}

/// The attempts that are left before a subscription is suspended, after
/// `attempt_count` of them.
pub open spec fn attempts_left(attempt_count: i64) -> i64 {
    if MAX_PAYMENT_ATTEMPTS - attempt_count > i64::MAX {
        i64::MAX
    } else {
        (MAX_PAYMENT_ATTEMPTS - attempt_count) as i64
    }
}

/// What a failed payment of an invoice does: from the third attempt on, a
/// subscription with that reference is suspended; before, the user is told
/// of the attempts that are left.
pub open spec fn invoice_failed_post(
    pre: StateView,
    reference: Seq<char>,
    attempt_count: i64,
    post: StateView,
    note: Option<Notification>,
) -> bool {
    if attempt_count >= MAX_PAYMENT_ATTEMPTS {
        &&& suspension_post(pre, reference, post, note is Some)
        &&& note is Some ==> note == Some(Notification::SubscriptionSuspended)
    } else {
        &&& post == pre
        &&& note == Some(Notification::PaymentRetry { attempts_left: attempts_left(attempt_count) })
    }
}

fn handle_invoice_failed(state: &mut AppState, reference: &String, attempt_count: i64) -> (note:
    Option<Notification>)
    ensures
        invoice_failed_post(old(state)@, reference@, attempt_count, final(state)@, note),
        final(state).config == old(state).config,
{
    if attempt_count >= MAX_PAYMENT_ATTEMPTS {
        if suspend_subscription(state, reference) {
            Some(Notification::SubscriptionSuspended)
        } else {
            None
        }
    } else {
        let left = match MAX_PAYMENT_ATTEMPTS.checked_sub(attempt_count) {
            Some(n) => n,
            None => i64::MAX,
        };
        Some(Notification::PaymentRetry { attempts_left: left })
    }
}

/// What applying `event` at `now` does to the stores, and what the user is
/// to be told. `id` is the id under which a payment method is saved, where
/// the event has one saved. An event of an unknown type does nothing.
pub open spec fn apply_event_post(
    pre: StateView,
    event: WebhookEvent,
    now: Timestamp,
    id: String,
    post: StateView,
    note: Option<Notification>,
) -> bool {
    match event {
        WebhookEvent::PaymentSucceeded { order_id, .. } => payment_succeeded_post(
            pre,
            order_id,
            now,
            post,
            note,
        ),
        WebhookEvent::PaymentFailed { order_id, .. } => payment_failed_post(
            pre,
            order_id,
            now,
            post,
            note,
        ),
        WebhookEvent::SetupSucceeded { payment_method_id, user_id } => setup_succeeded_post(
            pre,
            payment_method_id,
            user_id,
            id,
            now,
            post,
            note,
        ),
        WebhookEvent::InvoicePaid { amount_paid, .. } => post == pre && note == Some(
            Notification::SubscriptionRenewed { amount_paid },
        ),
        WebhookEvent::InvoiceFailed { subscription_id, attempt_count } => invoice_failed_post(
            pre,
            subscription_id@,
            attempt_count,
            post,
            note,
        ),
        WebhookEvent::SubscriptionCreated => post == pre && note is None,
        WebhookEvent::SourceExpiring => post == pre && note is None,
        WebhookEvent::Unknown { .. } => post == pre && note is None,
    }
}

/// Applies `event` at `now`. `id` is used where the event has a payment
/// method saved.
pub fn apply_event_at(state: &mut AppState, event: &WebhookEvent, now: Timestamp, id: String) -> (note:
    Option<Notification>)
    ensures
        apply_event_post(old(state)@, *event, now, id, final(state)@, note),
        final(state).config == old(state).config,
{
    match event {
        WebhookEvent::PaymentSucceeded { order_id, .. } => handle_payment_success(
            state,
            order_id,
            now,
        ),
        WebhookEvent::PaymentFailed { order_id, .. } => handle_payment_failed(state, order_id, now),
        WebhookEvent::SetupSucceeded { payment_method_id, user_id } => handle_setup_success(
            state,
            payment_method_id,
            user_id,
            id,
            now,
        ),
        WebhookEvent::InvoicePaid { amount_paid, .. } => handle_invoice_paid(*amount_paid),
        WebhookEvent::InvoiceFailed { subscription_id, attempt_count } => handle_invoice_failed(
            state,
            subscription_id,
            *attempt_count,
        ),
        WebhookEvent::SubscriptionCreated => None,
        WebhookEvent::SourceExpiring => None,
        WebhookEvent::Unknown { .. } => None,
    }
}

/// Applies `event` at the clock's reading, with a random id where the event
/// has a payment method saved.
pub fn apply_event(state: &mut AppState, event: &WebhookEvent) -> (note: Option<Notification>)
    ensures
        exists|now: Timestamp, id: String|
            apply_event_post(old(state)@, *event, now, id, final(state)@, note),
        final(state).config == old(state).config,
{
    let now = Timestamp::now();
    let id = new_id();
    apply_event_at(state, event, now, id)
}

/// What one delivery does. A body that is not UTF-8, or not JSON, is
/// refused and nothing changes. Any other body is acknowledged: its event is
/// decoded and applied.
pub open spec fn webhook_post(
    pre: StateView,
    body: Seq<u8>,
    now: Timestamp,
    id: String,
    post: StateView,
    r: Result<Option<Notification>, ServiceError>,
) -> bool {
    if !valid_utf8(body) {
        &&& r == Err::<Option<Notification>, ServiceError>(
            ServiceError::MalformedPayload { payload: PayloadDefect::InvalidUtf8 },
        )
        &&& post == pre
    } else if !json_is_valid(decode_utf8(body)) {
        &&& r == Err::<Option<Notification>, ServiceError>(
            ServiceError::MalformedPayload { payload: PayloadDefect::InvalidJson },
        )
        &&& post == pre
    } else {
        &&& r matches Ok(note)
        &&& exists|event: WebhookEvent|
            is_decoding(decode_utf8(body), event) && #[trigger] apply_event_post(
                pre,
                event,
                now,
                id,
                post,
                note,
            )
    }
}

/// Takes one delivery of the processor at `now`. The sender is not
/// authenticated. `id` is used where the event has a payment method saved.
pub fn stripe_webhook_at(state: &mut AppState, body: Vec<u8>, now: Timestamp, id: String) -> (r:
    Result<Option<Notification>, ServiceError>)
    ensures
        webhook_post(old(state)@, body@, now, id, final(state)@, r),
        final(state).config == old(state).config,
{
    let payload = match utf8_text(body) {
        Some(p) => p,
        None => {
            return Err(ServiceError::MalformedPayload { payload: PayloadDefect::InvalidUtf8 });
        },
    };
    let event = match decode_event(payload.as_str()) {
        Ok(e) => e,
        Err(e) => {
            return Err(e);
        },
    };
    let note = apply_event_at(state, &event, now, id);
    Ok(note)
}

/// Takes one delivery of the processor at the clock's reading.
pub fn stripe_webhook(state: &mut AppState, body: Vec<u8>) -> (r: Result<
    Option<Notification>,
    ServiceError,
>)
    ensures
        exists|now: Timestamp, id: String|
            webhook_post(old(state)@, body@, now, id, final(state)@, r),
        final(state).config == old(state).config,
{
    let now = Timestamp::now();
    let id = new_id();
    stripe_webhook_at(state, body, now, id)
}

} // verus!
