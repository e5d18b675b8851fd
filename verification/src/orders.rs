use vstd::prelude::*;
use crate::errors::{Entity, OrderAction, ServiceError};
use crate::ids::new_id;
use crate::models::{
    CartItem, CheckoutRequest, CheckoutResponse, ListOrdersQuery, Order, OrderStatus, OrderView,
    UpdateOrderRequest,
};
use crate::pricing::{is_first_defect, lines_total, price_items, price_lines, priceable};
use crate::state::{AppState, StateView};
use crate::store::{lists_keys, store_get, store_insert, store_keys};
use crate::time::{hours_between, Timestamp};

verus! {

/// Hours after its creation during which an order can be cancelled or
/// modified.
pub const CANCELLATION_WINDOW_HOURS: i64 = 24;

/// Whether `e` says that the `entity` with the id `id` was not found.
pub open spec fn is_not_found(e: ServiceError, entity: Entity, id: Seq<char>) -> bool {
    e matches ServiceError::NotFound { entity: what, id: which } && what == entity && which@ == id
}

/// What the processor hands back for a payment that it has authorised: its
/// reference, and the token with which the client completes the payment.
#[derive(Debug)]
pub struct PaymentIntentRef {
    pub id: String,
    pub client_secret: Option<String>,
}

/// What a cancellation hands back.
#[derive(Debug)]
pub struct CancelReceipt {
    pub order_id: String,
    pub cancelled_at: Timestamp,
    pub hours_since_order: i64,
}

/// The order that a checkout of `user`'s cart builds: its lines priced
/// strictly, pending, with no payment reference yet.
pub open spec fn pending_order(
    s: StateView,
    user: String,
    order_id: String,
    now: Timestamp,
) -> OrderView {
    let lines = price_lines(s.carts[user@].items, s.products);
    OrderView {
        id: order_id,
        user_id: user,
        items: lines,
        total: lines_total(lines) as i64,
        status: OrderStatus::Pending,
        payment_intent_id: None,
        created_at: now,
        updated_at: now,
    }
}

/// What a checkout gives before the processor is asked: `NotFound` where the
/// user has no cart, `EmptyCart` where the cart has no line, the defect of
/// the first line that has one under strict pricing, or else the pending
/// order.
pub open spec fn checkout_post(
    s: StateView,
    user: String,
    order_id: String,
    now: Timestamp,
    r: Result<Order, ServiceError>,
) -> bool {
    if !s.carts.contains_key(user@) {
        r == Err::<Order, ServiceError>(ServiceError::NotFound { entity: Entity::Cart, id: user })
    } else if s.carts[user@].items.len() == 0 {
        r == Err::<Order, ServiceError>(ServiceError::EmptyCart)
    } else {
        match r {
            Ok(o) => priceable(s.carts[user@].items, s.products, true) && o@ == pending_order(
                s,
                user,
                order_id,
                now,
            ),
            Err(e) => is_first_defect(s.carts[user@].items, s.products, true, e),
        }
    }
}

/// Builds the order for the cart of `req.user_id`, under the id `order_id`
/// and created at `now`. The order is pending and is not stored: it is
/// stored by `complete_checkout`, once the processor has authorised the
/// payment of `total`. Neither the cart nor the stock is touched.
pub fn checkout_at(state: &AppState, req: &CheckoutRequest, order_id: String, now: Timestamp) -> (r:
    Result<Order, ServiceError>)
    ensures
        checkout_post(state@, req.user_id, order_id, now, r),
{
    let cart = match store_get(&state.carts, req.user_id.as_str()) {
        Some(c) => c,
        None => {
            return Err(ServiceError::NotFound { entity: Entity::Cart, id: req.user_id.clone() });
        },
    };
    if cart.items.len() == 0 {
        return Err(ServiceError::EmptyCart);
    }
    let calc = match price_items(&cart.items, &state.products, true) {
        Ok(c) => c,
        Err(e) => {
            return Err(e);
        },
    };
    Ok(
        Order {
            id: order_id,
            user_id: req.user_id.clone(),
            items: calc.items,
            total: calc.total,
            status: OrderStatus::Pending,
            payment_intent_id: None,
            created_at: now,
            updated_at: now,
        },
    )
}

/// Builds the order for the cart of `req.user_id`, under a random id and
/// created at the clock's reading.
pub fn checkout(state: &AppState, req: &CheckoutRequest) -> (r: Result<Order, ServiceError>)
    ensures
        exists|order_id: String, now: Timestamp|
            checkout_post(state@, req.user_id, order_id, now, r),
{
    let order_id = new_id();
    let now = Timestamp::now();
    checkout_at(state, req, order_id, now)
}

/// The order as it is stored once the processor has authorised its payment.
pub open spec fn processing_order(order: OrderView, payment_id: String) -> OrderView {
    OrderView { status: OrderStatus::Processing, payment_intent_id: Some(payment_id), ..order }
}

/// The text of an optional token: empty where there is none.
pub open spec fn token_text(token: Option<String>) -> Seq<char> {
    match token {
        Some(t) => t@,
        None => Seq::empty(),
    }
}

/// The address at which the client completes the checkout of an order.
pub open spec fn checkout_url(base_url: Seq<char>, order_id: Seq<char>) -> Seq<char> {
    base_url + "/checkout/"@ + order_id
}

/// What completing a checkout does. Where the processor failed, the order is
/// not stored and the failure is a `ProcessorError` with the processor's
/// message. Where it authorised the payment, the order is stored under its
/// id, processing, with the payment's reference, and the response names the
/// order and carries the client's token.
pub open spec fn complete_checkout_post(
    pre: StateView,
    base_url: Seq<char>,
    order: OrderView,
    payment: Result<PaymentIntentRef, String>,
    post: StateView,
    r: Result<CheckoutResponse, ServiceError>,
) -> bool {
    match payment {
        Err(message) => {
            &&& r == Err::<CheckoutResponse, ServiceError>(ServiceError::ProcessorError { message })
            &&& post == pre
        },
        Ok(intent) => {
            &&& r matches Ok(resp)
            &&& resp.order_id == order.id
            &&& resp.checkout_url@ == checkout_url(base_url, order.id@)
            &&& resp.client_secret@ == token_text(intent.client_secret)
            &&& post == StateView {
                orders: pre.orders.insert(order.id@, processing_order(order, intent.id)),
                ..pre
            }
        },
    }
}

/// Completes a checkout with what the processor answered to the request for
/// a payment of `order.total`. The cart is left as it is: it goes when the
/// payment is confirmed.
pub fn complete_checkout(
    state: &mut AppState,
    order: Order,
    payment: Result<PaymentIntentRef, String>,
) -> (r: Result<CheckoutResponse, ServiceError>)
    ensures
        complete_checkout_post(
            old(state)@,
            old(state).config.base_url@,
            order@,
            payment,
            final(state)@,
            r,
        ),
        final(state).config == old(state).config,
{
    let intent = match payment {
        Ok(i) => i,
        Err(message) => {
            return Err(ServiceError::ProcessorError { message });
        },
    };
    let mut order = order;
    let order_id = order.id.clone();
    order.payment_intent_id = Some(intent.id);
    order.status = OrderStatus::Processing;
    store_insert(&mut state.orders, order_id.clone(), order);
    let mut url = state.config.base_url.clone();
    url.append("/checkout/");
    url.append(order_id.as_str());
    let client_secret = match intent.client_secret {
        Some(t) => t,
        None => String::new(),
    };
    Ok(CheckoutResponse { order_id, checkout_url: url, client_secret })
}

/// What looking up an order gives: the order stored under `order_id`, or
/// `NotFound`.
pub open spec fn get_order_post(s: StateView, order_id: Seq<char>, r: Result<Order, ServiceError>) -> bool {
    match r {
        Ok(o) => s.orders.contains_key(order_id) && o@ == s.orders[order_id],
        Err(e) => !s.orders.contains_key(order_id) && is_not_found(e, Entity::Order, order_id),
    }
}

/// The order stored under `order_id`.
pub fn get_order(state: &AppState, order_id: &str) -> (r: Result<Order, ServiceError>)
    ensures
        get_order_post(state@, order_id@, r),
{
    match store_get(&state.orders, order_id) {
        Some(o) => Ok(o),
        None => Err(ServiceError::NotFound { entity: Entity::Order, id: order_id.to_owned() }),
    }
}

/// Whether `listed` are the orders stored under `keys`, one for one.
pub open spec fn listed_under(
    orders: Map<Seq<char>, OrderView>,
    keys: Seq<Seq<char>>,
    listed: Seq<Order>,
) -> bool {
    &&& keys.len() == listed.len()
    &&& forall|i: int|
        0 <= i < keys.len() ==> orders.contains_key(#[trigger] keys[i]) && listed[i]@
            == orders[keys[i]]
}

/// Whether `listed` are the orders of `user`: each order that the store
/// holds for that user once, and nothing else, in no particular order.
pub open spec fn is_order_list(s: StateView, user: Seq<char>, listed: Seq<Order>) -> bool {
    exists|keys: Seq<Seq<char>>|
        {
            &&& keys.no_duplicates()
            &&& #[trigger] listed_under(s.orders, keys, listed)
            &&& forall|k: Seq<char>|
                keys.contains(k) <==> s.orders.contains_key(k) && s.orders[k].user_id@ == user
        }
}

/// The orders of `query.user_id`, found by going through the whole store.
pub fn list_orders(state: &AppState, query: &ListOrdersQuery) -> (r: Result<
    Vec<Order>,
    ServiceError,
>)
    ensures
        r matches Ok(listed) && is_order_list(state@, query.user_id@, listed@),
{
    let all = store_keys(&state.orders);
    let mut listed: Vec<Order> = Vec::new();
    let ghost mut keys: Seq<Seq<char>> = Seq::empty();
    let mut i: usize = 0;
    while i < all.len()
        invariant
            i <= all.len(),
            lists_keys(all@, state@.orders.dom()),
            keys.no_duplicates(),
            listed_under(state@.orders, keys, listed@),
            forall|k: Seq<char>|
                keys.contains(k) <==> (exists|a: int| 0 <= a < i && all@[a]@ == k)
                    && state@.orders[k].user_id@ == query.user_id@,
        decreases all.len() - i,
    {
        let found = store_get(&state.orders, all[i].as_str());
        match found {
            Some(o) => {
                if o.user_id == query.user_id {
                    let ghost k = all@[i as int]@;
                    proof {
                        if keys.contains(k) {
                            let a = choose|a: int| 0 <= a < i && all@[a]@ == k;
                            assert(all@[a]@ != all@[i as int]@);
                        }
                        let old_keys = keys;
                        keys = keys.push(k);
                        assert forall|q: Seq<char>|
                            keys.contains(q) <==> (exists|a: int| 0 <= a < i + 1 && all@[a]@ == q)
                                && state@.orders[q].user_id@ == query.user_id@ by {
                            if keys.contains(q) {
                                let idx = choose|idx: int| 0 <= idx < keys.len() && keys[idx] == q;
                                if idx < old_keys.len() {
                                    assert(old_keys.contains(q));
                                    let a = choose|a: int| 0 <= a < i && all@[a]@ == q;
                                    assert(0 <= a < i + 1 && all@[a]@ == q);
                                } else {
                                    assert(0 <= i < i + 1 && all@[i as int]@ == q);
                                }
                            }
                            if (exists|a: int| 0 <= a < i + 1 && all@[a]@ == q)
                                && state@.orders[q].user_id@ == query.user_id@ {
                                let a = choose|a: int| 0 <= a < i + 1 && all@[a]@ == q;
                                if a < i {
                                    assert(old_keys.contains(q));
                                    let idx = choose|idx: int|
                                        0 <= idx < old_keys.len() && old_keys[idx] == q;
                                    assert(keys[idx] == q);
                                } else {
                                    assert(keys[old_keys.len() as int] == q);
                                }
                            }
                        }
                    }
                    listed.push(o);
                } else {
                    proof {
                        assert forall|q: Seq<char>|
                            keys.contains(q) <==> (exists|a: int| 0 <= a < i + 1 && all@[a]@ == q)
                                && state@.orders[q].user_id@ == query.user_id@ by {
                            if keys.contains(q) {
                                let a = choose|a: int| 0 <= a < i && all@[a]@ == q;
                                assert(0 <= a < i + 1 && all@[a]@ == q);
                            }
                            if (exists|a: int| 0 <= a < i + 1 && all@[a]@ == q)
                                && state@.orders[q].user_id@ == query.user_id@ {
                                let a = choose|a: int| 0 <= a < i + 1 && all@[a]@ == q;
                                assert(a < i);
                            }
                        }
                    }
                }
            },
            None => {
                assert(false);
            },
        }
        i += 1;
    }
    proof {
        assert forall|k: Seq<char>|
            keys.contains(k) <==> state@.orders.contains_key(k) && state@.orders[k].user_id@
                == query.user_id@ by {
            if keys.contains(k) {
                let a = choose|a: int| 0 <= a < i && all@[a]@ == k;
                assert(state@.orders.contains_key(all@[a]@));
            }
            if state@.orders.contains_key(k) && state@.orders[k].user_id@ == query.user_id@ {
                assert(state@.orders.dom().contains(k));
                let a = choose|a: int| 0 <= a < all@.len() && all@[a]@ == k;
                assert(0 <= a < i && all@[a]@ == k);
            }
        }
    }
    Ok(listed)
}

/// Whether an order with this status can still be cancelled or modified.
pub open spec fn is_open(status: OrderStatus) -> bool {
    status == OrderStatus::Pending || status == OrderStatus::Failed
}

/// Why `order` can no longer be cancelled or modified at `now`, if so: the
/// window has passed, or else its status forbids it.
pub open spec fn gate_error(order: OrderView, action: OrderAction, now: Timestamp) -> Option<
    ServiceError,
> {
    let elapsed = hours_between(order.created_at, now);
    if elapsed > CANCELLATION_WINDOW_HOURS {
        Some(ServiceError::CancellationWindowExpired { action, elapsed_hours: elapsed as i64 })
    } else if !is_open(order.status) {
        Some(ServiceError::InvalidState { action, status: order.status })
    } else {
        None
    }
}

/// Tests the window and the status of `order` for `action` at `now`.
fn check_gate(order: &Order, action: OrderAction, now: &Timestamp) -> (r: Result<i64, ServiceError>)
    ensures
        match r {
            Ok(elapsed) => gate_error(order@, action, *now) is None && elapsed == hours_between(
                order.created_at,
                *now,
            ),
            Err(e) => gate_error(order@, action, *now) == Some(e),
        },
{
    let elapsed = order.created_at.hours_until(now);
    if elapsed > CANCELLATION_WINDOW_HOURS {
        return Err(ServiceError::CancellationWindowExpired { action, elapsed_hours: elapsed });
    }
    match order.status {
        OrderStatus::Pending | OrderStatus::Failed => Ok(elapsed),
        _ => Err(ServiceError::InvalidState { action, status: order.status }),
    }
}

/// The order after its cancellation at `now`.
pub open spec fn cancelled_order(order: OrderView, now: Timestamp) -> OrderView {
    OrderView { status: OrderStatus::Cancelled, updated_at: now, ..order }
}

/// What cancelling the order under `order_id` at `now` does. It fails with
/// `NotFound` where there is no such order, with `CancellationWindowExpired`
/// where more than the window's hours have passed since its creation, and
/// with `InvalidState` where it is processing, completed or cancelled; the
/// stores are then unchanged. Otherwise the order is stored as cancelled, and
/// nothing else changes.
pub open spec fn cancel_order_post(
    pre: StateView,
    order_id: Seq<char>,
    now: Timestamp,
    post: StateView,
    r: Result<CancelReceipt, ServiceError>,
) -> bool {
    if !pre.orders.contains_key(order_id) {
        &&& r matches Err(e)
        &&& is_not_found(e, Entity::Order, order_id)
        &&& post == pre
    } else {
        match r {
            Err(e) => gate_error(pre.orders[order_id], OrderAction::Cancel, now) == Some(e) && post
                == pre,
            Ok(receipt) => {
                &&& gate_error(pre.orders[order_id], OrderAction::Cancel, now) is None
                &&& receipt.order_id@ == order_id
                &&& receipt.cancelled_at == now
                &&& receipt.hours_since_order == hours_between(
                    pre.orders[order_id].created_at,
                    now,
                )
                &&& post == StateView {
                    orders: pre.orders.insert(
                        order_id,
                        cancelled_order(pre.orders[order_id], now),
                    ),
                    ..pre
                }
            },
        }
    }
}

/// Cancels the order under `order_id` at `now`. The processor is not asked
/// to reverse anything.
pub fn cancel_order_at(state: &mut AppState, order_id: &str, now: Timestamp) -> (r: Result<
    CancelReceipt,
    ServiceError,
>)
    ensures
        cancel_order_post(old(state)@, order_id@, now, final(state)@, r),
        final(state).config == old(state).config,
{
    let mut order = match store_get(&state.orders, order_id) {
        Some(o) => o,
        None => {
            return Err(ServiceError::NotFound { entity: Entity::Order, id: order_id.to_owned() });
        },
    };
    let elapsed = match check_gate(&order, OrderAction::Cancel, &now) {
        Ok(h) => h,
        Err(e) => {
            return Err(e);
        },
    };
    order.status = OrderStatus::Cancelled;
    order.updated_at = now;
    store_insert(&mut state.orders, order_id.to_owned(), order);
    Ok(CancelReceipt { order_id: order_id.to_owned(), cancelled_at: now, hours_since_order: elapsed })
}

/// Cancels the order under `order_id` at the clock's reading.
pub fn cancel_order(state: &mut AppState, order_id: &str) -> (r: Result<CancelReceipt, ServiceError>)
    ensures
        exists|now: Timestamp| cancel_order_post(old(state)@, order_id@, now, final(state)@, r),
        final(state).config == old(state).config,
{
    let now = Timestamp::now();
    cancel_order_at(state, order_id, now)
}

/// The order after its lines are replaced by `items`, priced strictly: it is
/// pending again and its payment reference is gone.
pub open spec fn modified_order(
    order: OrderView,
    items: Seq<CartItem>,
    catalog: Map<Seq<char>, crate::models::Product>,
    now: Timestamp,
) -> OrderView {
    let lines = price_lines(items, catalog);
    OrderView {
        items: lines,
        total: lines_total(lines) as i64,
        status: OrderStatus::Pending,
        payment_intent_id: None,
        updated_at: now,
        ..order
    }
}

/// Why the order under `order_id` cannot take `items` as its lines at `now`,
/// if so: the window, the status, or the defect of the first of `items` that
/// has one under strict pricing.
pub open spec fn update_order_fails(
    pre: StateView,
    order_id: Seq<char>,
    items: Seq<CartItem>,
    now: Timestamp,
    e: ServiceError,
) -> bool {
    if gate_error(pre.orders[order_id], OrderAction::Modify, now) is Some {
        gate_error(pre.orders[order_id], OrderAction::Modify, now) == Some(e)
    } else {
        is_first_defect(items, pre.products, true, e)
    }
}

/// What replacing the lines of the order under `order_id` does. It fails as
/// a cancellation would, or with the defect of the first new line that has
/// one under strict pricing; the stores are then unchanged. Otherwise the
/// order is stored with the new lines, and nothing else changes.
pub open spec fn update_order_post(
    pre: StateView,
    order_id: Seq<char>,
    items: Seq<CartItem>,
    now: Timestamp,
    post: StateView,
    r: Result<Order, ServiceError>,
) -> bool {
    if !pre.orders.contains_key(order_id) {
        &&& r matches Err(e)
        &&& is_not_found(e, Entity::Order, order_id)
        &&& post == pre
    } else {
        match r {
            Err(e) => update_order_fails(pre, order_id, items, now, e) && post == pre,
            Ok(o) => {
                &&& gate_error(pre.orders[order_id], OrderAction::Modify, now) is None
                &&& priceable(items, pre.products, true)
                &&& o@ == modified_order(pre.orders[order_id], items, pre.products, now)
                &&& post == StateView { orders: pre.orders.insert(order_id, o@), ..pre }
            },
        }
    }
}

/// Replaces the lines of the order under `order_id` by `req.items`, priced
/// strictly against the catalog as it is at `now`.
pub fn update_order_at(
    state: &mut AppState,
    order_id: &str,
    req: &UpdateOrderRequest,
    now: Timestamp,
) -> (r: Result<Order, ServiceError>)
    ensures
        update_order_post(old(state)@, order_id@, req.items@, now, final(state)@, r),
        final(state).config == old(state).config,
{
    let mut order = match store_get(&state.orders, order_id) {
        Some(o) => o,
        None => {
            return Err(ServiceError::NotFound { entity: Entity::Order, id: order_id.to_owned() });
        },
    };
    match check_gate(&order, OrderAction::Modify, &now) {
        Ok(_) => {},
        Err(e) => {
            return Err(e);
        },
    }
    let calc = match price_items(&req.items, &state.products, true) {
        Ok(c) => c,
        Err(e) => {
            return Err(e);
        },
    };
    order.items = calc.items;
    order.total = calc.total;
    order.updated_at = now;
    order.status = OrderStatus::Pending;
    order.payment_intent_id = None;
    store_insert(&mut state.orders, order_id.to_owned(), order.clone());
    Ok(order)
}

/// Replaces the lines of the order under `order_id` by `req.items`, at the
/// clock's reading.
pub fn update_order(state: &mut AppState, order_id: &str, req: &UpdateOrderRequest) -> (r: Result<
    Order,
    ServiceError,
>)
    ensures
        exists|now: Timestamp|
            update_order_post(old(state)@, order_id@, req.items@, now, final(state)@, r),
        final(state).config == old(state).config,
{
    let now = Timestamp::now();
    update_order_at(state, order_id, req, now)
}

} // verus!
