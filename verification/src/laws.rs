use vstd::prelude::*;
use crate::cart::{
    add_line, first_line, has_line, lemma_first_line_exists, summary_lines, CartLine,
};
use crate::errors::{ErrorKind, OrderAction, ServiceError};
use crate::models::{CartItem, Order, OrderItem, OrderStatus, Product};
use crate::models::OrderView;
use crate::orders::{
    cancel_order_post, cancelled_order, checkout_post, gate_error, is_open, modified_order,
    pending_order, processing_order, update_order_post, CancelReceipt, CANCELLATION_WINDOW_HOURS,
};
use crate::pricing::{
    fits_amount, is_first_defect, is_short, line_defect, lines_total, price_lines, priceable,
};
use crate::state::StateView;
use crate::time::{hours_between, Timestamp};
use crate::webhooks::{
    completed_order, failed_order, names_known_order, payment_succeeded_post, stock_after,
    take_from_stock, Notification,
};

verus! {

/// How many of the product `pid` the lines of a cart ask for, all lines for
/// that product taken together.
pub open spec fn cart_quantity(items: Seq<CartItem>, pid: Seq<char>) -> int
    decreases items.len(),
{
    if items.len() == 0 {
        0
    } else if items.last().product_id@ == pid {
        cart_quantity(items.drop_last(), pid) + items.last().quantity
    } else {
        cart_quantity(items.drop_last(), pid)
    }
}

/// How many of the product `pid` the lines of an order hold, all lines for
/// that product taken together.
pub open spec fn ordered_quantity(lines: Seq<OrderItem>, pid: Seq<char>) -> int
    decreases lines.len(),
{
    if lines.len() == 0 {
        0
    } else if lines.last().product_id@ == pid {
        ordered_quantity(lines.drop_last(), pid) + lines.last().quantity
    } else {
        ordered_quantity(lines.drop_last(), pid)
    }
}

/// How many of the product `pid` the lines of a shown cart report, all lines
/// for that product taken together.
pub open spec fn shown_quantity(lines: Seq<CartLine>, pid: Seq<char>) -> int
    decreases lines.len(),
{
    if lines.len() == 0 {
        0
    } else if lines.last().product_id@ == pid {
        shown_quantity(lines.drop_last(), pid) + lines.last().quantity
    } else {
        shown_quantity(lines.drop_last(), pid)
    }
}

/// Whether no two lines of `items` are for the same product.
pub open spec fn lines_distinct(items: Seq<CartItem>) -> bool {
    forall|i: int, j: int|
        0 <= i < j < items.len() ==> items[i].product_id@ != items[j].product_id@
}

/// Whether the catalog holds every product under its own id.
pub open spec fn filed_under_ids(catalog: Map<Seq<char>, Product>) -> bool {
    forall|k: Seq<char>| catalog.contains_key(k) ==> (#[trigger] catalog[k]).id@ == k
}

/// Whether adding `quantity` of `product_id` keeps the line's counter within
/// its range.
pub open spec fn add_fits(items: Seq<CartItem>, product_id: String, quantity: i32) -> bool {
    has_line(items, product_id@) ==> i32::MIN <= items[first_line(items, product_id@)].quantity
        + quantity <= i32::MAX
}

proof fn lemma_quantity_of_replaced_line(
    items: Seq<CartItem>,
    i: int,
    line: CartItem,
    pid: Seq<char>,
)
    requires
        0 <= i < items.len(),
        line.product_id@ == items[i].product_id@,
    ensures
        cart_quantity(items.update(i, line), pid) == cart_quantity(items, pid) + (if line.product_id@
            == pid {
            line.quantity - items[i].quantity
        } else {
            0
        }),
    decreases items.len(),
{
    let after = items.update(i, line);
    if i == items.len() - 1 {
        assert(after.drop_last() == items.drop_last());
    } else {
        assert(after.drop_last() == items.drop_last().update(i, line));
        lemma_quantity_of_replaced_line(items.drop_last(), i, line, pid);
    }
}

/// An addition raises what the cart asks for of the added product by the
/// quantity added, and leaves what it asks for of every other product.
pub proof fn lemma_add_line_adds_quantity(
    items: Seq<CartItem>,
    product_id: String,
    quantity: i32,
    pid: Seq<char>,
)
    requires
        add_fits(items, product_id, quantity),
    ensures
        cart_quantity(add_line(items, product_id, quantity), pid) == cart_quantity(items, pid) + (
        if pid == product_id@ {
            quantity as int
        } else {
            0
        }),
{
    if has_line(items, product_id@) {
        let i = first_line(items, product_id@);
        lemma_first_line_exists(items, product_id@);
        let line = CartItem {
            product_id: items[i].product_id,
            quantity: (items[i].quantity + quantity) as i32,
        };
        lemma_quantity_of_replaced_line(items, i, line, pid);
    } else {
        let added = CartItem { product_id, quantity };
        assert(items.push(added).drop_last() == items);
    }
}

/// An addition keeps the lines of a cart distinct: no product gets a second
/// line.
pub proof fn lemma_add_line_keeps_lines_distinct(
    items: Seq<CartItem>,
    product_id: String,
    quantity: i32,
)
    requires
        lines_distinct(items),
    ensures
        lines_distinct(add_line(items, product_id, quantity)),
{
    if has_line(items, product_id@) {
        let i = first_line(items, product_id@);
        lemma_first_line_exists(items, product_id@);
    }
}

/// Additions made one after the other: the product and the quantity of each.
pub open spec fn cart_after_adds(adds: Seq<(String, i32)>) -> Seq<CartItem>
    decreases adds.len(),
{
    if adds.len() == 0 {
        Seq::empty()
    } else {
        add_line(cart_after_adds(adds.drop_last()), adds.last().0, adds.last().1)
    }
}

/// Whether each of the additions keeps its line's counter within its range.
pub open spec fn adds_fit(adds: Seq<(String, i32)>) -> bool
    decreases adds.len(),
{
    if adds.len() == 0 {
        true
    } else {
        adds_fit(adds.drop_last()) && add_fits(
            cart_after_adds(adds.drop_last()),
            adds.last().0,
            adds.last().1,
        )
    }
}

/// The sum of the quantities that the additions add of the product `pid`.
pub open spec fn added_quantity(adds: Seq<(String, i32)>, pid: Seq<char>) -> int
    decreases adds.len(),
{
    if adds.len() == 0 {
        0
    } else if adds.last().0@ == pid {
        added_quantity(adds.drop_last(), pid) + adds.last().1
    } else {
        added_quantity(adds.drop_last(), pid)
    }
}

/// After additions to an empty cart, the cart asks of each product for the
/// sum of what was added of it.
pub proof fn lemma_cart_holds_sum_of_adds(adds: Seq<(String, i32)>, pid: Seq<char>)
    requires
        adds_fit(adds),
    ensures
        cart_quantity(cart_after_adds(adds), pid) == added_quantity(adds, pid),
    decreases adds.len(),
{
    if adds.len() > 0 {
        lemma_cart_holds_sum_of_adds(adds.drop_last(), pid);
        lemma_add_line_adds_quantity(
            cart_after_adds(adds.drop_last()),
            adds.last().0,
            adds.last().1,
            pid,
        );
    }
}

/// Whether the catalog holds the product of every line.
pub open spec fn all_known(items: Seq<CartItem>, catalog: Map<Seq<char>, Product>) -> bool {
    forall|i: int| 0 <= i < items.len() ==> catalog.contains_key(#[trigger] items[i].product_id@)
}

/// Pricing keeps the quantities: the priced lines hold of each product what
/// the cart asks for, and so do the lines as they are shown.
pub proof fn lemma_pricing_keeps_quantities(
    items: Seq<CartItem>,
    catalog: Map<Seq<char>, Product>,
    pid: Seq<char>,
)
    requires
        filed_under_ids(catalog),
        all_known(items, catalog),
    ensures
        ordered_quantity(price_lines(items, catalog), pid) == cart_quantity(items, pid),
        shown_quantity(summary_lines(price_lines(items, catalog)), pid) == cart_quantity(
            items,
            pid,
        ),
    decreases items.len(),
{
    if items.len() > 0 {
        let lines = price_lines(items, catalog);
        assert(lines.drop_last() == price_lines(items.drop_last(), catalog));
        assert(summary_lines(lines).drop_last() == summary_lines(lines.drop_last()));
        assert(catalog.contains_key(items[items.len() - 1].product_id@));
        assert forall|i: int| 0 <= i < items.drop_last().len() implies catalog.contains_key(
            #[trigger] items.drop_last()[i].product_id@,
        ) by {
            assert(items.drop_last()[i] == items[i]);
        }
        lemma_pricing_keeps_quantities(items.drop_last(), catalog, pid);
    }
}

/// After additions to an empty cart, each within its counter's range, the
/// cart as it is shown reports of each product the sum of what was added of
/// it.
pub proof fn lemma_view_reports_sum_of_adds(
    adds: Seq<(String, i32)>,
    catalog: Map<Seq<char>, Product>,
    pid: Seq<char>,
)
    requires
        adds_fit(adds),
        filed_under_ids(catalog),
        all_known(cart_after_adds(adds), catalog),
    ensures
        shown_quantity(summary_lines(price_lines(cart_after_adds(adds), catalog)), pid)
            == added_quantity(adds, pid),
{
    lemma_cart_holds_sum_of_adds(adds, pid);
    lemma_pricing_keeps_quantities(cart_after_adds(adds), catalog, pid);
}

/// Lines that can be priced have a total that fits the minor-unit integer:
/// the total of an order is the exact sum of what its lines cost.
pub proof fn lemma_priceable_total_fits(
    items: Seq<CartItem>,
    catalog: Map<Seq<char>, Product>,
    strict: bool,
)
    requires
        priceable(items, catalog, strict),
    ensures
        fits_amount(lines_total(price_lines(items, catalog))),
{
    if items.len() > 0 {
        let last = items.len() - 1;
        assert(line_defect(items, catalog, strict, last) is None);
        assert(items.take(last + 1) == items);
    }
}

/// Whether each amount, and each total up to a line, fits the minor-unit
/// integer.
pub open spec fn amounts_fit(items: Seq<CartItem>, catalog: Map<Seq<char>, Product>) -> bool {
    forall|i: int|
        0 <= i < items.len() ==> fits_amount(
            #[trigger] crate::pricing::line_amount(
                crate::pricing::priced_line(items[i], catalog[items[i].product_id@]),
            ),
        ) && fits_amount(lines_total(price_lines(items.take(i + 1), catalog)))
}

/// Under strict pricing, lines of known products of which one asks for more
/// than the catalog has are refused with `InsufficientStock`.
pub proof fn lemma_short_line_is_refused(
    items: Seq<CartItem>,
    catalog: Map<Seq<char>, Product>,
    short: int,
    e: ServiceError,
)
    requires
        all_known(items, catalog),
        amounts_fit(items, catalog),
        0 <= short < items.len(),
        is_short(items[short], catalog),
        is_first_defect(items, catalog, true, e),
    ensures
        !priceable(items, catalog, true),
        e.spec_kind() == ErrorKind::InsufficientStock,
{
    assert(line_defect(items, catalog, true, short) is Some);
    let i = choose|i: int|
        0 <= i < items.len() && #[trigger] line_defect(items, catalog, true, i) == Some(e)
            && forall|j: int| 0 <= j < i ==> line_defect(items, catalog, true, j) is None;
    assert(catalog.contains_key(items[i].product_id@));
    assert(fits_amount(
        crate::pricing::line_amount(
            crate::pricing::priced_line(items[i], catalog[items[i].product_id@]),
        ),
    ));
}

/// A checkout of a cart of known products of which one line asks for more
/// than the catalog has fails with `InsufficientStock`. No order comes of
/// it, so none can be stored.
pub proof fn lemma_checkout_refuses_short_stock(
    s: StateView,
    user: String,
    order_id: String,
    now: Timestamp,
    short: int,
    r: Result<Order, ServiceError>,
)
    requires
        s.carts.contains_key(user@),
        all_known(s.carts[user@].items, s.products),
        amounts_fit(s.carts[user@].items, s.products),
        0 <= short < s.carts[user@].items.len(),
        is_short(s.carts[user@].items[short], s.products),
        checkout_post(s, user, order_id, now, r),
    ensures
        r matches Err(e) && e.spec_kind() == ErrorKind::InsufficientStock,
{
    let items = s.carts[user@].items;
    assert(line_defect(items, s.products, true, short) is Some);
    match r {
        Ok(_) => {
            assert(priceable(items, s.products, true));
        },
        Err(e) => {
            lemma_short_line_is_refused(items, s.products, short, e);
        },
    }
}

/// The cancellation of an order that the store holds succeeds if and only
/// if the order is pending or failed and no more than the window's hours
/// have passed since its creation. Past the window it fails with
/// `CancellationWindowExpired`, whatever the status; within it, with
/// `InvalidState`. A failed cancellation changes nothing; a successful one
/// leaves the order cancelled.
pub proof fn lemma_cancel_succeeds_iff_open_and_in_window(
    pre: StateView,
    order_id: Seq<char>,
    now: Timestamp,
    post: StateView,
    r: Result<CancelReceipt, ServiceError>,
)
    requires
        pre.orders.contains_key(order_id),
        cancel_order_post(pre, order_id, now, post, r),
    ensures
        r is Ok <==> is_open(pre.orders[order_id].status) && hours_between(
            pre.orders[order_id].created_at,
            now,
        ) <= CANCELLATION_WINDOW_HOURS,
        r matches Err(e) ==> post == pre && e.spec_kind() == (if hours_between(
            pre.orders[order_id].created_at,
            now,
        ) > CANCELLATION_WINDOW_HOURS {
            ErrorKind::CancellationWindowExpired
        } else {
            ErrorKind::InvalidState
        }),
        r is Ok ==> post.orders[order_id].status == OrderStatus::Cancelled,
{
}

/// A modification whose new lines cannot be priced strictly fails and
/// leaves every store as it was; where the lines are of known products and
/// one asks for more than the catalog has, the order being open and within
/// the window, it fails with `InsufficientStock`.
pub proof fn lemma_modify_refused_leaves_order(
    pre: StateView,
    order_id: Seq<char>,
    items: Seq<CartItem>,
    now: Timestamp,
    post: StateView,
    r: Result<Order, ServiceError>,
)
    requires
        pre.orders.contains_key(order_id),
        !priceable(items, pre.products, true),
        update_order_post(pre, order_id, items, now, post, r),
    ensures
        r is Err,
        post == pre,
        post.orders[order_id] == pre.orders[order_id],
        forall|short: int|
            0 <= short < items.len() && is_short(items[short], pre.products) && all_known(
                items,
                pre.products,
            ) && amounts_fit(items, pre.products) && gate_error(
                pre.orders[order_id],
                OrderAction::Modify,
                now,
            ) is None ==> r->Err_0.spec_kind() == ErrorKind::InsufficientStock,
{
    assert forall|short: int|
        0 <= short < items.len() && is_short(items[short], pre.products) && all_known(
            items,
            pre.products,
        ) && amounts_fit(items, pre.products) && gate_error(
            pre.orders[order_id],
            OrderAction::Modify,
            now,
        ) is None implies r->Err_0.spec_kind() == ErrorKind::InsufficientStock by {
        lemma_short_line_is_refused(items, pre.products, short, r->Err_0);
    }
}

/// Whether taking the quantities of `lines` from the stock, line by line,
/// never leaves the range of a stock count.
pub open spec fn stock_in_range(catalog: Map<Seq<char>, Product>, lines: Seq<OrderItem>) -> bool
    decreases lines.len(),
{
    if lines.len() == 0 {
        true
    } else {
        let before = stock_after(catalog, lines.drop_last());
        let key = lines.last().product_id@;
        &&& stock_in_range(catalog, lines.drop_last())
        &&& before.contains_key(key) ==> i32::MIN <= before[key].stock - lines.last().quantity
            <= i32::MAX
    }
}

/// A confirmed payment takes from the stock of each product exactly what the
/// order's lines hold of it, and changes nothing else of the catalog.
pub proof fn lemma_stock_falls_by_ordered_quantity(
    catalog: Map<Seq<char>, Product>,
    lines: Seq<OrderItem>,
    key: Seq<char>,
)
    requires
        stock_in_range(catalog, lines),
    ensures
        stock_after(catalog, lines).dom() == catalog.dom(),
        catalog.contains_key(key) ==> stock_after(catalog, lines)[key] == (Product {
            stock: (catalog[key].stock - ordered_quantity(lines, key)) as i32,
            ..catalog[key]
        }) && i32::MIN <= catalog[key].stock - ordered_quantity(lines, key) <= i32::MAX,
    decreases lines.len(),
{
    if lines.len() > 0 {
        lemma_stock_falls_by_ordered_quantity(catalog, lines.drop_last(), key);
        lemma_stock_falls_by_ordered_quantity(catalog, lines.drop_last(), lines.last().product_id@);
        let before = stock_after(catalog, lines.drop_last());
        assert(stock_after(catalog, lines) == take_from_stock(before, lines.last()));
        assert(stock_after(catalog, lines).dom() =~= catalog.dom());
    }
}

/// A confirmed payment for an order that the store holds completes the
/// order, takes the ordered quantities from the stock and removes the cart
/// of the order's user.
pub proof fn lemma_payment_completes_order(
    pre: StateView,
    order_id: Option<String>,
    now: Timestamp,
    post: StateView,
    note: Option<Notification>,
    key: Seq<char>,
)
    requires
        names_known_order(pre, order_id),
        stock_in_range(pre.products, pre.orders[order_id->0@].items),
        pre.products.contains_key(key),
        payment_succeeded_post(pre, order_id, now, post, note),
    ensures
        post.orders[order_id->0@].status == OrderStatus::Completed,
        post.orders[order_id->0@].items == pre.orders[order_id->0@].items,
        post.products[key].stock == pre.products[key].stock - ordered_quantity(
            pre.orders[order_id->0@].items,
            key,
        ),
        !post.carts.contains_key(pre.orders[order_id->0@].user_id@),
{
    lemma_stock_falls_by_ordered_quantity(pre.products, pre.orders[order_id->0@].items, key);
}

/// Nothing recognises an event that comes a second time: the same
/// confirmation applied twice takes the ordered quantities from the stock
/// twice.
pub proof fn lemma_replayed_payment_decrements_twice(
    pre: StateView,
    order_id: Option<String>,
    first: Timestamp,
    mid: StateView,
    second: Timestamp,
    post: StateView,
    note1: Option<Notification>,
    note2: Option<Notification>,
    key: Seq<char>,
)
    requires
        names_known_order(pre, order_id),
        pre.products.contains_key(key),
        payment_succeeded_post(pre, order_id, first, mid, note1),
        payment_succeeded_post(mid, order_id, second, post, note2),
        stock_in_range(pre.products, pre.orders[order_id->0@].items),
        stock_in_range(mid.products, pre.orders[order_id->0@].items),
    ensures
        post.products[key].stock == pre.products[key].stock - 2 * ordered_quantity(
            pre.orders[order_id->0@].items,
            key,
        ),
        post.orders[order_id->0@].status == OrderStatus::Completed,
{
    let items = pre.orders[order_id->0@].items;
    lemma_stock_falls_by_ordered_quantity(pre.products, items, key);
    assert(names_known_order(mid, order_id));
    assert(mid.orders[order_id->0@].items == items);
    lemma_stock_falls_by_ordered_quantity(mid.products, items, key);
}

/// Whether the total of an order is the exact sum of what its lines cost.
pub open spec fn total_is_sum(order: OrderView) -> bool {
    order.total == lines_total(order.items)
}

/// The total of an order that a checkout builds is the sum of its lines.
pub proof fn lemma_pending_order_total_is_sum(
    s: StateView,
    user: String,
    order_id: String,
    now: Timestamp,
)
    requires
        priceable(s.carts[user@].items, s.products, true),
    ensures
        total_is_sum(pending_order(s, user, order_id, now)),
{
    lemma_priceable_total_fits(s.carts[user@].items, s.products, true);
}

/// The total of an order whose lines were replaced is the sum of the new
/// lines.
pub proof fn lemma_modified_order_total_is_sum(
    order: OrderView,
    items: Seq<CartItem>,
    catalog: Map<Seq<char>, Product>,
    now: Timestamp,
)
    requires
        priceable(items, catalog, true),
    ensures
        total_is_sum(modified_order(order, items, catalog, now)),
{
    lemma_priceable_total_fits(items, catalog, true);
}

/// A change of status keeps the lines of an order and its total.
pub proof fn lemma_status_change_keeps_total(order: OrderView, payment_id: String, now: Timestamp)
    requires
        total_is_sum(order),
    ensures
        total_is_sum(processing_order(order, payment_id)),
        total_is_sum(cancelled_order(order, now)),
        total_is_sum(completed_order(order, now)),
        total_is_sum(failed_order(order, now)),
{
}

} // verus!
