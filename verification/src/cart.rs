use vstd::prelude::*;
use crate::errors::{Entity, InputDefect, ServiceError};
use crate::models::{AddToCartRequest, Cart, CartItem, CartView, OrderItem, ViewCartQuery};
use crate::pricing::{
    fits_amount, line_amount, lines_total, price_items, price_lines, priceable, is_first_defect,
    stock_warnings, StockWarning,
};
use crate::state::{AppState, StateView};
use crate::store::{store_get, store_insert};
use crate::time::Timestamp;

verus! {

/// Whether `items` has a line for the product `pid`.
pub open spec fn has_line(items: Seq<CartItem>, pid: Seq<char>) -> bool {
    exists|i: int| 0 <= i < items.len() && items[i].product_id@ == pid
}

/// Whether line `i` is the first line of `items` for the product `pid`.
pub open spec fn is_first_line(items: Seq<CartItem>, pid: Seq<char>, i: int) -> bool {
    &&& 0 <= i < items.len()
    &&& items[i].product_id@ == pid
    &&& forall|j: int| 0 <= j < i ==> items[j].product_id@ != pid
}

/// The index of the first line of `items` for the product `pid`, where there
/// is one.
pub open spec fn first_line(items: Seq<CartItem>, pid: Seq<char>) -> int {
    choose|i: int| is_first_line(items, pid, i)
}

/// Only one line is the first line for a product.
pub proof fn lemma_first_line_unique(items: Seq<CartItem>, pid: Seq<char>, i: int)
    requires
        is_first_line(items, pid, i),
    ensures
        has_line(items, pid),
        first_line(items, pid) == i,
{
    let c = first_line(items, pid);
    assert(is_first_line(items, pid, c));
    if c < i {
        assert(items[c].product_id@ != pid);
    }
    if i < c {
        assert(items[i].product_id@ != pid);
    }
}

proof fn lemma_scan_for_first_line(items: Seq<CartItem>, pid: Seq<char>, from: int) -> (i: int)
    requires
        0 <= from <= items.len(),
        forall|j: int| 0 <= j < from ==> items[j].product_id@ != pid,
        has_line(items, pid),
    ensures
        is_first_line(items, pid, i),
    decreases items.len() - from,
{
    let witness = choose|w: int| 0 <= w < items.len() && items[w].product_id@ == pid;
    assert(from <= witness);
    if items[from].product_id@ == pid {
        from
    } else {
        lemma_scan_for_first_line(items, pid, from + 1)
    }
}

/// A product that has a line has a first line.
pub proof fn lemma_first_line_exists(items: Seq<CartItem>, pid: Seq<char>)
    requires
        has_line(items, pid),
    ensures
        is_first_line(items, pid, first_line(items, pid)),
{
    let i = lemma_scan_for_first_line(items, pid, 0);
}

/// The lines after `quantity` of the product is added: the first line for
/// that product grows by `quantity`, or, where there is none, a new line
/// comes last.
pub open spec fn add_line(items: Seq<CartItem>, product_id: String, quantity: i32) -> Seq<
    CartItem,
> {
    if has_line(items, product_id@) {
        let i = first_line(items, product_id@);
        items.update(
            i,
            CartItem {
                product_id: items[i].product_id,
                quantity: (items[i].quantity + quantity) as i32,
            },
        )
    } else {
        items.push(CartItem { product_id, quantity })
    }
}

/// The lines of the cart of `user`, or no lines where the user has no cart.
pub open spec fn cart_lines(s: StateView, user: Seq<char>) -> Seq<CartItem> {
    if s.carts.contains_key(user) {
        s.carts[user].items
    } else {
        Seq::empty()
    }
}

/// Why an addition to a cart is refused, if it is: the product is unknown;
/// or more is asked for at once than the catalog has; or the line's quantity
/// would no longer fit its counter.
pub open spec fn add_to_cart_error(s: StateView, req: AddToCartRequest) -> Option<ServiceError> {
    let items = cart_lines(s, req.user_id@);
    if !s.products.contains_key(req.product_id@) {
        Some(ServiceError::NotFound { entity: Entity::Product, id: req.product_id })
    } else if s.products[req.product_id@].stock < req.quantity {
        Some(
            ServiceError::InsufficientStock {
                product_name: s.products[req.product_id@].name,
                available: s.products[req.product_id@].stock,
            },
        )
    } else if has_line(items, req.product_id@) && !(i32::MIN <= items[first_line(
        items,
        req.product_id@,
    )].quantity + req.quantity <= i32::MAX) {
        Some(ServiceError::InvalidInput { input: InputDefect::QuantityOutOfRange })
    } else {
        None
    }
}

/// The cart of the request's user after the addition. A cart that did not
/// exist is created at `now`.
pub open spec fn cart_after_add(s: StateView, req: AddToCartRequest, now: Timestamp) -> CartView {
    let base = if s.carts.contains_key(req.user_id@) {
        s.carts[req.user_id@]
    } else {
        CartView { user_id: req.user_id, items: Seq::empty(), created_at: now }
    };
    CartView { items: add_line(base.items, req.product_id, req.quantity), ..base }
}

/// What an addition to a cart does: it fails with `add_to_cart_error` and
/// changes nothing, or it stores `cart_after_add` under the user's id,
/// returns it, and changes nothing else.
pub open spec fn add_to_cart_post(
    pre: StateView,
    req: AddToCartRequest,
    now: Timestamp,
    post: StateView,
    r: Result<Cart, ServiceError>,
) -> bool {
    match r {
        Err(e) => add_to_cart_error(pre, req) == Some(e) && post == pre,
        Ok(c) => {
            &&& add_to_cart_error(pre, req) is None
            &&& c@ == cart_after_add(pre, req, now)
            &&& post == StateView { carts: pre.carts.insert(req.user_id@, c@), ..pre }
        },
    }
}

/// Adds `req.quantity` of a product to the cart of `req.user_id`, creating
/// the cart at `now` if there is none. The catalog's stock is not touched.
pub fn add_to_cart_at(state: &mut AppState, req: &AddToCartRequest, now: Timestamp) -> (r: Result<
    Cart,
    ServiceError,
>)
    ensures
        add_to_cart_post(old(state)@, *req, now, final(state)@, r),
        final(state).config == old(state).config,
{
    let product = match store_get(&state.products, req.product_id.as_str()) {
        Some(p) => p,
        None => {
            return Err(
                ServiceError::NotFound { entity: Entity::Product, id: req.product_id.clone() },
            );
        },
    };
    if product.stock < req.quantity {
        return Err(
            ServiceError::InsufficientStock {
                product_name: product.name.clone(),
                available: product.stock,
            },
        );
    }
    let mut cart = match store_get(&state.carts, req.user_id.as_str()) {
        Some(c) => c,
        None => Cart { user_id: req.user_id.clone(), items: Vec::new(), created_at: now },
    };
    let ghost before = cart.items@;
    assert(before == cart_lines(old(state)@, req.user_id@));
    let mut i: usize = 0;
    while i < cart.items.len() && cart.items[i].product_id != req.product_id
        invariant
            i <= cart.items.len(),
            cart.items@ == before,
            forall|j: int| 0 <= j < i ==> before[j].product_id@ != req.product_id@,
        decreases cart.items.len() - i,
    {
        i += 1;
    }
    if i < cart.items.len() {
        proof {
            lemma_first_line_unique(before, req.product_id@, i as int);
        }
        let quantity = match cart.items[i].quantity.checked_add(req.quantity) {
            Some(q) => q,
            None => {
                return Err(ServiceError::InvalidInput { input: InputDefect::QuantityOutOfRange });
            },
        };
        let line = CartItem { product_id: cart.items[i].product_id.clone(), quantity };
        cart.items.set(i, line);
    } else {
        assert(!has_line(before, req.product_id@));
        cart.items.push(CartItem { product_id: req.product_id.clone(), quantity: req.quantity });
    }
    store_insert(&mut state.carts, req.user_id.clone(), cart.clone());
    Ok(cart)
}

/// Adds `req.quantity` of a product to the cart of `req.user_id`, creating
/// the cart at the clock's reading if there is none.
pub fn add_to_cart(state: &mut AppState, req: &AddToCartRequest) -> (r: Result<Cart, ServiceError>)
    ensures
        exists|now: Timestamp| add_to_cart_post(old(state)@, *req, now, final(state)@, r),
        final(state).config == old(state).config,
{
    let now = Timestamp::now();
    add_to_cart_at(state, req, now)
}

/// One line of a cart as it is shown: priced, with what the line costs.
#[derive(Debug)]
pub struct CartLine {
    pub product_id: String,
    pub name: String,
    pub price: i64,
    pub quantity: i32,
    pub subtotal: i64,
}

/// A cart as it is shown: priced as asked, with a warning for each line that
/// asks for more than the catalog has.
#[derive(Debug)]
pub struct CartSummary {
    pub user_id: String,
    pub items: Vec<CartLine>,
    pub total: i64,
    pub created_at: Timestamp,
    pub stock_warnings: Vec<StockWarning>,
}

/// A priced line as it is shown.
pub open spec fn summary_line(line: OrderItem) -> CartLine {
    CartLine {
        product_id: line.product_id,
        name: line.product_name,
        price: line.price,
        quantity: line.quantity,
        subtotal: line_amount(line) as i64,
    }
}

/// Priced lines as they are shown.
pub open spec fn summary_lines(lines: Seq<OrderItem>) -> Seq<CartLine> {
    Seq::new(lines.len(), |i: int| summary_line(lines[i]))
}

/// What viewing the cart of `user` gives: `NotFound` where the user has no
/// cart; else the cart priced leniently, or the defect of its first line that
/// has one.
pub open spec fn view_cart_post(s: StateView, user: String, r: Result<CartSummary, ServiceError>) -> bool {
    if !s.carts.contains_key(user@) {
        r == Err::<CartSummary, ServiceError>(
            ServiceError::NotFound { entity: Entity::Cart, id: user },
        )
    } else {
        let cart = s.carts[user@];
        match r {
            Ok(v) => {
                &&& priceable(cart.items, s.products, false)
                &&& v.user_id == cart.user_id
                &&& v.items@ == summary_lines(price_lines(cart.items, s.products))
                &&& v.total == lines_total(price_lines(cart.items, s.products))
                &&& v.created_at == cart.created_at
                &&& v.stock_warnings@ == stock_warnings(cart.items, s.products)
            },
            Err(e) => is_first_defect(cart.items, s.products, false, e),
        }
    }
}

/// Shows the cart of `query.user_id`, priced leniently: a line that asks for
/// more than the catalog has is priced as asked and reported in
/// `stock_warnings`. Nothing is changed.
pub fn view_cart(state: &AppState, query: &ViewCartQuery) -> (r: Result<CartSummary, ServiceError>)
    ensures
        view_cart_post(state@, query.user_id, r),
{
    let cart = match store_get(&state.carts, query.user_id.as_str()) {
        Some(c) => c,
        None => {
            return Err(ServiceError::NotFound { entity: Entity::Cart, id: query.user_id.clone() });
        },
    };
    let calc = match price_items(&cart.items, &state.products, false) {
        Ok(c) => c,
        Err(e) => {
            return Err(e);
        },
    };
    let ghost lines = price_lines(cart.items@, state@.products);
    let mut shown: Vec<CartLine> = Vec::new();
    let mut i: usize = 0;
    while i < calc.items.len()
        invariant
            i <= calc.items.len(),
            calc.items@ == lines,
            lines == price_lines(cart.items@, state@.products),
            priceable(cart.items@, state@.products, false),
            shown@ == summary_lines(lines.take(i as int)),
        decreases calc.items.len() - i,
    {
        let line = &calc.items[i];
        assert(crate::pricing::line_defect(cart.items@, state@.products, false, i as int) is None);
        assert(fits_amount(line_amount(*line)));
        shown.push(
            CartLine {
                product_id: line.product_id.clone(),
                name: line.product_name.clone(),
                price: line.price,
                quantity: line.quantity,
                subtotal: line.price * (line.quantity as i64),
            },
        );
        assert(shown@ == summary_lines(lines.take(i + 1)));
        i += 1;
    }
    assert(lines.take(lines.len() as int) == lines);
    Ok(
        CartSummary {
            user_id: cart.user_id,
            items: shown,
            total: calc.total,
            created_at: cart.created_at,
            stock_warnings: calc.stock_warnings,
        },
    )
}

} // verus!
