use vstd::prelude::*;
use dashmap::DashMap;
use crate::errors::{Entity, InputDefect, ServiceError};
use crate::models::{Cart, CartItem, OrderItem, Product};
use crate::store::{product_entries, store_get};

verus! {

/// A line that asks for more than the catalog has: reported, not refused.
#[derive(Debug)]
pub struct StockWarning {
    pub product_name: String,
    pub requested: i32,
    pub available: i32,
}

/// What pricing a list of cart lines gives: the priced lines, their total in
/// minor units, and a warning for each line that asks for more than is there.
#[derive(Debug)]
pub struct CartCalculation {
    pub items: Vec<OrderItem>,
    pub total: i64,
    pub stock_warnings: Vec<StockWarning>,
}

/// A catalog as a value: each product under the text of its key.
pub type Catalog = Map<Seq<char>, Product>;

/// Whether `n` fits the store's minor-unit integer.
pub open spec fn fits_amount(n: int) -> bool {
    i64::MIN <= n <= i64::MAX
}

/// The line of an order that `item` becomes when it is priced as `p`.
pub open spec fn priced_line(item: CartItem, p: Product) -> OrderItem {
    OrderItem { product_id: p.id, product_name: p.name, quantity: item.quantity, price: p.price }
}

/// What one line costs: unit price times quantity.
pub open spec fn line_amount(line: OrderItem) -> int {
    line.price * line.quantity
}

/// The exact sum of what the lines cost.
pub open spec fn lines_total(lines: Seq<OrderItem>) -> int
    decreases lines.len(),
{
    if lines.len() == 0 {
        0
    } else {
        lines_total(lines.drop_last()) + line_amount(lines.last())
    }
}

/// The lines priced one by one against the catalog. It is meaningful where
/// the catalog holds each line's product.
pub open spec fn price_lines(items: Seq<CartItem>, catalog: Catalog) -> Seq<OrderItem> {
    Seq::new(items.len(), |i: int| priced_line(items[i], catalog[items[i].product_id@]))
}

/// Whether `item` asks for more than the catalog has of its product.
pub open spec fn is_short(item: CartItem, catalog: Catalog) -> bool {
    catalog[item.product_id@].stock < item.quantity
}

/// The warning that a line gets that asks for more than is there.
pub open spec fn warning_for(item: CartItem, p: Product) -> StockWarning {
    StockWarning { product_name: p.name, requested: item.quantity, available: p.stock }
}

/// The warnings of the lines that ask for more than is there, in the order of
/// the lines.
pub open spec fn stock_warnings(items: Seq<CartItem>, catalog: Catalog) -> Seq<StockWarning>
    decreases items.len(),
{
    if items.len() == 0 {
        Seq::empty()
    } else if is_short(items.last(), catalog) {
        stock_warnings(items.drop_last(), catalog).push(
            warning_for(items.last(), catalog[items.last().product_id@]),
        )
    } else {
        stock_warnings(items.drop_last(), catalog)
    }
}

/// What is wrong with line `i`, if anything: its product is unknown; or, in
/// strict mode, it asks for more than is there; or its amount, or the total
/// up to and including it, does not fit the minor-unit integer.
pub open spec fn line_defect(items: Seq<CartItem>, catalog: Catalog, strict: bool, i: int) -> Option<
    ServiceError,
> {
    let item = items[i];
    if !catalog.contains_key(item.product_id@) {
        Some(ServiceError::NotFound { entity: Entity::Product, id: item.product_id })
    } else if strict && is_short(item, catalog) {
        Some(
            ServiceError::InsufficientStock {
                product_name: catalog[item.product_id@].name,
                available: catalog[item.product_id@].stock,
            },
        )
    } else if !fits_amount(line_amount(priced_line(item, catalog[item.product_id@])))
        || !fits_amount(lines_total(price_lines(items.take(i + 1), catalog))) {
        Some(ServiceError::InvalidInput { input: InputDefect::AmountOutOfRange })
    } else {
        None
    }
}

/// Whether no line of `items` has a defect.
pub open spec fn priceable(items: Seq<CartItem>, catalog: Catalog, strict: bool) -> bool {
    forall|i: int| 0 <= i < items.len() ==> line_defect(items, catalog, strict, i) is None
}

/// Whether `e` is the defect of the first line of `items` that has one.
pub open spec fn is_first_defect(
    items: Seq<CartItem>,
    catalog: Catalog,
    strict: bool,
    e: ServiceError,
) -> bool {
    exists|i: int|
        0 <= i < items.len() && #[trigger] line_defect(items, catalog, strict, i) == Some(e)
            && forall|j: int| 0 <= j < i ==> line_defect(items, catalog, strict, j) is None
}

/// Pricing one more line adds that line's amount to the total.
pub proof fn lemma_price_lines_step(items: Seq<CartItem>, catalog: Catalog, i: int)
    requires
        0 <= i < items.len(),
    ensures
        price_lines(items.take(i + 1), catalog) == price_lines(items.take(i), catalog).push(
            priced_line(items[i], catalog[items[i].product_id@]),
        ),
        lines_total(price_lines(items.take(i + 1), catalog)) == lines_total(
            price_lines(items.take(i), catalog),
        ) + line_amount(priced_line(items[i], catalog[items[i].product_id@])),
        stock_warnings(items.take(i + 1), catalog) == (if is_short(items[i], catalog) {
            stock_warnings(items.take(i), catalog).push(
                warning_for(items[i], catalog[items[i].product_id@]),
            )
        } else {
            stock_warnings(items.take(i), catalog)
        }),
{
    let next = price_lines(items.take(i + 1), catalog);
    let prev = price_lines(items.take(i), catalog);
    assert(items.take(i + 1).drop_last() == items.take(i));
    assert(items.take(i + 1).last() == items[i]);
    assert(next == prev.push(priced_line(items[i], catalog[items[i].product_id@])));
    assert(next.drop_last() == prev);
}

/// Prices `items` against `products`. In strict mode a line that asks for
/// more than is there fails the whole computation; otherwise it is priced as
/// asked and reported in `stock_warnings`. The first line with a defect
/// decides the error.
pub fn price_items(items: &Vec<CartItem>, products: &DashMap<String, Product>, strict: bool) -> (r:
    Result<CartCalculation, ServiceError>)
    ensures
        r is Ok <==> priceable(items@, product_entries(*products), strict),
        r matches Ok(c) ==> c.items@ == price_lines(items@, product_entries(*products))
            && c.total == lines_total(c.items@) && c.stock_warnings@ == stock_warnings(
            items@,
            product_entries(*products),
        ),
        r matches Err(e) ==> is_first_defect(items@, product_entries(*products), strict, e),
{
    let ghost catalog = product_entries(*products);
    let mut lines: Vec<OrderItem> = Vec::new();
    let mut total: i64 = 0;
    let mut warnings: Vec<StockWarning> = Vec::new();
    let mut i: usize = 0;
    while i < items.len()
        invariant
            i <= items.len(),
            catalog == product_entries(*products),
            forall|j: int| 0 <= j < i ==> line_defect(items@, catalog, strict, j) is None,
            lines@ == price_lines(items@.take(i as int), catalog),
            total == lines_total(lines@),
            warnings@ == stock_warnings(items@.take(i as int), catalog),
        decreases items.len() - i,
    {
        let item = &items[i];
        proof {
            lemma_price_lines_step(items@, catalog, i as int);
        }
        let product = match store_get(products, item.product_id.as_str()) {
            Some(p) => p,
            None => {
                let e = ServiceError::NotFound {
                    entity: Entity::Product,
                    id: item.product_id.clone(),
                };
                assert(line_defect(items@, catalog, strict, i as int) == Some(e));
                return Err(e);
            },
        };
        let short = product.stock < item.quantity;
        if short && strict {
            let e = ServiceError::InsufficientStock {
                product_name: product.name.clone(),
                available: product.stock,
            };
            assert(line_defect(items@, catalog, strict, i as int) == Some(e));
            return Err(e);
        }
        let subtotal = match product.price.checked_mul(item.quantity as i64) {
            Some(s) => s,
            None => {
                let e = ServiceError::InvalidInput { input: InputDefect::AmountOutOfRange };
                assert(line_defect(items@, catalog, strict, i as int) == Some(e));
                return Err(e);
            },
        };
        let sum = match total.checked_add(subtotal) {
            Some(s) => s,
            None => {
                let e = ServiceError::InvalidInput { input: InputDefect::AmountOutOfRange };
                assert(line_defect(items@, catalog, strict, i as int) == Some(e));
                return Err(e);
            },
        };
        if short {
            warnings.push(
                StockWarning {
                    product_name: product.name.clone(),
                    requested: item.quantity,
                    available: product.stock,
                },
            );
        }
        total = sum;
        lines.push(
            OrderItem {
                product_id: product.id.clone(),
                product_name: product.name.clone(),
                quantity: item.quantity,
                price: product.price,
            },
        );
        assert(line_defect(items@, catalog, strict, i as int) is None);
        i += 1;
    }
    assert(items@.take(items.len() as int) == items@);
    Ok(CartCalculation { items: lines, total, stock_warnings: warnings })
}

/// Prices the lines of `cart` against `products`: strictly where
/// `validate_stock` is set, leniently otherwise.
pub fn calculate_cart(cart: &Cart, products: &DashMap<String, Product>, validate_stock: bool) -> (r:
    Result<CartCalculation, ServiceError>)
    ensures
        r is Ok <==> priceable(cart.items@, product_entries(*products), validate_stock),
        r matches Ok(c) ==> c.items@ == price_lines(cart.items@, product_entries(*products))
            && c.total == lines_total(c.items@) && c.stock_warnings@ == stock_warnings(
            cart.items@,
            product_entries(*products),
        ),
        r matches Err(e) ==> is_first_defect(
            cart.items@,
            product_entries(*products),
            validate_stock,
            e,
        ),
{
    price_items(&cart.items, products, validate_stock)
}

} // verus!
