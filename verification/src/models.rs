use vstd::prelude::*;
use crate::time::Timestamp;

verus! {

/// An article of the catalog. `price` is in minor units (cents).
#[derive(Debug)]
pub struct Product {
    pub id: String,
    pub name: String,
    pub price: i64,
    pub stock: i32,
    pub description: String,
}

/// One line of a cart: a product and the quantity asked for.
#[derive(Debug)]
pub struct CartItem {
    pub product_id: String,
    pub quantity: i32,
}

/// The staging list of one user, in the order in which products were added.
#[derive(Debug)]
pub struct Cart {
    pub user_id: String,
    pub items: Vec<CartItem>,
    pub created_at: Timestamp,
}

/// A cart as a value: its lines as a sequence.
pub struct CartView {
    pub user_id: String,
    pub items: Seq<CartItem>,
    pub created_at: Timestamp,
}

impl View for Cart {
    type V = CartView;

    open spec fn view(&self) -> CartView {
        CartView { user_id: self.user_id, items: self.items@, created_at: self.created_at }
    }
}

/// One priced line of an order: the product's name and unit price as they
/// were when the line was priced.
#[derive(Debug)]
pub struct OrderItem {
    pub product_id: String,
    pub product_name: String,
    pub quantity: i32,
    pub price: i64,
}

/// Where an order stands in its payment lifecycle.
#[derive(Debug, Clone, Copy, PartialEq, Eq, Structural)]
pub enum OrderStatus {
    Pending,
    Processing,
    Completed,
    Failed,
    Cancelled,
}

/// A priced purchase attempt.
#[derive(Debug)]
pub struct Order {
    pub id: String,
    pub user_id: String,
    pub items: Vec<OrderItem>,
    pub total: i64,
    pub status: OrderStatus,
    pub payment_intent_id: Option<String>,
    pub created_at: Timestamp,
    pub updated_at: Timestamp,
}

/// An order as a value: its lines as a sequence.
pub struct OrderView {
    pub id: String,
    pub user_id: String,
    pub items: Seq<OrderItem>,
    pub total: i64,
    pub status: OrderStatus,
    pub payment_intent_id: Option<String>,
    pub created_at: Timestamp,
    pub updated_at: Timestamp,
}

impl View for Order {
    type V = OrderView;

    open spec fn view(&self) -> OrderView {
        OrderView {
            id: self.id,
            user_id: self.user_id,
            items: self.items@,
            total: self.total,
            status: self.status,
            payment_intent_id: self.payment_intent_id,
            created_at: self.created_at,
            updated_at: self.updated_at,
        }
    }
}

/// A plan that users can subscribe to. `price` is per month, in minor units.
#[derive(Debug)]
pub struct SubscriptionPlan {
    pub id: String,
    pub name: String,
    pub price: i64,
    pub description: String,
}

/// Where a subscription stands.
#[derive(Debug, Clone, Copy, PartialEq, Eq, Structural)]
pub enum SubscriptionStatus {
    Active,
    PastDue,
    Cancelled,
    Incomplete,
}

/// A user's subscription to a plan.
#[derive(Debug)]
pub struct UserSubscription {
    pub id: String,
    pub user_id: String,
    pub plan_id: String,
    pub stripe_subscription_id: String,
    pub status: SubscriptionStatus,
    pub current_period_end: Timestamp,
    pub cancel_at_period_end: bool,
    pub created_at: Timestamp,
    pub payment_method_id: Option<String>,
}

/// A payment method that a user has saved with the processor.
#[derive(Debug)]
pub struct SavedPaymentMethod {
    pub id: String,
    pub user_id: String,
    pub stripe_payment_method_id: String,
    pub card_last4: String,
    pub card_brand: String,
    pub exp_month: i32,
    pub exp_year: i32,
    pub is_default: bool,
    pub created_at: Timestamp,
}

#[derive(Debug)]
pub struct AddToCartRequest {
    pub user_id: String,
    pub product_id: String,
    pub quantity: i32,
}

#[derive(Debug)]
pub struct CheckoutRequest {
    pub user_id: String,
}

#[derive(Debug)]
pub struct UpdateOrderRequest {
    pub items: Vec<CartItem>,
}

#[derive(Debug)]
pub struct CreateSubscriptionRequest {
    pub user_id: String,
    pub plan_id: String,
    pub email: String,
    pub payment_method: String,
}

#[derive(Debug)]
pub struct SetupPaymentMethodRequest {
    pub user_id: String,
}

#[derive(Debug)]
pub struct PayWithSavedMethodRequest {
    pub user_id: String,
    pub payment_method_id: String,
    pub amount: i64,
    pub description: String,
}

#[derive(Debug)]
pub struct ViewCartQuery {
    pub user_id: String,
}

#[derive(Debug)]
pub struct ListOrdersQuery {
    pub user_id: String,
}

#[derive(Debug)]
pub struct ListPaymentMethodsQuery {
    pub user_id: String,
}

/// What a checkout hands back: the order and the token with which the client
/// completes the payment.
#[derive(Debug)]
pub struct CheckoutResponse {
    pub order_id: String,
    pub checkout_url: String,
    pub client_secret: String,
}

#[derive(Debug)]
pub struct SubscriptionResponse {
    pub subscription_id: String,
    pub client_secret: String,
    pub status: String,
}

#[derive(Debug)]
pub struct SetupResponse {
    pub setup_intent_id: String,
    pub client_secret: String,
}

/// The body of an error response: a message for the user.
#[derive(Debug)]
pub struct ApiError {
    pub error: String,
}

/// A copy of an optional text.
pub fn clone_text(s: &Option<String>) -> (r: Option<String>)
    ensures
        r == *s,
{
    match s {
        Some(t) => Some(t.clone()),
        None => None,
    }
}

impl View for Product {
    type V = Product;

    open spec fn view(&self) -> Product {
        *self
    }
}

impl View for SubscriptionPlan {
    type V = SubscriptionPlan;

    open spec fn view(&self) -> SubscriptionPlan {
        *self
    }
}

impl View for UserSubscription {
    type V = UserSubscription;

    open spec fn view(&self) -> UserSubscription {
        *self
    }
}

impl View for SavedPaymentMethod {
    type V = SavedPaymentMethod;

    open spec fn view(&self) -> SavedPaymentMethod {
        *self
    }
}

impl Clone for Product {
    fn clone(&self) -> (r: Self)
        ensures
            r == *self,
    {
        Product {
            id: self.id.clone(),
            name: self.name.clone(),
            price: self.price,
            stock: self.stock,
            description: self.description.clone(),
        }
    }
}

impl Clone for CartItem {
    fn clone(&self) -> (r: Self)
        ensures
            r == *self,
    {
        CartItem { product_id: self.product_id.clone(), quantity: self.quantity }
    }
}

impl Clone for OrderItem {
    fn clone(&self) -> (r: Self)
        ensures
            r == *self,
    {
        OrderItem {
            product_id: self.product_id.clone(),
            product_name: self.product_name.clone(),
            quantity: self.quantity,
            price: self.price,
        }
    }
}

/// A copy of a list of cart lines.
pub fn clone_cart_items(items: &Vec<CartItem>) -> (r: Vec<CartItem>)
    ensures
        r@ == items@,
{
    let mut out: Vec<CartItem> = Vec::new();
    let mut i: usize = 0;
    while i < items.len()
        invariant
            i <= items.len(),
            out@ == items@.take(i as int),
        decreases items.len() - i,
    {
        out.push(items[i].clone());
        assert(items@.take(i + 1) == items@.take(i as int).push(items@[i as int]));
        i += 1;
    }
    assert(items@.take(items.len() as int) == items@);
    out
}

/// A copy of a list of order lines.
pub fn clone_order_items(items: &Vec<OrderItem>) -> (r: Vec<OrderItem>)
    ensures
        r@ == items@,
{
    let mut out: Vec<OrderItem> = Vec::new();
    let mut i: usize = 0;
    while i < items.len()
        invariant
            i <= items.len(),
            out@ == items@.take(i as int),
        decreases items.len() - i,
    {
        out.push(items[i].clone());
        assert(items@.take(i + 1) == items@.take(i as int).push(items@[i as int]));
        i += 1;
    }
    assert(items@.take(items.len() as int) == items@);
    out
}

impl Clone for Cart {
    fn clone(&self) -> (r: Self)
        ensures
            r@ == self@,
    {
        Cart {
            user_id: self.user_id.clone(),
            items: clone_cart_items(&self.items),
            created_at: self.created_at,
        }
    }
}

impl Clone for Order {
    fn clone(&self) -> (r: Self)
        ensures
            r@ == self@,
    {
        Order {
            id: self.id.clone(),
            user_id: self.user_id.clone(),
            items: clone_order_items(&self.items),
            total: self.total,
            status: self.status,
            payment_intent_id: clone_text(&self.payment_intent_id),
            created_at: self.created_at,
            updated_at: self.updated_at,
        }
    }
}

impl Clone for SubscriptionPlan {
    fn clone(&self) -> (r: Self)
        ensures
            r == *self,
    {
        SubscriptionPlan {
            id: self.id.clone(),
            name: self.name.clone(),
            price: self.price,
            description: self.description.clone(),
        }
    }
}

impl Clone for UserSubscription {
    fn clone(&self) -> (r: Self)
        ensures
            r == *self,
    {
        UserSubscription {
            id: self.id.clone(),
            user_id: self.user_id.clone(),
            plan_id: self.plan_id.clone(),
            stripe_subscription_id: self.stripe_subscription_id.clone(),
            status: self.status,
            current_period_end: self.current_period_end,
            cancel_at_period_end: self.cancel_at_period_end,
            created_at: self.created_at,
            payment_method_id: clone_text(&self.payment_method_id),
        }
    }
}

impl Clone for SavedPaymentMethod {
    fn clone(&self) -> (r: Self)
        ensures
            r == *self,
    {
        SavedPaymentMethod {
            id: self.id.clone(),
            user_id: self.user_id.clone(),
            stripe_payment_method_id: self.stripe_payment_method_id.clone(),
            card_last4: self.card_last4.clone(),
            card_brand: self.card_brand.clone(),
            exp_month: self.exp_month,
            exp_year: self.exp_year,
            is_default: self.is_default,
            created_at: self.created_at,
        }
    }
}

} // verus!
