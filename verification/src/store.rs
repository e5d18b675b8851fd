use vstd::prelude::*;
use dashmap::DashMap;
use crate::models::{
    Cart, CartView, Order, OrderView, Product, SavedPaymentMethod, SubscriptionPlan,
    UserSubscription,
};

verus! {

/// `DashMap` of dashmap: a concurrent map. Nothing inside it is visible to
/// the verifier: what a store holds is named by the functions below, and the
/// wrappers at the end of this file say, over those names, what the methods
/// of `DashMap` do. Keys are texts: two keys are the same key where their
/// texts are equal.
#[verifier::external_type_specification]
#[verifier::external_body]
#[verifier::reject_recursive_types(K)]
#[verifier::reject_recursive_types(V)]
#[verifier::reject_recursive_types(S)]
pub struct ExDashMap<K, V, S>(DashMap<K, V, S>);

/// The products that a store holds, each under the text of its key.
pub uninterp spec fn product_entries(m: DashMap<String, Product>) -> Map<Seq<char>, Product>;

/// The plans that a store holds, each under the text of its key.
pub uninterp spec fn plan_entries(m: DashMap<String, SubscriptionPlan>) -> Map<
    Seq<char>,
    SubscriptionPlan,
>;

/// The carts that a store holds, each under the text of its key.
pub uninterp spec fn cart_entries(m: DashMap<String, Cart>) -> Map<Seq<char>, CartView>;

/// The orders that a store holds, each under the text of its key.
pub uninterp spec fn order_entries(m: DashMap<String, Order>) -> Map<Seq<char>, OrderView>;

/// The subscriptions that a store holds, each under the text of its key.
pub uninterp spec fn subscription_entries(m: DashMap<String, UserSubscription>) -> Map<
    Seq<char>,
    UserSubscription,
>;

/// The payment methods that a store holds, each under the text of its key.
pub uninterp spec fn payment_method_entries(m: DashMap<String, SavedPaymentMethod>) -> Map<
    Seq<char>,
    SavedPaymentMethod,
>;

/// A record that a store can hold. `entries` is what a store of such records
/// holds: the view of each record, under the text of its key.
pub(crate) trait Record: Sized + Clone + View {
    spec fn entries(m: DashMap<String, Self>) -> Map<Seq<char>, Self::V>;
}

impl Record for Product {
    open spec fn entries(m: DashMap<String, Self>) -> Map<Seq<char>, Product> {
        product_entries(m)
    }
}

impl Record for SubscriptionPlan {
    open spec fn entries(m: DashMap<String, Self>) -> Map<Seq<char>, SubscriptionPlan> {
        plan_entries(m)
    }
}

impl Record for Cart {
    open spec fn entries(m: DashMap<String, Self>) -> Map<Seq<char>, CartView> {
        cart_entries(m)
    }
}

impl Record for Order {
    open spec fn entries(m: DashMap<String, Self>) -> Map<Seq<char>, OrderView> {
        order_entries(m)
    }
}

impl Record for UserSubscription {
    open spec fn entries(m: DashMap<String, Self>) -> Map<Seq<char>, UserSubscription> {
        subscription_entries(m)
    }
}

impl Record for SavedPaymentMethod {
    open spec fn entries(m: DashMap<String, Self>) -> Map<Seq<char>, SavedPaymentMethod> {
        payment_method_entries(m)
    }
}

/// `DashMap::new`, for products: the new store holds nothing.
#[verifier::external_body]
pub(crate) fn new_product_store() -> (r: DashMap<String, Product>)
    ensures
        product_entries(r) =~= Map::empty(),
{
    DashMap::new()
}

/// `DashMap::new`, for plans: the new store holds nothing.
#[verifier::external_body]
pub(crate) fn new_plan_store() -> (r: DashMap<String, SubscriptionPlan>)
    ensures
        plan_entries(r) =~= Map::empty(),
{
    DashMap::new()
}

/// `DashMap::new`, for carts: the new store holds nothing.
#[verifier::external_body]
pub(crate) fn new_cart_store() -> (r: DashMap<String, Cart>)
    ensures
        cart_entries(r) =~= Map::empty(),
{
    DashMap::new()
}

/// `DashMap::new`, for orders: the new store holds nothing.
#[verifier::external_body]
pub(crate) fn new_order_store() -> (r: DashMap<String, Order>)
    ensures
        order_entries(r) =~= Map::empty(),
{
    DashMap::new()
}

/// `DashMap::new`, for subscriptions: the new store holds nothing.
#[verifier::external_body]
pub(crate) fn new_subscription_store() -> (r: DashMap<String, UserSubscription>)
    ensures
        subscription_entries(r) =~= Map::empty(),
{
    DashMap::new()
}

/// `DashMap::new`, for payment methods: the new store holds nothing.
#[verifier::external_body]
pub(crate) fn new_payment_method_store() -> (r: DashMap<String, SavedPaymentMethod>)
    ensures
        payment_method_entries(r) =~= Map::empty(),
{
    DashMap::new()
}

/// `DashMap::get`, and a clone of the record found: the record under `key`,
/// if the store holds one.
#[verifier::external_body]
pub(crate) fn store_get<V: Record>(m: &DashMap<String, V>, key: &str) -> (r: Option<V>)
    ensures
        r is Some <==> V::entries(*m).contains_key(key@),
        r matches Some(v) ==> v@ == V::entries(*m)[key@],
{
    m.get(key).map(|e| e.value().clone())
}

/// `DashMap::insert`: afterwards the store holds `value` under `key`, in
/// place of what it held there, and everything else as before.
#[verifier::external_body]
pub(crate) fn store_insert<V: Record>(m: &mut DashMap<String, V>, key: String, value: V)
    ensures
        V::entries(*final(m)) == V::entries(*old(m)).insert(key@, value@),
{
    m.insert(key, value);
}

/// `DashMap::remove`: afterwards the store holds nothing under `key`, and
/// everything else as before.
#[verifier::external_body]
pub(crate) fn store_remove<V: Record>(m: &mut DashMap<String, V>, key: &str)
    ensures
        V::entries(*final(m)) == V::entries(*old(m)).remove(key@),
{
    m.remove(key);
}

/// Whether `keys` are the texts in `domain`, each once.
pub open spec fn lists_keys(keys: Seq<String>, domain: Set<Seq<char>>) -> bool {
    &&& forall|i: int, j: int| 0 <= i < j < keys.len() ==> keys[i]@ != keys[j]@
    &&& forall|i: int| 0 <= i < keys.len() ==> domain.contains(#[trigger] keys[i]@)
    &&& forall|k: Seq<char>|
        domain.contains(k) ==> exists|i: int| 0 <= i < keys.len() && #[trigger] keys[i]@ == k
}

/// `DashMap::iter`, and a clone of each key: the keys of the store, each
/// once, in the order in which the store happens to walk them.
#[verifier::external_body]
pub(crate) fn store_keys<V: Record>(m: &DashMap<String, V>) -> (r: Vec<String>)
    ensures
        lists_keys(r@, V::entries(*m).dom()),
{
    m.iter().map(|e| e.key().clone()).collect()
}

} // verus!
