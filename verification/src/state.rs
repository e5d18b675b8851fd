use vstd::prelude::*;
use dashmap::DashMap;
use crate::models::{
    Cart, CartView, Order, OrderView, Product, SavedPaymentMethod, SubscriptionPlan,
    UserSubscription,
};
use crate::store::{
    cart_entries, new_cart_store, new_order_store, new_payment_method_store, new_plan_store,
    new_product_store, new_subscription_store, order_entries, payment_method_entries,
    plan_entries, product_entries, store_insert, subscription_entries,
};

verus! {

/// What the service is configured with.
#[derive(Debug)]
pub struct Config {
    pub stripe_secret_key: String,
    pub stripe_webhook_secret: String,
    pub base_url: String,
}

impl Clone for Config {
    fn clone(&self) -> (r: Self)
        ensures
            r == *self,
    {
        Config {
            stripe_secret_key: self.stripe_secret_key.clone(),
            stripe_webhook_secret: self.stripe_webhook_secret.clone(),
            base_url: self.base_url.clone(),
        }
    }
}

/// The stores of the service. Each store keeps its records under their
/// natural key: products, orders, subscriptions, payment methods and plans
/// under their id, carts under the id of their user.
///
/// The functions of this library change a store only through `&mut`, and
/// what they promise holds where nothing else changes the stores while they
/// run: whoever shares the state between threads hands it out under a lock.
pub struct AppState {
    pub config: Config,
    pub products: DashMap<String, Product>,
    pub carts: DashMap<String, Cart>,
    pub orders: DashMap<String, Order>,
    pub subscriptions: DashMap<String, UserSubscription>,
    pub payment_methods: DashMap<String, SavedPaymentMethod>,
    pub subscription_plans: DashMap<String, SubscriptionPlan>,
}

/// The stores as values: what each holds, under the text of each key.
pub struct StateView {
    pub products: Map<Seq<char>, Product>,
    pub carts: Map<Seq<char>, CartView>,
    pub orders: Map<Seq<char>, OrderView>,
    pub subscriptions: Map<Seq<char>, UserSubscription>,
    pub payment_methods: Map<Seq<char>, SavedPaymentMethod>,
    pub subscription_plans: Map<Seq<char>, SubscriptionPlan>,
}

impl View for AppState {
    type V = StateView;

    open spec fn view(&self) -> StateView {
        StateView {
            products: product_entries(self.products),
            carts: cart_entries(self.carts),
            orders: order_entries(self.orders),
            subscriptions: subscription_entries(self.subscriptions),
            payment_methods: payment_method_entries(self.payment_methods),
            subscription_plans: plan_entries(self.subscription_plans),
        }
    }
}

/// Whether `p` is the product with these values.
pub open spec fn is_product(
    p: Product,
    id: Seq<char>,
    name: Seq<char>,
    price: int,
    stock: int,
    description: Seq<char>,
) -> bool {
    &&& p.id@ == id
    &&& p.name@ == name
    &&& p.price == price
    &&& p.stock == stock
    &&& p.description@ == description
}

/// Whether `p` is the plan with these values.
pub open spec fn is_plan(
    p: SubscriptionPlan,
    id: Seq<char>,
    name: Seq<char>,
    price: int,
    description: Seq<char>,
) -> bool {
    &&& p.id@ == id
    &&& p.name@ == name
    &&& p.price == price
    &&& p.description@ == description
}

/// Whether `products` is the catalog that a new service starts with.
pub open spec fn is_demo_catalog(products: Map<Seq<char>, Product>) -> bool {
    &&& products.dom() =~= set!["cap_001"@, "cap_002"@, "cap_003"@]
    &&& is_product(
        products["cap_001"@],
        "cap_001"@,
        "Casquette Classic Rouge"@,
        2500,
        50,
        "Casquette classique rouge, ajustable"@,
    )
    &&& is_product(
        products["cap_002"@],
        "cap_002"@,
        "Casquette Sport Noire"@,
        3000,
        30,
        "Casquette sport noire, respirante"@,
    )
    &&& is_product(
        products["cap_003"@],
        "cap_003"@,
        "Casquette Premium Blanche"@,
        4500,
        20,
        "Casquette premium en coton bio"@,
    )
}

/// Whether `plans` is the set of plans that a new service starts with.
pub open spec fn is_demo_plans(plans: Map<Seq<char>, SubscriptionPlan>) -> bool {
    &&& plans.dom() =~= set!["plan_normal"@, "plan_supplement"@, "plan_complet"@]
    &&& is_plan(
        plans["plan_normal"@],
        "plan_normal"@,
        "Normal"@,
        1000,
        "Abonnement journal formule normale"@,
    )
    &&& is_plan(
        plans["plan_supplement"@],
        "plan_supplement"@,
        "Supplément"@,
        1500,
        "Abonnement journal avec suppléments"@,
    )
    &&& is_plan(
        plans["plan_complet"@],
        "plan_complet"@,
        "Complet"@,
        2000,
        "Abonnement journal formule complète"@,
    )
}

/// The three keys of the demo catalog differ, and so do those of the plans.
proof fn lemma_demo_keys_differ()
    ensures
        "cap_001"@ != "cap_002"@,
        "cap_001"@ != "cap_003"@,
        "cap_002"@ != "cap_003"@,
        "plan_normal"@ != "plan_supplement"@,
        "plan_normal"@ != "plan_complet"@,
        "plan_supplement"@ != "plan_complet"@,
{
    reveal_strlit("cap_001");
    reveal_strlit("cap_002");
    reveal_strlit("cap_003");
    reveal_strlit("plan_normal");
    reveal_strlit("plan_supplement");
    reveal_strlit("plan_complet");
    assert("cap_001"@[6] != "cap_002"@[6]);
    assert("cap_001"@[6] != "cap_003"@[6]);
    assert("cap_002"@[6] != "cap_003"@[6]);
    assert("plan_normal"@.len() != "plan_supplement"@.len());
    assert("plan_normal"@.len() != "plan_complet"@.len());
    assert("plan_supplement"@.len() != "plan_complet"@.len());
}

impl AppState {
    /// Puts `product` into the catalog under its id, in place of what was
    /// there under that id.
    pub fn insert_product(&mut self, product: Product)
        ensures
            final(self)@ == (StateView {
                products: old(self)@.products.insert(product.id@, product),
                ..old(self)@
            }),
            final(self).config == old(self).config,
    {
        let key = product.id.clone();
        store_insert(&mut self.products, key, product);
    }

    /// Puts `plan` among the plans under its id, in place of what was there
    /// under that id.
    pub fn insert_plan(&mut self, plan: SubscriptionPlan)
        ensures
            final(self)@ == (StateView {
                subscription_plans: old(self)@.subscription_plans.insert(plan.id@, plan),
                ..old(self)@
            }),
            final(self).config == old(self).config,
    {
        let key = plan.id.clone();
        store_insert(&mut self.subscription_plans, key, plan);
    }

    fn seed_product(&mut self, id: &str, name: &str, price: i64, stock: i32, description: &str)
        ensures
            final(self)@.products.dom() == old(self)@.products.dom().insert(id@),
            is_product(final(self)@.products[id@], id@, name@, price as int, stock as int, description@),
            forall|k: Seq<char>| k != id@ && old(self)@.products.contains_key(k)
                ==> final(self)@.products[k] == old(self)@.products[k],
            final(self)@ == (StateView { products: final(self)@.products, ..old(self)@ }),
            final(self).config == old(self).config,
    {
        self.insert_product(
            Product {
                id: id.to_owned(),
                name: name.to_owned(),
                price,
                stock,
                description: description.to_owned(),
            },
        );
    }

    fn seed_plan(&mut self, id: &str, name: &str, price: i64, description: &str)
        ensures
            final(self)@.subscription_plans.dom() == old(self)@.subscription_plans.dom().insert(
                id@,
            ),
            is_plan(final(self)@.subscription_plans[id@], id@, name@, price as int, description@),
            forall|k: Seq<char>| k != id@ && old(self)@.subscription_plans.contains_key(k)
                ==> final(self)@.subscription_plans[k] == old(self)@.subscription_plans[k],
            final(self)@ == (StateView {
                subscription_plans: final(self)@.subscription_plans,
                ..old(self)@
            }),
            final(self).config == old(self).config,
    {
        self.insert_plan(
            SubscriptionPlan {
                id: id.to_owned(),
                name: name.to_owned(),
                price,
                description: description.to_owned(),
            },
        );
    }

    /// Fills the catalog and the plans with the demo data.
    fn init_demo_data(&mut self)
        requires
            old(self)@.products =~= Map::empty(),
            old(self)@.subscription_plans =~= Map::empty(),
        ensures
            is_demo_catalog(final(self)@.products),
            is_demo_plans(final(self)@.subscription_plans),
            final(self)@.carts == old(self)@.carts,
            final(self)@.orders == old(self)@.orders,
            final(self)@.subscriptions == old(self)@.subscriptions,
            final(self)@.payment_methods == old(self)@.payment_methods,
            final(self).config == old(self).config,
    {
        proof {
            lemma_demo_keys_differ();
        }
        self.seed_product(
            "cap_001",
            "Casquette Classic Rouge",
            2500,
            50,
            "Casquette classique rouge, ajustable",
        );
        self.seed_product(
            "cap_002",
            "Casquette Sport Noire",
            3000,
            30,
            "Casquette sport noire, respirante",
        );
        self.seed_product(
            "cap_003",
            "Casquette Premium Blanche",
            4500,
            20,
            "Casquette premium en coton bio",
        );
        self.seed_plan("plan_normal", "Normal", 1000, "Abonnement journal formule normale");
        self.seed_plan("plan_supplement", "Supplément", 1500, "Abonnement journal avec suppléments");
        self.seed_plan("plan_complet", "Complet", 2000, "Abonnement journal formule complète");
    }

    /// A new service: the demo catalog and plans, and no cart, order,
    /// subscription or payment method yet.
    pub fn new(config: Config) -> (s: AppState)
        ensures
            s.config == config,
            is_demo_catalog(s@.products),
            is_demo_plans(s@.subscription_plans),
            s@.carts =~= Map::empty(),
            s@.orders =~= Map::empty(),
            s@.subscriptions =~= Map::empty(),
            s@.payment_methods =~= Map::empty(),
    {
        let mut state = AppState {
            config,
            products: new_product_store(),
            carts: new_cart_store(),
            orders: new_order_store(),
            subscriptions: new_subscription_store(),
            payment_methods: new_payment_method_store(),
            subscription_plans: new_plan_store(),
        };
        state.init_demo_data();
        state
    }
}

} // verus!
