pub mod cart;
pub mod errors;
pub mod ids;
pub mod json;
pub mod laws;
pub mod messages;
pub mod models;
pub mod orders;
pub mod payment_methods;
pub mod pricing;
pub mod state;
pub mod store;
pub mod subscriptions;
pub mod time;
pub mod webhooks;
