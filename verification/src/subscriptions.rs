use vstd::prelude::*;
use crate::errors::{Entity, InputDefect, ServiceError};
use crate::ids::new_id;
use crate::models::{
    CreateSubscriptionRequest, SubscriptionResponse, SubscriptionStatus, UserSubscription,
};
use crate::orders::{is_not_found, token_text};
use crate::state::{AppState, StateView};
use crate::store::{store_get, store_insert};
use crate::time::{in_calendar_range, Timestamp, SECONDS_PER_DAY};

verus! {

/// Days from the creation of a subscription to the end of its first period.
pub const PERIOD_DAYS: i64 = 30;

/// How far the creation of a subscription has come with the processor.
#[derive(Debug)]
pub enum FlowStage {
    /// The customer is being created.
    Customer,
    /// The recurring price is being created.
    Price { customer_id: String },
    /// The subscription itself is being created.
    Subscription { customer_id: String, price_id: String },
}

/// A subscription in the making: what was asked for, the plan's name and
/// price as they were found, and how far the processor has come.
#[derive(Debug)]
pub struct SubscriptionFlow {
    pub user_id: String,
    pub plan_id: String,
    pub plan_name: String,
    pub plan_price: i64,
    pub email: String,
    pub payment_method: String,
    pub stage: FlowStage,
}

/// What the processor is to be asked next.
#[derive(Debug)]
pub enum ProcessorRequest {
    CreateCustomer { email: String, user_id: String },
    CreatePrice { product_name: String, amount: i64 },
    CreateSubscription { customer_id: String, price_id: String, payment_method: String },
}

/// What the processor answered.
#[derive(Debug)]
pub enum ProcessorReply {
    Customer { id: String },
    Price { id: String },
    Subscription { id: String, client_secret: Option<String> },
}

/// Where the creation of a subscription stands after a step: the processor
/// is to be asked something, or the subscription is stored.
#[derive(Debug)]
pub enum FlowStep {
    Ask { flow: SubscriptionFlow, request: ProcessorRequest },
    Done { response: SubscriptionResponse },
}

/// What starting a subscription gives: `NotFound` where the plan is unknown,
/// else the request for a customer, with the flow that waits for it.
pub open spec fn create_subscription_post(
    s: StateView,
    req: CreateSubscriptionRequest,
    r: Result<FlowStep, ServiceError>,
) -> bool {
    if !s.subscription_plans.contains_key(req.plan_id@) {
        r == Err::<FlowStep, ServiceError>(
            ServiceError::NotFound { entity: Entity::Plan, id: req.plan_id },
        )
    } else {
        let plan = s.subscription_plans[req.plan_id@];
        r == Ok::<FlowStep, ServiceError>(
            FlowStep::Ask {
                flow: SubscriptionFlow {
                    user_id: req.user_id,
                    plan_id: req.plan_id,
                    plan_name: plan.name,
                    plan_price: plan.price,
                    email: req.email,
                    payment_method: req.payment_method,
                    stage: FlowStage::Customer,
                },
                request: ProcessorRequest::CreateCustomer {
                    email: req.email,
                    user_id: req.user_id,
                },
            },
        )
    }
}

/// Starts the creation of a subscription to the plan `req.plan_id`. Nothing
/// is stored before the processor has created the customer, the price and
/// the subscription, in that order.
pub fn create_subscription(state: &AppState, req: &CreateSubscriptionRequest) -> (r: Result<
    FlowStep,
    ServiceError,
>)
    ensures
        create_subscription_post(state@, *req, r),
{
    let plan = match store_get(&state.subscription_plans, req.plan_id.as_str()) {
        Some(p) => p,
        None => {
            return Err(ServiceError::NotFound { entity: Entity::Plan, id: req.plan_id.clone() });
        },
    };
    Ok(
        FlowStep::Ask {
            flow: SubscriptionFlow {
                user_id: req.user_id.clone(),
                plan_id: req.plan_id.clone(),
                plan_name: plan.name,
                plan_price: plan.price,
                email: req.email.clone(),
                payment_method: req.payment_method.clone(),
                stage: FlowStage::Customer,
            },
            request: ProcessorRequest::CreateCustomer {
                email: req.email.clone(),
                user_id: req.user_id.clone(),
            },
        },
    )
}

/// Whether the first period of a subscription created at `now` ends within
/// the calendar.
pub open spec fn period_fits(now: Timestamp) -> bool {
    in_calendar_range(now.seconds() + PERIOD_DAYS * SECONDS_PER_DAY, now.nanoseconds())
}

/// Whether `sub` is the subscription that `flow` stores at `now`, under
/// `id`, with the processor's reference `reference`.
pub open spec fn is_new_subscription(
    sub: UserSubscription,
    flow: SubscriptionFlow,
    reference: String,
    id: String,
    now: Timestamp,
) -> bool {
    &&& sub.id == id
    &&& sub.user_id == flow.user_id
    &&& sub.plan_id == flow.plan_id
    &&& sub.stripe_subscription_id == reference
    &&& sub.status == SubscriptionStatus::Active
    &&& sub.current_period_end.seconds() == now.seconds() + PERIOD_DAYS * SECONDS_PER_DAY
    &&& sub.current_period_end.nanoseconds() == now.nanoseconds()
    &&& !sub.cancel_at_period_end
    &&& sub.created_at == now
    &&& sub.payment_method_id is None
}

/// What the last step does, once the processor has created the
/// subscription: the subscription is stored under `id`, active, and the
/// response carries the client's token, empty where the processor gave none.
pub open spec fn subscription_stored(
    pre: StateView,
    flow: SubscriptionFlow,
    reference: String,
    client_secret: Option<String>,
    id: String,
    now: Timestamp,
    post: StateView,
    r: Result<FlowStep, ServiceError>,
) -> bool {
    if !period_fits(now) {
        &&& r == Err::<FlowStep, ServiceError>(
            ServiceError::InvalidInput { input: InputDefect::TimeOutOfRange },
        )
        &&& post == pre
    } else {
        &&& post.subscriptions.contains_key(id@)
        &&& is_new_subscription(post.subscriptions[id@], flow, reference, id, now)
        &&& post == StateView {
            subscriptions: pre.subscriptions.insert(id@, post.subscriptions[id@]),
            ..pre
        }
        &&& r matches Ok(FlowStep::Done { response })
        &&& response.subscription_id == id
        &&& response.client_secret@ == token_text(client_secret)
        &&& response.status@ == "active"@
    }
}

/// What one step of the creation does with the processor's answer. A failure
/// of the processor ends the creation with a `ProcessorError` and nothing is
/// stored. An answer to another request than the one that the flow waits for
/// is refused. Otherwise the next request follows, or, after the last, the
/// subscription is stored.
pub open spec fn continue_subscription_post(
    pre: StateView,
    flow: SubscriptionFlow,
    reply: Result<ProcessorReply, String>,
    id: String,
    now: Timestamp,
    post: StateView,
    r: Result<FlowStep, ServiceError>,
) -> bool {
    match reply {
        Err(message) => {
            &&& r == Err::<FlowStep, ServiceError>(ServiceError::ProcessorError { message })
            &&& post == pre
        },
        Ok(answer) => match (flow.stage, answer) {
            (FlowStage::Customer, ProcessorReply::Customer { id: customer_id }) => {
                &&& post == pre
                &&& r == Ok::<FlowStep, ServiceError>(
                    FlowStep::Ask {
                        flow: SubscriptionFlow { stage: FlowStage::Price { customer_id }, ..flow },
                        request: ProcessorRequest::CreatePrice {
                            product_name: flow.plan_name,
                            amount: flow.plan_price,
                        },
                    },
                )
            },
            (FlowStage::Price { customer_id }, ProcessorReply::Price { id: price_id }) => {
                &&& post == pre
                &&& r == Ok::<FlowStep, ServiceError>(
                    FlowStep::Ask {
                        flow: SubscriptionFlow {
                            stage: FlowStage::Subscription { customer_id, price_id },
                            ..flow
                        },
                        request: ProcessorRequest::CreateSubscription {
                            customer_id,
                            price_id,
                            payment_method: flow.payment_method,
                        },
                    },
                )
            },
            (
                FlowStage::Subscription { .. },
                ProcessorReply::Subscription { id: reference, client_secret },
            ) => subscription_stored(pre, flow, reference, client_secret, id, now, post, r),
            _ => {
                &&& r == Err::<FlowStep, ServiceError>(
                    ServiceError::InvalidInput { input: InputDefect::UnexpectedReply },
                )
                &&& post == pre
            },
        },
    }
}

fn store_subscription(
    state: &mut AppState,
    flow: SubscriptionFlow,
    reference: String,
    client_secret: Option<String>,
    id: String,
    now: Timestamp,
) -> (r: Result<FlowStep, ServiceError>)
    ensures
        subscription_stored(
            old(state)@,
            flow,
            reference,
            client_secret,
            id,
            now,
            final(state)@,
            r,
        ),
        final(state).config == old(state).config,
{
    let period_end = match now.plus_days(PERIOD_DAYS) {
        Some(t) => t,
        None => {
            return Err(ServiceError::InvalidInput { input: InputDefect::TimeOutOfRange });
        },
    };
    let subscription = UserSubscription {
        id: id.clone(),
        user_id: flow.user_id,
        plan_id: flow.plan_id,
        stripe_subscription_id: reference,
        status: SubscriptionStatus::Active,
        current_period_end: period_end,
        cancel_at_period_end: false,
        created_at: now,
        payment_method_id: None,
    };
    store_insert(&mut state.subscriptions, id.clone(), subscription);
    let client_secret = match client_secret {
        Some(t) => t,
        None => String::new(),
    };
    Ok(
        FlowStep::Done {
            response: SubscriptionResponse {
                subscription_id: id,
                client_secret,
                status: "active".to_owned(),
            },
        },
    )
}

/// Takes the creation of a subscription one step further with the
/// processor's answer to the request last made. `id` and `now` are the id
/// and the time of creation of the subscription, where this step stores it.
pub fn continue_subscription_at(
    state: &mut AppState,
    flow: SubscriptionFlow,
    reply: Result<ProcessorReply, String>,
    id: String,
    now: Timestamp,
) -> (r: Result<FlowStep, ServiceError>)
    ensures
        continue_subscription_post(old(state)@, flow, reply, id, now, final(state)@, r),
        final(state).config == old(state).config,
{
    let answer = match reply {
        Ok(a) => a,
        Err(message) => {
            return Err(ServiceError::ProcessorError { message });
        },
    };
    let SubscriptionFlow { user_id, plan_id, plan_name, plan_price, email, payment_method, stage } =
        flow;
    match (stage, answer) {
        (FlowStage::Customer, ProcessorReply::Customer { id: customer_id }) => Ok(
            FlowStep::Ask {
                request: ProcessorRequest::CreatePrice {
                    product_name: plan_name.clone(),
                    amount: plan_price,
                },
                flow: SubscriptionFlow {
                    user_id,
                    plan_id,
                    plan_name,
                    plan_price,
                    email,
                    payment_method,
                    stage: FlowStage::Price { customer_id },
                },
            },
        ),
        (FlowStage::Price { customer_id }, ProcessorReply::Price { id: price_id }) => Ok(
            FlowStep::Ask {
                request: ProcessorRequest::CreateSubscription {
                    customer_id: customer_id.clone(),
                    price_id: price_id.clone(),
                    payment_method: payment_method.clone(),
                },
                flow: SubscriptionFlow {
                    user_id,
                    plan_id,
                    plan_name,
                    plan_price,
                    email,
                    payment_method,
                    stage: FlowStage::Subscription { customer_id, price_id },
                },
            },
        ),
        (
            FlowStage::Subscription { customer_id, price_id },
            ProcessorReply::Subscription { id: reference, client_secret },
        ) => store_subscription(
            state,
            SubscriptionFlow {
                user_id,
                plan_id,
                plan_name,
                plan_price,
                email,
                payment_method,
                stage: FlowStage::Subscription { customer_id, price_id },
            },
            reference,
            client_secret,
            id,
            now,
        ),
        _ => Err(ServiceError::InvalidInput { input: InputDefect::UnexpectedReply }),
    }
}

/// Takes the creation of a subscription one step further, with a random id
/// and the clock's reading where this step stores the subscription.
pub fn continue_subscription(
    state: &mut AppState,
    flow: SubscriptionFlow,
    reply: Result<ProcessorReply, String>,
) -> (r: Result<FlowStep, ServiceError>)
    ensures
        exists|id: String, now: Timestamp|
            continue_subscription_post(old(state)@, flow, reply, id, now, final(state)@, r),
        final(state).config == old(state).config,
{
    let id = new_id();
    let now = Timestamp::now();
    continue_subscription_at(state, flow, reply, id, now)
}

/// What looking up a subscription gives: the subscription stored under
/// `sub_id`, or `NotFound`.
pub open spec fn get_subscription_post(
    s: StateView,
    sub_id: Seq<char>,
    r: Result<UserSubscription, ServiceError>,
) -> bool {
    match r {
        Ok(sub) => s.subscriptions.contains_key(sub_id) && sub == s.subscriptions[sub_id],
        Err(e) => !s.subscriptions.contains_key(sub_id) && is_not_found(
            e,
            Entity::Subscription,
            sub_id,
        ),
    }
}

/// The subscription stored under `sub_id`.
pub fn get_subscription(state: &AppState, sub_id: &str) -> (r: Result<
    UserSubscription,
    ServiceError,
>)
    ensures
        get_subscription_post(state@, sub_id@, r),
{
    match store_get(&state.subscriptions, sub_id) {
        Some(sub) => Ok(sub),
        None => Err(
            ServiceError::NotFound { entity: Entity::Subscription, id: sub_id.to_owned() },
        ),
    }
}

/// What asking to cancel a subscription gives: the processor's reference of
/// the subscription under `sub_id`, which the processor is to cancel at the
/// end of the period, or `NotFound`.
pub open spec fn cancel_subscription_post(
    s: StateView,
    sub_id: Seq<char>,
    r: Result<String, ServiceError>,
) -> bool {
    match r {
        Ok(reference) => s.subscriptions.contains_key(sub_id) && reference
            == s.subscriptions[sub_id].stripe_subscription_id,
        Err(e) => !s.subscriptions.contains_key(sub_id) && is_not_found(
            e,
            Entity::Subscription,
            sub_id,
        ),
    }
}

/// Looks up the subscription that is to be cancelled. Nothing changes
/// before the processor has answered: see `complete_cancel_subscription`.
pub fn cancel_subscription(state: &AppState, sub_id: &str) -> (r: Result<String, ServiceError>)
    ensures
        cancel_subscription_post(state@, sub_id@, r),
{
    match store_get(&state.subscriptions, sub_id) {
        Some(sub) => Ok(sub.stripe_subscription_id),
        None => Err(
            ServiceError::NotFound { entity: Entity::Subscription, id: sub_id.to_owned() },
        ),
    }
}

/// The subscription once it is cancelled.
pub open spec fn cancelled_subscription(sub: UserSubscription) -> UserSubscription {
    UserSubscription { status: SubscriptionStatus::Cancelled, cancel_at_period_end: true, ..sub }
}

/// What the processor's answer to a cancellation does. Where the processor
/// failed, nothing changes and the failure is a `ProcessorError`. Where it
/// succeeded, the subscription under `sub_id` is stored as cancelled, at the
/// end of its period, whatever date the processor has set.
pub open spec fn complete_cancel_subscription_post(
    pre: StateView,
    sub_id: Seq<char>,
    outcome: Result<(), String>,
    post: StateView,
    r: Result<(), ServiceError>,
) -> bool {
    match outcome {
        Err(message) => {
            &&& r == Err::<(), ServiceError>(ServiceError::ProcessorError { message })
            &&& post == pre
        },
        Ok(_) => if pre.subscriptions.contains_key(sub_id) {
            &&& r is Ok
            &&& post == StateView {
                subscriptions: pre.subscriptions.insert(
                    sub_id,
                    cancelled_subscription(pre.subscriptions[sub_id]),
                ),
                ..pre
            }
        } else {
            &&& r matches Err(e)
            &&& is_not_found(e, Entity::Subscription, sub_id)
            &&& post == pre
        },
    }
}

/// Completes the cancellation of the subscription under `sub_id` with what
/// the processor answered.
pub fn complete_cancel_subscription(
    state: &mut AppState,
    sub_id: &str,
    outcome: Result<(), String>,
) -> (r: Result<(), ServiceError>)
    ensures
        complete_cancel_subscription_post(old(state)@, sub_id@, outcome, final(state)@, r),
        final(state).config == old(state).config,
{
    match outcome {
        Ok(_) => {},
        Err(message) => {
            return Err(ServiceError::ProcessorError { message });
        },
    }
    let mut sub = match store_get(&state.subscriptions, sub_id) {
        Some(s) => s,
        None => {
            return Err(
                ServiceError::NotFound { entity: Entity::Subscription, id: sub_id.to_owned() },
            );
        },
    };
    sub.status = SubscriptionStatus::Cancelled;
    sub.cancel_at_period_end = true;
    store_insert(&mut state.subscriptions, sub_id.to_owned(), sub);
    Ok(())
}

} // verus!
