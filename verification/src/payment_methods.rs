use vstd::prelude::*;
use crate::errors::{Entity, ServiceError};
use crate::models::{
    ListPaymentMethodsQuery, PayWithSavedMethodRequest, SavedPaymentMethod,
    SetupPaymentMethodRequest, SetupResponse,
};
use crate::orders::{is_not_found, token_text};
use crate::state::{AppState, StateView};
use crate::store::{lists_keys, store_get, store_keys, store_remove};

verus! {

/// What the processor hands back for a setup that it has opened: its
/// reference, and the token with which the client completes the setup.
#[derive(Debug)]
pub struct SetupIntentRef {
    pub id: String,
    pub client_secret: Option<String>,
}

/// What the processor hands back for a payment off session: its reference
/// and the status that it reports.
#[derive(Debug)]
pub struct PaymentRef {
    pub id: String,
    pub status: String,
}

/// A payment with a saved method that the processor is to make.
#[derive(Debug)]
pub struct SavedPaymentCharge {
    pub stripe_payment_method_id: String,
    pub amount: i64,
    pub description: String,
    pub card_last4: String,
}

/// What a payment with a saved method hands back.
#[derive(Debug)]
pub struct PaymentReceipt {
    pub payment_intent_id: String,
    pub status: String,
    pub amount: i64,
    pub card_last4: String,
}

/// What a setup gives, from the processor's answer: the setup's reference
/// and the client's token, empty where the processor gave none; or a
/// `ProcessorError`.
pub open spec fn setup_payment_method_post(
    outcome: Result<SetupIntentRef, String>,
    r: Result<SetupResponse, ServiceError>,
) -> bool {
    match outcome {
        Err(message) => r == Err::<SetupResponse, ServiceError>(
            ServiceError::ProcessorError { message },
        ),
        Ok(intent) => {
            &&& r matches Ok(resp)
            &&& resp.setup_intent_id == intent.id
            &&& resp.client_secret@ == token_text(intent.client_secret)
        },
    }
}

/// Answers a request for a setup with what the processor answered when it
/// was asked to open one for `req.user_id`. Nothing is stored: the method is
/// saved when the processor reports that the setup has succeeded.
pub fn setup_payment_method(
    req: &SetupPaymentMethodRequest,
    outcome: Result<SetupIntentRef, String>,
) -> (r: Result<SetupResponse, ServiceError>)
    ensures
        setup_payment_method_post(outcome, r),
{
    match outcome {
        Ok(intent) => {
            let client_secret = match intent.client_secret {
                Some(t) => t,
                None => String::new(),
            };
            Ok(SetupResponse { setup_intent_id: intent.id, client_secret })
        },
        Err(message) => Err(ServiceError::ProcessorError { message }),
    }
}

/// Whether `listed` are the payment methods stored under `keys`, one for
/// one.
pub open spec fn methods_under(
    methods: Map<Seq<char>, SavedPaymentMethod>,
    keys: Seq<Seq<char>>,
    listed: Seq<SavedPaymentMethod>,
) -> bool {
    &&& keys.len() == listed.len()
    &&& forall|i: int|
        0 <= i < keys.len() ==> methods.contains_key(#[trigger] keys[i]) && listed[i]
            == methods[keys[i]]
}

/// Whether `listed` are the payment methods of `user`: each method that the
/// store holds for that user once, and nothing else, in no particular order.
pub open spec fn is_method_list(
    s: StateView,
    user: Seq<char>,
    listed: Seq<SavedPaymentMethod>,
) -> bool {
    exists|keys: Seq<Seq<char>>|
        {
            &&& keys.no_duplicates()
            &&& #[trigger] methods_under(s.payment_methods, keys, listed)
            &&& forall|k: Seq<char>|
                keys.contains(k) <==> s.payment_methods.contains_key(k)
                    && s.payment_methods[k].user_id@ == user
        }
}

/// The payment methods of `query.user_id`, found by going through the whole
/// store.
pub fn list_payment_methods(state: &AppState, query: &ListPaymentMethodsQuery) -> (r: Result<
    Vec<SavedPaymentMethod>,
    ServiceError,
>)
    ensures
        r matches Ok(listed) && is_method_list(state@, query.user_id@, listed@),
{
    let all = store_keys(&state.payment_methods);
    let mut listed: Vec<SavedPaymentMethod> = Vec::new();
    let ghost mut keys: Seq<Seq<char>> = Seq::empty();
    let mut i: usize = 0;
    while i < all.len()
        invariant
            i <= all.len(),
            lists_keys(all@, state@.payment_methods.dom()),
            keys.no_duplicates(),
            methods_under(state@.payment_methods, keys, listed@),
            forall|k: Seq<char>|
                keys.contains(k) <==> (exists|a: int| 0 <= a < i && all@[a]@ == k)
                    && state@.payment_methods[k].user_id@ == query.user_id@,
        decreases all.len() - i,
    {
        let found = store_get(&state.payment_methods, all[i].as_str());
        match found {
            Some(m) => {
                if m.user_id == query.user_id {
                    let ghost k = all@[i as int]@;
                    proof {
                        if keys.contains(k) {
                            let a = choose|a: int| 0 <= a < i && all@[a]@ == k;
                            assert(all@[a]@ != all@[i as int]@);
                        }
                        let old_keys = keys;
                        keys = keys.push(k);
                        assert forall|q: Seq<char>|
                            keys.contains(q) <==> (exists|a: int| 0 <= a < i + 1 && all@[a]@ == q)
                                && state@.payment_methods[q].user_id@ == query.user_id@ by {
                            if keys.contains(q) {
                                let idx = choose|idx: int| 0 <= idx < keys.len() && keys[idx] == q;
                                if idx < old_keys.len() {
                                    assert(old_keys.contains(q));
                                    let a = choose|a: int| 0 <= a < i && all@[a]@ == q;
                                    assert(0 <= a < i + 1 && all@[a]@ == q);
                                } else {
                                    assert(0 <= i < i + 1 && all@[i as int]@ == q);
                                }
                            }
                            if (exists|a: int| 0 <= a < i + 1 && all@[a]@ == q)
                                && state@.payment_methods[q].user_id@ == query.user_id@ {
                                let a = choose|a: int| 0 <= a < i + 1 && all@[a]@ == q;
                                if a < i {
                                    assert(old_keys.contains(q));
                                    let idx = choose|idx: int|
                                        0 <= idx < old_keys.len() && old_keys[idx] == q;
                                    assert(keys[idx] == q);
                                } else {
                                    assert(keys[old_keys.len() as int] == q);
                                }
                            }
                        }
                    }
                    listed.push(m);
                } else {
                    proof {
                        assert forall|q: Seq<char>|
                            keys.contains(q) <==> (exists|a: int| 0 <= a < i + 1 && all@[a]@ == q)
                                && state@.payment_methods[q].user_id@ == query.user_id@ by {
                            if keys.contains(q) {
                                let a = choose|a: int| 0 <= a < i && all@[a]@ == q;
                                assert(0 <= a < i + 1 && all@[a]@ == q);
                            }
                            if (exists|a: int| 0 <= a < i + 1 && all@[a]@ == q)
                                && state@.payment_methods[q].user_id@ == query.user_id@ {
                                let a = choose|a: int| 0 <= a < i + 1 && all@[a]@ == q;
                                assert(a < i);
                            }
                        }
                    }
                }
            },
            None => {
                assert(false);
            },
        }
        i += 1;
    }
    proof {
        assert forall|k: Seq<char>|
            keys.contains(k) <==> state@.payment_methods.contains_key(k)
                && state@.payment_methods[k].user_id@ == query.user_id@ by {
            if keys.contains(k) {
                let a = choose|a: int| 0 <= a < i && all@[a]@ == k;
                assert(state@.payment_methods.contains_key(all@[a]@));
            }
            if state@.payment_methods.contains_key(k) && state@.payment_methods[k].user_id@
                == query.user_id@ {
                assert(state@.payment_methods.dom().contains(k));
                let a = choose|a: int| 0 <= a < all@.len() && all@[a]@ == k;
                assert(0 <= a < i && all@[a]@ == k);
            }
        }
    }
    Ok(listed)
}

/// What asking to delete a payment method gives: the processor's reference
/// of the method under `pm_id`, which the processor is to detach, or
/// `NotFound`.
pub open spec fn delete_payment_method_post(
    s: StateView,
    pm_id: Seq<char>,
    r: Result<String, ServiceError>,
) -> bool {
    match r {
        Ok(reference) => s.payment_methods.contains_key(pm_id) && reference
            == s.payment_methods[pm_id].stripe_payment_method_id,
        Err(e) => !s.payment_methods.contains_key(pm_id) && is_not_found(
            e,
            Entity::PaymentMethod,
            pm_id,
        ),
    }
}

/// Looks up the payment method that is to be deleted. Nothing changes
/// before the processor has answered: see `complete_delete_payment_method`.
pub fn delete_payment_method(state: &AppState, pm_id: &str) -> (r: Result<String, ServiceError>)
    ensures
        delete_payment_method_post(state@, pm_id@, r),
{
    match store_get(&state.payment_methods, pm_id) {
        Some(m) => Ok(m.stripe_payment_method_id),
        None => Err(
            ServiceError::NotFound { entity: Entity::PaymentMethod, id: pm_id.to_owned() },
        ),
    }
}

/// What the processor's answer to a detachment does. Where the processor
/// failed, nothing changes and the failure is a `ProcessorError`. Where it
/// succeeded, the store holds no method under `pm_id` any more, whether or
/// not an order was paid with it.
pub open spec fn complete_delete_payment_method_post(
    pre: StateView,
    pm_id: Seq<char>,
    outcome: Result<(), String>,
    post: StateView,
    r: Result<(), ServiceError>,
) -> bool {
    match outcome {
        Err(message) => {
            &&& r == Err::<(), ServiceError>(ServiceError::ProcessorError { message })
            &&& post == pre
        },
        Ok(_) => {
            &&& r is Ok
            &&& post == StateView { payment_methods: pre.payment_methods.remove(pm_id), ..pre }
        },
    }
}

/// Completes the deletion of the payment method under `pm_id` with what the
/// processor answered.
pub fn complete_delete_payment_method(
    state: &mut AppState,
    pm_id: &str,
    outcome: Result<(), String>,
) -> (r: Result<(), ServiceError>)
    ensures
        complete_delete_payment_method_post(old(state)@, pm_id@, outcome, final(state)@, r),
        final(state).config == old(state).config,
{
    match outcome {
        Ok(_) => {
            store_remove(&mut state.payment_methods, pm_id);
            Ok(())
        },
        Err(message) => Err(ServiceError::ProcessorError { message }),
    }
}

/// What asking to pay with a saved method gives: `NotFound` where the
/// method is unknown, `Forbidden` where it is another user's, else the
/// payment that the processor is to make.
pub open spec fn pay_with_saved_method_post(
    s: StateView,
    req: PayWithSavedMethodRequest,
    r: Result<SavedPaymentCharge, ServiceError>,
) -> bool {
    if !s.payment_methods.contains_key(req.payment_method_id@) {
        r == Err::<SavedPaymentCharge, ServiceError>(
            ServiceError::NotFound { entity: Entity::PaymentMethod, id: req.payment_method_id },
        )
    } else {
        let method = s.payment_methods[req.payment_method_id@];
        if method.user_id@ != req.user_id@ {
            r == Err::<SavedPaymentCharge, ServiceError>(ServiceError::Forbidden)
        } else {
            r == Ok::<SavedPaymentCharge, ServiceError>(
                SavedPaymentCharge {
                    stripe_payment_method_id: method.stripe_payment_method_id,
                    amount: req.amount,
                    description: req.description,
                    card_last4: method.card_last4,
                },
            )
        }
    }
}

/// Checks that `req.user_id` may pay with the saved method
/// `req.payment_method_id`, and says what the processor is to be asked.
/// Neither carts nor orders are touched.
pub fn pay_with_saved_method(state: &AppState, req: &PayWithSavedMethodRequest) -> (r: Result<
    SavedPaymentCharge,
    ServiceError,
>)
    ensures
        pay_with_saved_method_post(state@, *req, r),
{
    let method = match store_get(&state.payment_methods, req.payment_method_id.as_str()) {
        Some(m) => m,
        None => {
            return Err(
                ServiceError::NotFound {
                    entity: Entity::PaymentMethod,
                    id: req.payment_method_id.clone(),
                },
            );
        },
    };
    if method.user_id != req.user_id {
        return Err(ServiceError::Forbidden);
    }
    Ok(
        SavedPaymentCharge {
            stripe_payment_method_id: method.stripe_payment_method_id,
            amount: req.amount,
            description: req.description.clone(),
            card_last4: method.card_last4,
        },
    )
}

/// What a payment with a saved method gives, from the processor's answer:
/// the payment's reference and status, with the amount and the card's last
/// digits; or a `ProcessorError`.
pub open spec fn complete_saved_payment_post(
    charge: SavedPaymentCharge,
    outcome: Result<PaymentRef, String>,
    r: Result<PaymentReceipt, ServiceError>,
) -> bool {
    match outcome {
        Err(message) => r == Err::<PaymentReceipt, ServiceError>(
            ServiceError::ProcessorError { message },
        ),
        Ok(payment) => r == Ok::<PaymentReceipt, ServiceError>(
            PaymentReceipt {
                payment_intent_id: payment.id,
                status: payment.status,
                amount: charge.amount,
                card_last4: charge.card_last4,
            },
        ),
    }
}

/// Answers a request to pay with a saved method with what the processor
/// answered to `charge`.
pub fn complete_saved_payment(charge: SavedPaymentCharge, outcome: Result<PaymentRef, String>) -> (r:
    Result<PaymentReceipt, ServiceError>)
    ensures
        complete_saved_payment_post(charge, outcome, r),
{
    match outcome {
        Ok(payment) => Ok(
            PaymentReceipt {
                payment_intent_id: payment.id,
                status: payment.status,
                amount: charge.amount,
                card_last4: charge.card_last4,
            },
        ),
        Err(message) => Err(ServiceError::ProcessorError { message }),
    }
}

} // verus!
