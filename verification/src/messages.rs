use vstd::prelude::*;
use crate::errors::{Entity, InputDefect, OrderAction, PayloadDefect, ServiceError};
use crate::models::{ApiError, OrderStatus};
use crate::orders::CANCELLATION_WINDOW_HOURS;
use crate::pricing::StockWarning;

verus! {

/// The text of one decimal digit.
pub open spec fn digit_text(d: int) -> Seq<char> {
    if d == 0 {
        "0"@
    } else if d == 1 {
        "1"@
    } else if d == 2 {
        "2"@
    } else if d == 3 {
        "3"@
    } else if d == 4 {
        "4"@
    } else if d == 5 {
        "5"@
    } else if d == 6 {
        "6"@
    } else if d == 7 {
        "7"@
    } else if d == 8 {
        "8"@
    } else {
        "9"@
    }
}

/// A natural number in decimal, without leading zeros.
pub open spec fn natural_text(n: nat) -> Seq<char>
    decreases n,
{
    if n < 10 {
        digit_text(n as int)
    } else {
        natural_text(n / 10) + digit_text((n % 10) as int)
    }
}

/// An integer in decimal, with a minus sign where it is negative.
pub open spec fn decimal_text(n: int) -> Seq<char> {
    if n < 0 {
        "-"@ + natural_text((-n) as nat)
    } else {
        natural_text(n as nat)
    }
}

fn digit(d: u64) -> (r: &'static str)
    requires
        d < 10,
    ensures
        r@ == digit_text(d as int),
{
    if d == 0 {
        "0"
    } else if d == 1 {
        "1"
    } else if d == 2 {
        "2"
    } else if d == 3 {
        "3"
    } else if d == 4 {
        "4"
    } else if d == 5 {
        "5"
    } else if d == 6 {
        "6"
    } else if d == 7 {
        "7"
    } else if d == 8 {
        "8"
    } else {
        "9"
    }
}

fn natural(n: u64) -> (r: String)
    ensures
        r@ == natural_text(n as nat),
    decreases n,
{
    if n < 10 {
        digit(n).to_owned()
    } else {
        let mut text = natural(n / 10);
        text.append(digit(n % 10));
        text
    }
}

/// `n` in decimal.
pub fn decimal(n: i64) -> (r: String)
    ensures
        r@ == decimal_text(n as int),
{
    if n < 0 {
        let magnitude: u64 = (-(n + 1)) as u64 + 1;
        let mut text = "-".to_owned();
        let digits = natural(magnitude);
        text.append(digits.as_str());
        text
    } else {
        natural(n as u64)
    }
}

/// What the user is told of a record that was not found.
pub open spec fn not_found_text(entity: Entity, id: Seq<char>) -> Seq<char> {
    match entity {
        Entity::Product => "Produit "@ + id + " introuvable"@,
        Entity::Cart => "Panier vide"@,
        Entity::Order => "Commande non trouvée"@,
        Entity::Plan => "Plan d'abonnement non trouvé"@,
        Entity::Subscription => "Abonnement non trouvé"@,
        Entity::PaymentMethod => "Moyen de paiement non trouvé"@,
    }
}

/// What the user is told of an order whose status forbids an action.
pub open spec fn invalid_state_text(action: OrderAction, status: OrderStatus) -> Seq<char> {
    match (action, status) {
        (OrderAction::Cancel, OrderStatus::Completed) => "Commande déjà complétée, annulation impossible"@,
        (OrderAction::Cancel, OrderStatus::Processing) => "Paiement en cours, attendez la confirmation"@,
        (OrderAction::Cancel, OrderStatus::Cancelled) => "Commande déjà annulée"@,
        (OrderAction::Modify, OrderStatus::Completed) => "Commande déjà complétée, modification impossible"@,
        (OrderAction::Modify, OrderStatus::Processing) => "Paiement en cours, modification impossible"@,
        (OrderAction::Modify, OrderStatus::Cancelled) => "Commande annulée, modification impossible"@,
        _ => "Statut de commande invalide"@,
    }
}

/// What the user is told once the window has passed.
pub open spec fn window_expired_text(action: OrderAction, elapsed_hours: int) -> Seq<char> {
    match action {
        OrderAction::Cancel => "Délai d'annulation dépassé. Vous pouviez annuler dans les "@
            + decimal_text(CANCELLATION_WINDOW_HOURS as int)
            + " heures suivant la commande. Commande créée il y a "@ + decimal_text(elapsed_hours)
            + " heures."@,
        OrderAction::Modify => "Délai de modification dépassé. Vous pouviez modifier dans les "@
            + decimal_text(CANCELLATION_WINDOW_HOURS as int) + " heures suivant la commande."@,
    }
}

/// What the user is told of an input that was refused.
pub open spec fn invalid_input_text(input: InputDefect) -> Seq<char> {
    match input {
        InputDefect::QuantityOutOfRange => "Quantité hors limites"@,
        InputDefect::AmountOutOfRange => "Montant hors limites"@,
        InputDefect::TimeOutOfRange => "Date hors limites"@,
        InputDefect::UnexpectedReply => "Réponse inattendue du prestataire de paiement"@,
    }
}

/// What the sender is told of a payload that could not be read.
pub open spec fn malformed_payload_text(payload: PayloadDefect) -> Seq<char> {
    match payload {
        PayloadDefect::InvalidUtf8 => "Invalid payload"@,
        PayloadDefect::InvalidJson => "Invalid JSON"@,
    }
}

/// The text of a warning: the product, what was asked for and what is
/// there.
pub open spec fn warning_text(warning: StockWarning) -> Seq<char> {
    warning.product_name@ + ": demandé "@ + decimal_text(warning.requested as int)
        + ", disponible "@ + decimal_text(warning.available as int)
}

impl StockWarning {
    /// The warning in words.
    pub fn message(&self) -> (r: String)
        ensures
            r@ == warning_text(*self),
    {
        let mut text = self.product_name.clone();
        text.append(": demandé ");
        text.append(decimal(self.requested as i64).as_str());
        text.append(", disponible ");
        text.append(decimal(self.available as i64).as_str());
        text
    }
}

impl ServiceError {
    /// The failure in words, for the user.
    pub open spec fn message_text(&self) -> Seq<char> {
        match *self {
            ServiceError::NotFound { entity, id } => not_found_text(entity, id@),
            ServiceError::InvalidInput { input } => invalid_input_text(input),
            ServiceError::EmptyCart => "Le panier est vide"@,
            ServiceError::InsufficientStock { product_name, available } => "Stock insuffisant pour "@
                + product_name@ + ". Disponible: "@ + decimal_text(available as int),
            ServiceError::InvalidState { action, status } => invalid_state_text(action, status),
            ServiceError::CancellationWindowExpired { action, elapsed_hours } => window_expired_text(
                action,
                elapsed_hours as int,
            ),
            ServiceError::Forbidden => "Ce moyen de paiement ne vous appartient pas"@,
            ServiceError::ProcessorError { message } => "Erreur Stripe: "@ + message@,
            ServiceError::MalformedPayload { payload } => malformed_payload_text(payload),
        }
    }

    /// The failure in words, for the user.
    pub fn message(&self) -> (r: String)
        ensures
            r@ == self.message_text(),
    {
        match self {
            ServiceError::NotFound { entity, id } => match entity {
                Entity::Product => {
                    let mut text = "Produit ".to_owned();
                    text.append(id.as_str());
                    text.append(" introuvable");
                    text
                },
                Entity::Cart => "Panier vide".to_owned(),
                Entity::Order => "Commande non trouvée".to_owned(),
                Entity::Plan => "Plan d'abonnement non trouvé".to_owned(),
                Entity::Subscription => "Abonnement non trouvé".to_owned(),
                Entity::PaymentMethod => "Moyen de paiement non trouvé".to_owned(),
            },
            ServiceError::InvalidInput { input } => match input {
                InputDefect::QuantityOutOfRange => "Quantité hors limites".to_owned(),
                InputDefect::AmountOutOfRange => "Montant hors limites".to_owned(),
                InputDefect::TimeOutOfRange => "Date hors limites".to_owned(),
                InputDefect::UnexpectedReply => "Réponse inattendue du prestataire de paiement".to_owned(),
            },
            ServiceError::EmptyCart => "Le panier est vide".to_owned(),
            ServiceError::InsufficientStock { product_name, available } => {
                let mut text = "Stock insuffisant pour ".to_owned();
                text.append(product_name.as_str());
                text.append(". Disponible: ");
                text.append(decimal(*available as i64).as_str());
                text
            },
            ServiceError::InvalidState { action, status } => match (action, status) {
                (OrderAction::Cancel, OrderStatus::Completed) => "Commande déjà complétée, annulation impossible".to_owned(),
                (OrderAction::Cancel, OrderStatus::Processing) => "Paiement en cours, attendez la confirmation".to_owned(),
                (OrderAction::Cancel, OrderStatus::Cancelled) => "Commande déjà annulée".to_owned(),
                (OrderAction::Modify, OrderStatus::Completed) => "Commande déjà complétée, modification impossible".to_owned(),
                (OrderAction::Modify, OrderStatus::Processing) => "Paiement en cours, modification impossible".to_owned(),
                (OrderAction::Modify, OrderStatus::Cancelled) => "Commande annulée, modification impossible".to_owned(),
                _ => "Statut de commande invalide".to_owned(),
            },
            ServiceError::CancellationWindowExpired { action, elapsed_hours } => match action {
                OrderAction::Cancel => {
                    let mut text = "Délai d'annulation dépassé. Vous pouviez annuler dans les ".to_owned();
                    text.append(decimal(CANCELLATION_WINDOW_HOURS).as_str());
                    text.append(" heures suivant la commande. Commande créée il y a ");
                    text.append(decimal(*elapsed_hours).as_str());
                    text.append(" heures.");
                    text
                },
                OrderAction::Modify => {
                    let mut text = "Délai de modification dépassé. Vous pouviez modifier dans les ".to_owned();
                    text.append(decimal(CANCELLATION_WINDOW_HOURS).as_str());
                    text.append(" heures suivant la commande.");
                    text
                },
            },
            ServiceError::Forbidden => "Ce moyen de paiement ne vous appartient pas".to_owned(),
            ServiceError::ProcessorError { message } => {
                let mut text = "Erreur Stripe: ".to_owned();
                text.append(message.as_str());
                text
            },
            ServiceError::MalformedPayload { payload } => match payload {
                PayloadDefect::InvalidUtf8 => "Invalid payload".to_owned(),
                PayloadDefect::InvalidJson => "Invalid JSON".to_owned(),
            },
        }
    }

    /// The body of the error response for this failure.
    pub fn to_api_error(&self) -> (r: ApiError)
        ensures
            r.error@ == self.message_text(),
    {
        ApiError { error: self.message() }
    }
}

} // verus!
