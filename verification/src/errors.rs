use vstd::prelude::*;
use crate::models::OrderStatus;

verus! {

/// The kinds of failure that an operation can report.
#[derive(Debug, Clone, Copy, PartialEq, Eq, Structural)]
pub enum ErrorKind {
    NotFound,
    InvalidInput,
    EmptyCart,
    InsufficientStock,
    InvalidState,
    CancellationWindowExpired,
    Forbidden,
    ProcessorError,
    MalformedPayload,
}

/// What was looked up and not found.
#[derive(Debug, Clone, Copy, PartialEq, Eq, Structural)]
pub enum Entity {
    Product,
    Cart,
    Order,
    Plan,
    Subscription,
    PaymentMethod,
}

/// The two operations that the cancellation window and the order's status gate.
#[derive(Debug, Clone, Copy, PartialEq, Eq, Structural)]
pub enum OrderAction {
    Cancel,
    Modify,
}

/// Why an input was refused although it named existing records.
#[derive(Debug, Clone, Copy, PartialEq, Eq, Structural)]
pub enum InputDefect {
    /// A quantity that would no longer fit the cart's counter.
    QuantityOutOfRange,
    /// An amount that would no longer fit the store's minor-unit integer.
    AmountOutOfRange,
    /// An instant beyond what the calendar supports.
    TimeOutOfRange,
    /// An answer of the processor to another request than the one made.
    UnexpectedReply,
}

/// Why an event payload could not be read.
#[derive(Debug, Clone, Copy, PartialEq, Eq, Structural)]
pub enum PayloadDefect {
    InvalidUtf8,
    InvalidJson,
}

/// A failure, with what the caller needs to tell the user.
#[derive(Debug)]
pub enum ServiceError {
    NotFound { entity: Entity, id: String },
    InvalidInput { input: InputDefect },
    EmptyCart,
    InsufficientStock { product_name: String, available: i32 },
    InvalidState { action: OrderAction, status: OrderStatus },
    CancellationWindowExpired { action: OrderAction, elapsed_hours: i64 },
    Forbidden,
    ProcessorError { message: String },
    MalformedPayload { payload: PayloadDefect },
}

impl ServiceError {
    /// The kind of this failure.
    pub open spec fn spec_kind(&self) -> ErrorKind {
        match *self {
            ServiceError::NotFound { .. } => ErrorKind::NotFound,
            ServiceError::InvalidInput { .. } => ErrorKind::InvalidInput,
            ServiceError::EmptyCart => ErrorKind::EmptyCart,
            ServiceError::InsufficientStock { .. } => ErrorKind::InsufficientStock,
            ServiceError::InvalidState { .. } => ErrorKind::InvalidState,
            ServiceError::CancellationWindowExpired { .. } => ErrorKind::CancellationWindowExpired,
            ServiceError::Forbidden => ErrorKind::Forbidden,
            ServiceError::ProcessorError { .. } => ErrorKind::ProcessorError,
            ServiceError::MalformedPayload { .. } => ErrorKind::MalformedPayload,
        }
    }

    /// The HTTP status under which a failure of kind `kind` is reported.
    pub open spec fn status_of(kind: ErrorKind) -> int {
        match kind {
            ErrorKind::NotFound => 404,
            ErrorKind::Forbidden => 403,
            ErrorKind::ProcessorError => 500,
            _ => 400,
        }
    }

    /// The kind of this failure.
    #[verifier::when_used_as_spec(spec_kind)]
    pub fn kind(&self) -> (k: ErrorKind)
        ensures
            k == self.spec_kind(),
    {
        match self {
            ServiceError::NotFound { .. } => ErrorKind::NotFound,
            ServiceError::InvalidInput { .. } => ErrorKind::InvalidInput,
            ServiceError::EmptyCart => ErrorKind::EmptyCart,
            ServiceError::InsufficientStock { .. } => ErrorKind::InsufficientStock,
            ServiceError::InvalidState { .. } => ErrorKind::InvalidState,
            ServiceError::CancellationWindowExpired { .. } => ErrorKind::CancellationWindowExpired,
            ServiceError::Forbidden => ErrorKind::Forbidden,
            ServiceError::ProcessorError { .. } => ErrorKind::ProcessorError,
            ServiceError::MalformedPayload { .. } => ErrorKind::MalformedPayload,
        }
    }

    /// The HTTP status under which this failure is reported.
    pub fn status_code(&self) -> (code: u16)
        ensures
            code == Self::status_of(self.spec_kind()),
    {
        match self.kind() {
            ErrorKind::NotFound => 404,
            ErrorKind::Forbidden => 403,
            ErrorKind::ProcessorError => 500,
            _ => 400,
        }
    }
}

} // verus!
