//! Payment holds for bookings: authorization, capture, release and refund, the
//! idempotency rules of the requests that drive them, and the decisions of the
//! service that serves those requests.

pub mod bookings_contract;
pub mod clock;
pub mod decimal;
pub mod decimal_laws;
pub mod flow;
pub mod flow_laws;
pub mod headers;
pub mod hold_laws;
pub mod identifier;
pub mod identity;
pub mod laws;
pub mod operations;
pub mod outbox;
pub mod replies;
pub mod request_laws;
pub mod runs;
pub mod service_laws;
pub mod storage;
pub mod text;

pub use bookings_contract::{
    validate_idempotency, BookingPaymentHold, HoldState, IdempotencyRecord, LifecycleError,
    MutationReceipt, CONTRACT_VERSION,
};
pub use clock::Timestamp;
pub use decimal::Decimal;
