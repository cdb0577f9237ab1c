//! What the service answers: a hold, or an error with a status and a code.

use vstd::prelude::*;

use crate::bookings_contract::{
    error_message, BookingPaymentHold, HoldModel, HoldState, LifecycleError, CONTRACT_VERSION,
};
use crate::decimal::{Decimal, DecimalModel};

verus! {

/// HTTP status: the request succeeded.
pub const OK: u16 = 200;

/// HTTP status: the request created something.
pub const CREATED: u16 = 201;

/// HTTP status: the request is malformed.
pub const BAD_REQUEST: u16 = 400;

/// HTTP status: the caller is not known.
pub const UNAUTHORIZED: u16 = 401;

/// HTTP status: the payment was declined.
pub const PAYMENT_REQUIRED: u16 = 402;

/// HTTP status: there is no such thing.
pub const NOT_FOUND: u16 = 404;

/// HTTP status: the request contradicts what is on record.
pub const CONFLICT: u16 = 409;

/// HTTP status: what was asked for has lapsed.
pub const GONE: u16 = 410;

/// HTTP status: the service holds data that it cannot use.
pub const INTERNAL_SERVER_ERROR: u16 = 500;

/// HTTP status: something that the service depends on is not available.
pub const SERVICE_UNAVAILABLE: u16 = 503;

/// An answer that refuses a request.
#[derive(Debug, PartialEq, Eq)]
pub struct ApiError {
    pub status: u16,
    pub code: &'static str,
    pub message: String,
}

/// An answer that refuses a request, with its texts as character sequences.
pub struct ErrorModel {
    pub status: u16,
    pub code: Seq<char>,
    pub message: Seq<char>,
}

impl View for ApiError {
    type V = ErrorModel;

    open spec fn view(&self) -> ErrorModel {
        ErrorModel { status: self.status, code: self.code@, message: self.message@ }
    }
}

impl Clone for ApiError {
    fn clone(&self) -> (r: Self)
        ensures
            r == *self,
    {
        ApiError { status: self.status, code: self.code, message: self.message.clone() }
    }
}

/// An answer that refuses a request.
pub fn api_error(status: u16, code: &'static str, message: &str) -> (r: ApiError)
    ensures
        r@ == (ErrorModel { status, code: code@, message: message@ }),
        r.status == status,
        r.code@ == code@,
        r.message@ == message@,
{
    ApiError { status, code, message: message.to_owned() }
}

/// The status that an error is answered with.
pub open spec fn error_status(e: LifecycleError) -> u16 {
    match e {
        LifecycleError::MissingTenant
        | LifecycleError::MissingBookingReference
        | LifecycleError::MissingIdempotencyKey
        | LifecycleError::InvalidAmount
        | LifecycleError::InvalidCurrency => BAD_REQUEST,
        LifecycleError::Declined => PAYMENT_REQUIRED,
        LifecycleError::Expired => GONE,
        LifecycleError::AlreadyCaptured
        | LifecycleError::AlreadyReleased
        | LifecycleError::AlreadyRefunded
        | LifecycleError::RefundExceedsCaptured
        | LifecycleError::InvalidState
        | LifecycleError::IdempotencyConflict => CONFLICT,
    }
}

/// The code that an error is answered with.
pub open spec fn error_code(e: LifecycleError) -> Seq<char> {
    match e {
        LifecycleError::MissingTenant
        | LifecycleError::MissingBookingReference
        | LifecycleError::MissingIdempotencyKey
        | LifecycleError::InvalidAmount
        | LifecycleError::InvalidCurrency => "INVALID_REQUEST"@,
        LifecycleError::IdempotencyConflict => "IDEMPOTENCY_CONFLICT"@,
        LifecycleError::AlreadyCaptured => "ALREADY_CAPTURED"@,
        LifecycleError::AlreadyReleased => "ALREADY_RELEASED"@,
        LifecycleError::AlreadyRefunded => "ALREADY_REFUNDED"@,
        LifecycleError::Declined => "PAYMENT_DECLINED"@,
        LifecycleError::Expired => "PAYMENT_EXPIRED"@,
        LifecycleError::RefundExceedsCaptured => "REFUND_EXCEEDS_CAPTURED"@,
        LifecycleError::InvalidState => "INVALID_PAYMENT_STATE"@,
    }
}

/// The answer to a request that the lifecycle refuses.
pub open spec fn refusal(e: LifecycleError) -> ErrorModel {
    ErrorModel { status: error_status(e), code: error_code(e), message: error_message(e) }
}

/// The answer to a request that the lifecycle refuses.
pub fn lifecycle_error(err: LifecycleError) -> (r: ApiError)
    ensures
        r@ == refusal(err),
{
    let message = err.message();
    let message = message.as_str();
    match err {
        LifecycleError::MissingTenant
        | LifecycleError::MissingBookingReference
        | LifecycleError::MissingIdempotencyKey
        | LifecycleError::InvalidAmount
        | LifecycleError::InvalidCurrency => api_error(BAD_REQUEST, "INVALID_REQUEST", message),
        LifecycleError::IdempotencyConflict => api_error(CONFLICT, "IDEMPOTENCY_CONFLICT", message),
        LifecycleError::AlreadyCaptured => api_error(CONFLICT, "ALREADY_CAPTURED", message),
        LifecycleError::AlreadyReleased => api_error(CONFLICT, "ALREADY_RELEASED", message),
        LifecycleError::AlreadyRefunded => api_error(CONFLICT, "ALREADY_REFUNDED", message),
        LifecycleError::Declined => api_error(PAYMENT_REQUIRED, "PAYMENT_DECLINED", message),
        LifecycleError::Expired => api_error(GONE, "PAYMENT_EXPIRED", message),
        LifecycleError::RefundExceedsCaptured =>
            api_error(CONFLICT, "REFUND_EXCEEDS_CAPTURED", message),
        LifecycleError::InvalidState => api_error(CONFLICT, "INVALID_PAYMENT_STATE", message),
    }
}

/// The answer where the database fails.
pub open spec fn persistence_failure() -> ErrorModel {
    ErrorModel {
        status: SERVICE_UNAVAILABLE,
        code: "PAYMENTS_UNAVAILABLE"@,
        message: "Payments persistence unavailable"@,
    }
}

/// The answer where the database fails.
pub fn db_error() -> (r: ApiError)
    ensures
        r@ == persistence_failure(),
{
    api_error(
        SERVICE_UNAVAILABLE,
        "PAYMENTS_UNAVAILABLE",
        "Payments persistence unavailable",
    )
}

/// A hold as callers see it.
#[derive(Debug, PartialEq)]
pub struct HoldResponse {
    pub contract_version: String,
    pub external_reference: String,
    pub booking_reference: String,
    pub amount: Decimal,
    pub currency: String,
    pub captured_amount: Decimal,
    pub refunded_amount: Decimal,
    pub state: HoldState,
    pub replayed: bool,
}

/// A hold as callers see it, with its texts as character sequences.
pub struct ResponseModel {
    pub contract_version: Seq<char>,
    pub external_reference: Seq<char>,
    pub booking_reference: Seq<char>,
    pub amount: DecimalModel,
    pub currency: Seq<char>,
    pub captured_amount: DecimalModel,
    pub refunded_amount: DecimalModel,
    pub state: HoldState,
    pub replayed: bool,
}

impl View for HoldResponse {
    type V = ResponseModel;

    open spec fn view(&self) -> ResponseModel {
        ResponseModel {
            contract_version: self.contract_version@,
            external_reference: self.external_reference@,
            booking_reference: self.booking_reference@,
            amount: self.amount@,
            currency: self.currency@,
            captured_amount: self.captured_amount@,
            refunded_amount: self.refunded_amount@,
            state: self.state,
            replayed: self.replayed,
        }
    }
}

impl Clone for HoldResponse {
    fn clone(&self) -> (r: Self)
        ensures
            r == *self,
    {
        HoldResponse {
            contract_version: self.contract_version.clone(),
            external_reference: self.external_reference.clone(),
            booking_reference: self.booking_reference.clone(),
            amount: self.amount,
            currency: self.currency.clone(),
            captured_amount: self.captured_amount,
            refunded_amount: self.refunded_amount,
            state: self.state,
            replayed: self.replayed,
        }
    }
}

/// The answer that shows a hold.
pub open spec fn response_of(hold: HoldModel, replayed: bool) -> ResponseModel {
    ResponseModel {
        contract_version: CONTRACT_VERSION@,
        external_reference: hold.external_reference,
        booking_reference: hold.booking_reference,
        amount: hold.amount,
        currency: hold.currency,
        captured_amount: hold.captured_amount,
        refunded_amount: hold.refunded_amount,
        state: hold.state,
        replayed,
    }
}

/// The answer that shows a hold.
pub fn hold_response(hold: &BookingPaymentHold, replayed: bool) -> (r: HoldResponse)
    ensures
        r@ == response_of(hold@, replayed),
        r.contract_version@ == "nvuto.payments.booking.v1"@,
        r.external_reference@ == hold.external_reference@,
        r.booking_reference@ == hold.booking_reference@,
        r.amount == hold.amount,
        r.currency@ == hold.currency@,
        r.captured_amount == hold.captured_amount,
        r.refunded_amount == hold.refunded_amount,
        r.state == hold.state,
        r.replayed == replayed,
{
    HoldResponse {
        contract_version: CONTRACT_VERSION.to_owned(),
        external_reference: hold.external_reference.clone(),
        booking_reference: hold.booking_reference.clone(),
        amount: hold.amount,
        currency: hold.currency.clone(),
        captured_amount: hold.captured_amount,
        refunded_amount: hold.refunded_amount,
        state: hold.state,
        replayed,
    }
}

} // verus!
