use axum::http::{HeaderMap, HeaderValue};
use sase_payments::headers::{bearer, bearer_token, header_value, idempotency_key};
use sase_payments::identity::{
    accept_identity, accept_identity_status, identity_unreachable, introspection_call,
    Introspection,
};
use sase_payments::operations::{
    apply_operation, authorize_fingerprint, event_type, mutation_fingerprint, AuthorizeRequest,
};
use sase_payments::outbox::outbox_event;
use sase_payments::replies::{api_error, db_error, hold_response, lifecycle_error, HoldResponse};
use sase_payments::storage::{
    hold_row, insert_error, load_hold, prior_response, state_from_db, state_to_db, PriorRow,
};
use sase_payments::{
    BookingPaymentHold, Decimal, HoldState, LifecycleError, Timestamp, CONTRACT_VERSION,
};

const ID: u128 = 0x0198_b5c2_77f0_7abc_9def_0123_4567_89ab;

fn at(seconds: i64) -> Timestamp {
    Timestamp { seconds, nanos: 0 }
}

fn parsed(text: &str) -> Decimal {
    let d = text.parse::<rust_decimal::Decimal>().unwrap().unpack();
    Decimal::from_parts(d.lo, d.mid, d.hi, d.negative, d.scale)
}

fn hold() -> BookingPaymentHold {
    BookingPaymentHold::authorize_with_id(ID, "tenant-a", "booking-1", parsed("10.50"), "USD", at(1)).unwrap()
}

fn headers(pairs: &[(&'static str, &str)]) -> HeaderMap {
    let mut map = HeaderMap::new();
    for (name, value) in pairs {
        map.append(*name, HeaderValue::from_bytes(value.as_bytes()).unwrap());
    }
    map
}

#[test]
fn headers_are_read_trimmed() {
    let map = headers(&[("x-correlation-id", "  c-1\t"), ("x-correlation-id", "c-2"), ("x-odd", "caf\u{e9}")]);
    assert_eq!(header_value(&map, "x-correlation-id"), "c-1");
    assert_eq!(header_value(&map, "X-Correlation-ID"), "c-1");
    assert_eq!(header_value(&map, "x-causation-id"), "");
    assert_eq!(header_value(&map, "x-odd"), "");
    assert_eq!(header_value(&map, "not a name"), "");
}

#[test]
fn bearer_tokens_are_taken_from_the_authorization_header() {
    assert_eq!(bearer(&headers(&[("authorization", "Bearer  abc ")])), Some("abc".to_string()));
    assert_eq!(bearer(&headers(&[("authorization", "bearer xyz")])), Some("xyz".to_string()));
    assert_eq!(bearer(&headers(&[("authorization", "BEARER xyz")])), None);
    assert_eq!(bearer(&headers(&[("authorization", "Bearer ")])), None);
    assert_eq!(bearer(&headers(&[("authorization", "Basic xyz")])), None);
    assert_eq!(bearer(&headers(&[])), None);
    assert_eq!(bearer_token("  Bearer bearer t "), Some("bearer t".to_string()));
    assert_eq!(bearer_token("Bearer\u{a0}t"), None);
}

#[test]
fn idempotency_keys_are_required() {
    assert_eq!(idempotency_key(&headers(&[("idempotency-key", " k-1 ")])), Ok("k-1".to_string()));
    let refused = idempotency_key(&headers(&[("idempotency-key", "   ")])).unwrap_err();
    assert_eq!((refused.status, refused.code), (400, "INVALID_REQUEST"));
    assert_eq!(refused.message, "idempotency key is required");
    assert_eq!(idempotency_key(&headers(&[])), Err(refused.clone()));
}

#[test]
fn introspection_asks_the_identity_service() {
    let map = headers(&[("authorization", "Bearer tok"), ("x-correlation-id", "c-1")]);
    let call = introspection_call(&map, "https://id.example//").unwrap();
    assert_eq!(call.url, "https://id.example/api/v1/auth/introspect");
    assert_eq!(call.token, "tok");
    assert_eq!(call.correlation, Some("c-1".to_string()));
    let call = introspection_call(&headers(&[("authorization", "Bearer tok")]), "").unwrap();
    assert_eq!(call.url, "/api/v1/auth/introspect");
    assert_eq!(call.correlation, None);
    let refused = introspection_call(&headers(&[]), "https://id.example").unwrap_err();
    assert_eq!((refused.status, refused.code), (401, "MISSING_WORKLOAD_TOKEN"));
    assert_eq!(refused.message, "Bearer workload token required");
}

#[test]
fn identities_are_checked() {
    let good = |exp: i64| Introspection { active: true, subject: "s".into(), tenant: "t".into(), exp };
    assert_eq!(accept_identity(Some(good(0)), 100), Ok(good(0)));
    assert_eq!(accept_identity(Some(good(-5)), 100), Ok(good(-5)));
    assert_eq!(accept_identity(Some(good(101)), 100), Ok(good(101)));
    let expired = accept_identity(Some(good(100)), 100).unwrap_err();
    assert_eq!((expired.status, expired.code), (401, "INVALID_WORKLOAD_TOKEN"));
    assert_eq!(expired.message, "Inactive or incomplete workload identity");
    let bad = [
        Introspection { active: false, ..good(0) },
        Introspection { subject: " ".into(), ..good(0) },
        Introspection { tenant: "\t".into(), ..good(0) },
    ];
    for identity in bad {
        assert_eq!(accept_identity(Some(identity), 100), Err(expired.clone()));
    }
    let malformed = accept_identity(None, 100).unwrap_err();
    assert_eq!((malformed.status, malformed.code), (503, "IDENTITY_UNAVAILABLE"));
    assert_eq!(malformed.message, "Malformed Platform identity response");
    assert_eq!(accept_identity_status(200), Ok(()));
    let rejected = accept_identity_status(204).unwrap_err();
    assert_eq!((rejected.status, rejected.code), (503, "IDENTITY_UNAVAILABLE"));
    assert_eq!(rejected.message, "Platform identity service rejected introspection");
    let unreachable = identity_unreachable();
    assert_eq!((unreachable.status, unreachable.code), (503, "IDENTITY_UNAVAILABLE"));
    assert_eq!(unreachable.message, "Platform identity service unavailable");
}

#[test]
fn lifecycle_errors_have_a_status_and_a_code() {
    let cases = [
        (LifecycleError::MissingTenant, 400, "INVALID_REQUEST"),
        (LifecycleError::MissingBookingReference, 400, "INVALID_REQUEST"),
        (LifecycleError::MissingIdempotencyKey, 400, "INVALID_REQUEST"),
        (LifecycleError::InvalidAmount, 400, "INVALID_REQUEST"),
        (LifecycleError::InvalidCurrency, 400, "INVALID_REQUEST"),
        (LifecycleError::IdempotencyConflict, 409, "IDEMPOTENCY_CONFLICT"),
        (LifecycleError::AlreadyCaptured, 409, "ALREADY_CAPTURED"),
        (LifecycleError::AlreadyReleased, 409, "ALREADY_RELEASED"),
        (LifecycleError::AlreadyRefunded, 409, "ALREADY_REFUNDED"),
        (LifecycleError::Declined, 402, "PAYMENT_DECLINED"),
        (LifecycleError::Expired, 410, "PAYMENT_EXPIRED"),
        (LifecycleError::RefundExceedsCaptured, 409, "REFUND_EXCEEDS_CAPTURED"),
        (LifecycleError::InvalidState, 409, "INVALID_PAYMENT_STATE"),
    ];
    for (e, status, code) in cases {
        assert_eq!(lifecycle_error(e), api_error(status, code, &e.message()));
    }
    assert_eq!(db_error(), api_error(503, "PAYMENTS_UNAVAILABLE", "Payments persistence unavailable"));
}

#[test]
fn states_are_stored_as_text() {
    let cases = [
        (HoldState::Authorized, "AUTHORIZED"),
        (HoldState::Captured, "CAPTURED"),
        (HoldState::Released, "RELEASED"),
        (HoldState::PartiallyRefunded, "PARTIALLY_REFUNDED"),
        (HoldState::Refunded, "REFUNDED"),
        (HoldState::Declined, "DECLINED"),
        (HoldState::Expired, "EXPIRED"),
    ];
    for (state, text) in cases {
        assert_eq!(state_to_db(state), text);
        assert_eq!(state_from_db(text), Ok(state));
    }
    assert_eq!(state_from_db("authorized"), Err(LifecycleError::InvalidState));
    assert_eq!(state_from_db(""), Err(LifecycleError::InvalidState));
}

#[test]
fn holds_read_back_from_their_rows() {
    let mut captured = hold();
    captured.capture(at(2)).unwrap();
    let row = hold_row(&captured);
    assert_eq!(row.state, "CAPTURED");
    assert_eq!(BookingPaymentHold::try_from(row), Ok(captured.clone()));
    assert_eq!(load_hold(Some(hold_row(&captured))), Ok(captured.clone()));
    let mut row = hold_row(&captured);
    row.state = "LOST".to_string();
    assert_eq!(load_hold(Some(row)), Err(lifecycle_error(LifecycleError::InvalidState)));
    assert_eq!(load_hold(None), Err(api_error(404, "PAYMENT_NOT_FOUND", "Payment reference not found")));
}

#[test]
fn taken_bookings_are_told_from_other_failures() {
    let taken = insert_error(&Some("23505".to_string()));
    assert_eq!(
        taken,
        api_error(409, "BOOKING_PAYMENT_ALREADY_EXISTS", "A payment hold already exists for this booking")
    );
    assert_eq!(insert_error(&Some("23503".to_string())), db_error());
    assert_eq!(insert_error(&None), db_error());
}

#[test]
fn responses_show_the_hold() {
    let shown = hold_response(&hold(), false);
    assert_eq!(shown.contract_version, "nvuto.payments.booking.v1");
    assert_eq!(shown.contract_version, CONTRACT_VERSION);
    assert_eq!(shown.external_reference, "NVH-0198b5c2-77f0-7abc-9def-0123456789ab");
    assert_eq!(shown.booking_reference, "booking-1");
    assert_eq!(shown.amount.parts(), (1050, 0, 0, false, 2));
    assert_eq!(shown.currency, "USD");
    assert_eq!(shown.captured_amount, Decimal::zero());
    assert_eq!(shown.refunded_amount, Decimal::zero());
    assert_eq!(shown.state, HoldState::Authorized);
    assert!(!shown.replayed);
    assert_eq!(shown.clone(), shown);
}

#[test]
fn requests_on_record_are_replayed() {
    let row = |response: Option<HoldResponse>| {
        Some(PriorRow { operation: "capture".into(), fingerprint: "f".into(), response })
    };
    let shown = hold_response(&hold(), false);
    assert_eq!(prior_response(None, "capture", "f"), Ok(None));
    let replayed = HoldResponse { replayed: true, ..shown.clone() };
    assert_eq!(prior_response(row(Some(shown.clone())), "capture", "f"), Ok(Some(replayed)));
    let conflict = lifecycle_error(LifecycleError::IdempotencyConflict);
    assert_eq!(prior_response(row(Some(shown.clone())), "release", "f"), Err(conflict.clone()));
    assert_eq!(prior_response(row(None), "capture", "g"), Err(conflict));
    assert_eq!(
        prior_response(row(None), "capture", "f"),
        Err(api_error(500, "CORRUPT_IDEMPOTENCY_RECORD", "Stored idempotency response is invalid"))
    );
}

#[test]
fn fingerprints_name_the_payload() {
    let request = AuthorizeRequest {
        booking_reference: "  booking-1 ".into(),
        amount: parsed("250.00"),
        currency: " ngn".into(),
    };
    assert_eq!(authorize_fingerprint(&request), "booking-1|250.00|NGN");
    assert_eq!(mutation_fingerprint("NVH-1", None), "NVH-1");
    assert_eq!(mutation_fingerprint("NVH-1", Some(parsed("0.05"))), "NVH-1|0.05");
    assert_eq!(mutation_fingerprint("NVH-1", Some(parsed("-12.300"))), "NVH-1|-12.300");
    assert_eq!(mutation_fingerprint("a", Some(parsed("0"))), "a|0");
    assert_eq!(mutation_fingerprint("a", Some(parsed("0.00"))), "a|0.00");
    assert_eq!(
        mutation_fingerprint("a", Some(parsed("79228162514264337593543950335"))),
        "a|79228162514264337593543950335"
    );
    assert_eq!(
        mutation_fingerprint("a", Some(parsed("0.0000000000000000000000000001"))),
        "a|0.0000000000000000000000000001"
    );
    assert_ne!(mutation_fingerprint("a", Some(parsed("1"))), mutation_fingerprint("a", Some(parsed("1.0"))));
}

#[test]
fn operations_are_performed_by_name() {
    let mut h = hold();
    assert_eq!(apply_operation(&mut h, "refund", None, at(2)), Some(Err(LifecycleError::InvalidAmount)));
    assert_eq!(apply_operation(&mut h, "cancel", None, at(2)), Some(Err(LifecycleError::InvalidState)));
    assert_eq!(apply_operation(&mut h, "Capture", None, at(2)), Some(Err(LifecycleError::InvalidState)));
    let receipt = apply_operation(&mut h, "capture", None, at(2)).unwrap().unwrap();
    assert_eq!(receipt.amount, parsed("10.50"));
    let receipt = apply_operation(&mut h, "refund", Some(parsed("4")), at(3)).unwrap().unwrap();
    assert_eq!(receipt.amount, parsed("4"));
    assert_eq!(h.state, HoldState::PartiallyRefunded);
    assert_eq!(apply_operation(&mut h, "release", None, at(4)), Some(Err(LifecycleError::AlreadyCaptured)));
    let mut other = hold();
    assert!(apply_operation(&mut other, "release", None, at(2)).unwrap().is_ok());
    assert_eq!(other.state, HoldState::Released);
    let mut h = hold();
    h.capture(at(2)).unwrap();
    h.captured_amount = parsed("79228162514264337593543950335");
    h.refunded_amount = parsed("-79228162514264337593543950335");
    assert_eq!(apply_operation(&mut h, "refund", Some(parsed("1")), at(3)), None);
}

#[test]
fn events_name_what_happened() {
    let cases = [
        ("capture", HoldState::Captured, "nvuto.payments.booking.hold.captured.v1"),
        ("release", HoldState::Released, "nvuto.payments.booking.hold.released.v1"),
        ("refund", HoldState::Refunded, "nvuto.payments.booking.payment.refunded.v1"),
        ("refund", HoldState::PartiallyRefunded, "nvuto.payments.booking.payment.partially_refunded.v1"),
        ("other", HoldState::Captured, "nvuto.payments.booking.payment.changed.v1"),
    ];
    for (operation, state, name) in cases {
        assert_eq!(event_type(operation, state), name);
    }
    let mut h = hold();
    h.capture(at(9)).unwrap();
    let event = outbox_event(&h, 77, "type", "corr", "cause");
    assert_eq!(event.id, 77);
    assert_eq!(event.tenant_id, "tenant-a");
    assert_eq!(event.aggregate_reference, h.external_reference);
    assert_eq!(event.event_type, "type");
    assert_eq!(event.correlation_id, "corr");
    assert_eq!(event.causation_id, "cause");
    assert_eq!(event.payload.contract_version, CONTRACT_VERSION);
    assert_eq!(event.payload.external_reference, h.external_reference);
    assert_eq!(event.payload.booking_reference, "booking-1");
    assert_eq!(event.payload.state, HoldState::Captured);
    assert_eq!(event.payload.amount, parsed("10.50"));
    assert_eq!(event.payload.currency, "USD");
    assert_eq!(event.payload.captured_amount, parsed("10.50"));
    assert_eq!(event.payload.refunded_amount, Decimal::zero());
    assert_eq!(event.payload.occurred_at, at(9));
}
