use axum::http::{HeaderMap, HeaderValue};
use sase_payments::flow::{Action, Event, Flow, Request, Stage, Step};
use sase_payments::identity::Introspection;
use sase_payments::operations::AuthorizeRequest;
use sase_payments::replies::{api_error, db_error, hold_response, lifecycle_error, HoldResponse};
use sase_payments::storage::{hold_row, PriorRow};
use sase_payments::{BookingPaymentHold, Decimal, HoldState, LifecycleError, Timestamp};

const ID: u128 = 0x0198_b5c2_77f0_7abc_9def_0123_4567_89ab;
const FRESH: u128 = 0x0198_b5c2_77f0_7abc_9def_0123_4567_0000;

fn at(seconds: i64) -> Timestamp {
    Timestamp { seconds, nanos: 0 }
}

fn parsed(text: &str) -> Decimal {
    let d = text.parse::<rust_decimal::Decimal>().unwrap().unpack();
    Decimal::from_parts(d.lo, d.mid, d.hi, d.negative, d.scale)
}

fn hold() -> BookingPaymentHold {
    BookingPaymentHold::authorize_with_id(ID, "tenant-a", "booking-1", parsed("10.50"), "USD", at(1)).unwrap()
}

fn full_headers() -> HeaderMap {
    let mut map = HeaderMap::new();
    map.insert("authorization", HeaderValue::from_static("Bearer tok"));
    map.insert("idempotency-key", HeaderValue::from_static("key-1"));
    map.insert("x-correlation-id", HeaderValue::from_static("corr"));
    map.insert("x-causation-id", HeaderValue::from_static("cause"));
    map
}

fn identity() -> Introspection {
    Introspection { active: true, subject: "svc".into(), tenant: "tenant-a".into(), exp: 0 }
}

fn start(request: Request) -> Step {
    Flow::start(request, &full_headers(), "https://id.example/")
}

fn capture_request() -> Request {
    Request::Mutate { operation: "capture", reference: "NVH-1".into(), refund_amount: None }
}

fn refund_request(amount: &str) -> Request {
    Request::Mutate { operation: "refund", reference: "NVH-1".into(), refund_amount: Some(parsed(amount)) }
}

fn authorize_request(currency: &str) -> Request {
    Request::Authorize(AuthorizeRequest {
        booking_reference: " booking-1".into(),
        amount: parsed("10.50"),
        currency: currency.into(),
    })
}

fn next(step: Step, event: Event) -> Step {
    step.flow.step_with(event, at(50), FRESH)
}

fn authenticated(request: Request) -> Step {
    let step = next(start(request), Event::IdentityStatus(200));
    assert_eq!(step.action, Action::ReadIdentity);
    next(step, Event::Identity(Some(identity())))
}

fn matching(request: Request) -> Step {
    let step = authenticated(request);
    assert_eq!(step.action, Action::Begin);
    let step = next(step, Event::Done);
    assert_eq!(step.action, Action::FindPrior { tenant: "tenant-a".into(), key: "key-1".into() });
    step
}

fn loading(request: Request) -> Step {
    let step = next(matching(request), Event::Prior(None));
    assert_eq!(step.action, Action::LoadHold { tenant: "tenant-a".into(), reference: "NVH-1".into() });
    step
}

fn finish(mut step: Step) -> (u16, HoldResponse) {
    assert_eq!(step.action, Action::Commit);
    step = next(step, Event::Done);
    assert_eq!(step.flow.stage, Stage::Finished);
    match step.action {
        Action::Answer { status, response } => (status, response),
        other => panic!("{:?}", other),
    }
}

#[test]
fn captures_are_served_in_order() {
    let step = next(loading(capture_request()), Event::Row(Some(hold_row(&hold()))));
    let mut captured = hold();
    captured.capture(at(50)).unwrap();
    assert_eq!(step.action, Action::UpdateHold(hold_row(&captured)));
    let step = next(step, Event::Done);
    match &step.action {
        Action::Emit(event) => {
            assert_eq!(event.id, FRESH);
            assert_eq!(event.event_type, "nvuto.payments.booking.hold.captured.v1");
            assert_eq!(event.correlation_id, "corr");
            assert_eq!(event.causation_id, "cause");
            assert_eq!(event.payload.state, HoldState::Captured);
            assert_eq!(event.payload.occurred_at, at(50));
        }
        other => panic!("{:?}", other),
    }
    let step = next(step, Event::Done);
    match &step.action {
        Action::Store { tenant, record, response } => {
            assert_eq!(tenant, "tenant-a");
            assert_eq!(record.key, "key-1");
            assert_eq!(record.operation, "capture");
            assert_eq!(record.fingerprint, "NVH-1");
            assert_eq!(response, &hold_response(&captured, false));
        }
        other => panic!("{:?}", other),
    }
    let step = next(step, Event::Done);
    assert_eq!(finish(step), (200, hold_response(&captured, false)));
}

#[test]
fn authorizations_are_served_in_order() {
    let step = next(matching(authorize_request("usd")), Event::Prior(None));
    let row = match &step.action {
        Action::InsertHold(row) => {
            assert_eq!(row.id, FRESH);
            assert_eq!(row.tenant_id, "tenant-a");
            assert_eq!(row.booking_reference, "booking-1");
            assert_eq!(row.currency, "USD");
            assert_eq!(row.state, "AUTHORIZED");
            assert_eq!(row.created_at, at(50));
            row.external_reference.clone()
        }
        other => panic!("{:?}", other),
    };
    let step = next(step, Event::Done);
    match &step.action {
        Action::Emit(event) => {
            assert_eq!(event.event_type, "nvuto.payments.booking.hold.authorized.v1");
            assert_eq!(event.aggregate_reference, row);
        }
        other => panic!("{:?}", other),
    }
    let step = next(step, Event::Done);
    match &step.action {
        Action::Store { record, .. } => {
            assert_eq!(record.operation, "authorize");
            assert_eq!(record.fingerprint, "booking-1|10.50|USD");
        }
        other => panic!("{:?}", other),
    }
    let (status, response) = finish(next(step, Event::Done));
    assert_eq!(status, 201);
    assert_eq!(response.state, HoldState::Authorized);
    assert_eq!(response.external_reference, row);
    assert!(!response.replayed);
}

#[test]
fn repeated_requests_get_the_stored_response() {
    let stored = hold_response(&hold(), false);
    let prior = |operation: &str, fingerprint: &str| {
        Event::Prior(Some(PriorRow {
            operation: operation.into(),
            fingerprint: fingerprint.into(),
            response: Some(stored.clone()),
        }))
    };
    let step = next(matching(capture_request()), prior("capture", "NVH-1"));
    let (status, response) = finish(step);
    assert_eq!(status, 200);
    assert_eq!(response, HoldResponse { replayed: true, ..stored.clone() });
    let (status, _) = finish(next(matching(authorize_request("usd")), prior("authorize", "booking-1|10.50|USD")));
    assert_eq!(status, 200);
    let conflict = Action::Refuse(lifecycle_error(LifecycleError::IdempotencyConflict));
    assert_eq!(next(matching(capture_request()), prior("release", "NVH-1")).action, conflict);
    assert_eq!(next(matching(refund_request("5.00")), prior("refund", "NVH-1|5.0")).action, conflict);
}

#[test]
fn undecodable_records_are_reported() {
    let prior = PriorRow { operation: "capture".into(), fingerprint: "NVH-1".into(), response: None };
    let step = next(matching(capture_request()), Event::Prior(Some(prior)));
    assert_eq!(
        step.action,
        Action::Refuse(api_error(500, "CORRUPT_IDEMPOTENCY_RECORD", "Stored idempotency response is invalid"))
    );
}

#[test]
fn refused_operations_write_nothing() {
    let mut released = hold();
    released.release(at(2)).unwrap();
    let step = next(loading(capture_request()), Event::Row(Some(hold_row(&released))));
    assert_eq!(step.action, Action::Refuse(lifecycle_error(LifecycleError::AlreadyReleased)));
    assert_eq!(step.flow.stage, Stage::Finished);
    assert_eq!(next(step, Event::Done).action, Action::Abandon);
    let step = next(loading(capture_request()), Event::Row(None));
    assert_eq!(step.action, Action::Refuse(api_error(404, "PAYMENT_NOT_FOUND", "Payment reference not found")));
    let step = next(matching(authorize_request("dollar")), Event::Prior(None));
    assert_eq!(step.action, Action::Refuse(lifecycle_error(LifecycleError::InvalidCurrency)));
}

#[test]
fn refunds_beyond_the_range_end_without_an_answer() {
    let mut captured = hold();
    captured.capture(at(2)).unwrap();
    captured.captured_amount = parsed("79228162514264337593543950335");
    captured.refunded_amount = parsed("-79228162514264337593543950335");
    let step = next(loading(refund_request("1")), Event::Row(Some(hold_row(&captured))));
    assert_eq!(step.action, Action::Abandon);
}

#[test]
fn refunds_report_whether_something_is_left() {
    let mut captured = hold();
    captured.capture(at(2)).unwrap();
    for (amount, name) in [
        ("10.5", "nvuto.payments.booking.payment.refunded.v1"),
        ("10.49", "nvuto.payments.booking.payment.partially_refunded.v1"),
    ] {
        let step = next(loading(refund_request(amount)), Event::Row(Some(hold_row(&captured))));
        match next(step, Event::Done).action {
            Action::Emit(event) => assert_eq!(event.event_type, name),
            other => panic!("{:?}", other),
        }
    }
}

#[test]
fn database_failures_are_answered() {
    let failed = || Event::Failed(Some("08006".into()));
    let refused = Action::Refuse(db_error());
    assert_eq!(next(authenticated(capture_request()), failed()).action, refused);
    assert_eq!(next(matching(capture_request()), failed()).action, refused);
    assert_eq!(next(loading(capture_request()), failed()).action, refused);
    let mut step = next(loading(capture_request()), Event::Row(Some(hold_row(&hold()))));
    for _ in 0..3 {
        step = next(step, Event::Done);
    }
    assert_eq!(step.action, Action::Commit);
    assert_eq!(next(step, failed()).action, refused);
    let writing = || next(matching(authorize_request("usd")), Event::Prior(None));
    assert_eq!(next(writing(), failed()).action, refused);
    assert_eq!(
        next(writing(), Event::Failed(Some("23505".into()))).action,
        Action::Refuse(api_error(
            409,
            "BOOKING_PAYMENT_ALREADY_EXISTS",
            "A payment hold already exists for this booking"
        ))
    );
    let writing = next(loading(capture_request()), Event::Row(Some(hold_row(&hold()))));
    assert_eq!(next(writing, Event::Failed(Some("23505".into()))).action, refused);
}

#[test]
fn unknown_senders_are_refused() {
    let step = Flow::start(capture_request(), &HeaderMap::new(), "https://id.example");
    assert_eq!(
        step.action,
        Action::Refuse(api_error(401, "MISSING_WORKLOAD_TOKEN", "Bearer workload token required"))
    );
    let step = start(capture_request());
    match &step.action {
        Action::Introspect(call) => {
            assert_eq!(call.url, "https://id.example/api/v1/auth/introspect");
            assert_eq!(call.token, "tok");
            assert_eq!(call.correlation, Some("corr".to_string()));
        }
        other => panic!("{:?}", other),
    }
    let refused = |action: Action| match action {
        Action::Refuse(e) => (e.status, e.message),
        other => panic!("{:?}", other),
    };
    assert_eq!(
        refused(next(step, Event::Unreachable).action),
        (503, "Platform identity service unavailable".to_string())
    );
    assert_eq!(
        refused(next(start(capture_request()), Event::IdentityStatus(401)).action),
        (503, "Platform identity service rejected introspection".to_string())
    );
    let reading = || next(start(capture_request()), Event::IdentityStatus(200));
    assert_eq!(
        refused(next(reading(), Event::Identity(None)).action),
        (503, "Malformed Platform identity response".to_string())
    );
    let expired = Introspection { exp: 50, ..identity() };
    assert_eq!(
        refused(next(reading(), Event::Identity(Some(expired))).action),
        (401, "Inactive or incomplete workload identity".to_string())
    );
}

#[test]
fn requests_need_an_idempotency_key_once_the_sender_is_known() {
    let mut headers = full_headers();
    headers.remove("idempotency-key");
    let step = Flow::start(capture_request(), &headers, "https://id.example");
    let step = next(step, Event::IdentityStatus(200));
    let step = next(step, Event::Identity(Some(identity())));
    assert_eq!(step.action, Action::Refuse(lifecycle_error(LifecycleError::MissingIdempotencyKey)));
}

#[test]
fn status_needs_no_key_and_shows_the_hold() {
    let mut headers = full_headers();
    headers.remove("idempotency-key");
    let request = || Request::Status { reference: "NVH-1".into() };
    let finding = || {
        let step = Flow::start(request(), &headers, "https://id.example");
        let step = next(step, Event::IdentityStatus(200));
        next(step, Event::Identity(Some(identity())))
    };
    assert_eq!(
        finding().action,
        Action::FindHold { tenant: "tenant-a".into(), reference: "NVH-1".into() }
    );
    assert_eq!(
        next(finding(), Event::Row(Some(hold_row(&hold())))).action,
        Action::Answer { status: 200, response: hold_response(&hold(), false) }
    );
    assert_eq!(
        next(finding(), Event::Row(None)).action,
        Action::Refuse(api_error(404, "PAYMENT_NOT_FOUND", "Payment reference not found"))
    );
    assert_eq!(next(finding(), Event::Failed(None)).action, Action::Refuse(db_error()));
}

#[test]
fn events_out_of_turn_end_the_request() {
    assert_eq!(next(start(capture_request()), Event::Done).action, Action::Abandon);
    assert_eq!(next(start(capture_request()), Event::Failed(None)).action, Action::Abandon);
    assert_eq!(next(matching(capture_request()), Event::Done).action, Action::Abandon);
}

#[test]
fn steps_use_the_current_time_and_fresh_identifiers() {
    let reading = || start(capture_request()).flow.step(Event::IdentityStatus(200));
    let past = Introspection { exp: 1_000_000_000, ..identity() };
    assert!(matches!(reading().flow.step(Event::Identity(Some(past))).action, Action::Refuse(_)));
    let future = Introspection { exp: 32_503_680_000, ..identity() };
    assert_eq!(reading().flow.step(Event::Identity(Some(future))).action, Action::Begin);
    match matching(authorize_request("usd")).flow.step(Event::Prior(None)).action {
        Action::InsertHold(row) => {
            assert!(row.created_at.seconds > 1_577_836_800);
            assert!(row.created_at.nanos < 1_000_000_000);
            assert_eq!(uuid::Uuid::from_u128(row.id).get_version_num(), 7);
            assert_eq!(row.external_reference, format!("NVH-{}", uuid::Uuid::from_u128(row.id)));
        }
        other => panic!("{:?}", other),
    }
}

#[test]
fn the_longest_request_is_finished_after_nine_events() {
    let mut step = start(capture_request());
    let events = [
        Event::IdentityStatus(200),
        Event::Identity(Some(identity())),
        Event::Done,
        Event::Prior(None),
        Event::Row(Some(hold_row(&hold()))),
        Event::Done,
        Event::Done,
        Event::Done,
        Event::Done,
    ];
    for event in events {
        assert!(step.flow.stage != Stage::Finished);
        step = next(step, event);
    }
    assert_eq!(step.flow.stage, Stage::Finished);
    assert!(matches!(step.action, Action::Answer { status: 200, .. }));
}

#[test]
fn a_retry_finds_the_record_and_gets_its_response() {
    let step = next(loading(capture_request()), Event::Row(Some(hold_row(&hold()))));
    let (tenant, record, response) = match next(next(step, Event::Done), Event::Done).action {
        Action::Store { tenant, record, response } => (tenant, record, response),
        other => panic!("{:?}", other),
    };
    let again = matching(capture_request());
    assert_eq!(again.action, Action::FindPrior { tenant, key: record.key.clone() });
    let prior = PriorRow {
        operation: record.operation,
        fingerprint: record.fingerprint,
        response: Some(response.clone()),
    };
    let (status, replayed) = finish(next(again, Event::Prior(Some(prior))));
    assert_eq!(status, 200);
    assert_eq!(replayed, HoldResponse { replayed: true, ..response });
}

#[test]
fn a_request_acts_for_the_tenant_of_its_sender() {
    let other = Introspection { tenant: " tenant-b".into(), ..identity() };
    let step = next(start(authorize_request("usd")), Event::IdentityStatus(200));
    let step = next(step, Event::Identity(Some(other)));
    let step = next(step, Event::Done);
    assert_eq!(step.action, Action::FindPrior { tenant: " tenant-b".into(), key: "key-1".into() });
    let step = next(step, Event::Prior(None));
    match &step.action {
        Action::InsertHold(row) => assert_eq!(row.tenant_id, "tenant-b"),
        other => panic!("{:?}", other),
    }
    match next(next(step, Event::Done), Event::Done).action {
        Action::Store { tenant, .. } => assert_eq!(tenant, " tenant-b"),
        other => panic!("{:?}", other),
    }
}

#[test]
fn a_retry_need_not_be_written_alike() {
    let step = next(matching(authorize_request("usd")), Event::Prior(None));
    let (record, response) = match next(next(step, Event::Done), Event::Done).action {
        Action::Store { record, response, .. } => (record, response),
        other => panic!("{:?}", other),
    };
    let prior = || {
        Event::Prior(Some(PriorRow {
            operation: record.operation.clone(),
            fingerprint: record.fingerprint.clone(),
            response: Some(response.clone()),
        }))
    };
    let request = |booking: &str, amount: &str, currency: &str| {
        Request::Authorize(AuthorizeRequest {
            booking_reference: booking.into(),
            amount: parsed(amount),
            currency: currency.into(),
        })
    };
    let (status, replayed) = finish(next(matching(request("booking-1\t", "10.50", " UsD ")), prior()));
    assert_eq!(status, 200);
    assert_eq!(replayed, HoldResponse { replayed: true, ..response.clone() });
    let conflict = Action::Refuse(lifecycle_error(LifecycleError::IdempotencyConflict));
    assert_eq!(next(matching(request("booking-1", "10.5", "USD")), prior()).action, conflict);
    assert_eq!(next(matching(request("booking-2", "10.50", "USD")), prior()).action, conflict);
    assert_eq!(next(matching(capture_request()), prior()).action, conflict);
}

#[test]
fn refund_requests_keep_the_books() {
    let mut captured = hold();
    captured.capture(at(2)).unwrap();
    let step = next(loading(refund_request("2.125")), Event::Row(Some(hold_row(&captured))));
    match step.action {
        Action::UpdateHold(row) => {
            assert_eq!(row.refunded_amount, parsed("2.125"));
            assert_eq!(row.captured_amount, parsed("10.5"));
            assert_eq!(row.state, "PARTIALLY_REFUNDED");
        }
        other => panic!("{:?}", other),
    }
    let step = next(loading(refund_request("10.501")), Event::Row(Some(hold_row(&captured))));
    assert_eq!(step.action, Action::Refuse(lifecycle_error(LifecycleError::RefundExceedsCaptured)));
}

#[test]
fn changes_carry_the_tenant_and_reference_of_the_hold_found() {
    let step = next(loading(capture_request()), Event::Row(Some(hold_row(&hold()))));
    match &step.action {
        Action::UpdateHold(row) => {
            assert_eq!(row.tenant_id, "tenant-a");
            assert_eq!(row.external_reference, hold().external_reference);
            assert_eq!(row.id, ID);
        }
        other => panic!("{:?}", other),
    }
    match next(step, Event::Done).action {
        Action::Emit(event) => {
            assert_eq!(event.tenant_id, "tenant-a");
            assert_eq!(event.aggregate_reference, hold().external_reference);
        }
        other => panic!("{:?}", other),
    }
}
