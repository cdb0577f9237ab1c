use chrono::{TimeZone, Utc};
use sase_payments::{
    validate_idempotency, BookingPaymentHold, Decimal, HoldState, IdempotencyRecord,
    LifecycleError, Timestamp,
};

fn now() -> Timestamp {
    let at = Utc.with_ymd_and_hms(2026, 8, 16, 22, 0, 0).unwrap();
    Timestamp { seconds: at.timestamp(), nanos: at.timestamp_subsec_nanos() }
}

fn decimal(num: i64, scale: u32) -> Decimal {
    let d = rust_decimal::Decimal::new(num, scale).unpack();
    Decimal::from_parts(d.lo, d.mid, d.hi, d.negative, d.scale)
}

#[test]
fn lifecycle_authorize_capture_refund_is_bounded() {
    let mut hold = BookingPaymentHold::authorize("tenant-a", "booking-1", decimal(25000, 2), "ngn", now()).unwrap();
    assert_eq!(hold.state, HoldState::Authorized);
    hold.capture(now()).unwrap();
    assert_eq!(hold.state, HoldState::Captured);
    hold.refund(decimal(10000, 2), now()).unwrap();
    assert_eq!(hold.state, HoldState::PartiallyRefunded);
    hold.refund(decimal(15000, 2), now()).unwrap();
    assert_eq!(hold.state, HoldState::Refunded);
    assert_eq!(hold.refunded_amount, hold.captured_amount);
}

#[test]
fn released_hold_cannot_be_captured() {
    let mut hold = BookingPaymentHold::authorize("tenant-a", "booking-1", decimal(1000, 2), "USD", now()).unwrap();
    hold.release(now()).unwrap();
    assert_eq!(hold.capture(now()), Err(LifecycleError::AlreadyReleased));
}

#[test]
fn refund_cannot_exceed_capture() {
    let mut hold = BookingPaymentHold::authorize("tenant-a", "booking-1", decimal(1000, 2), "USD", now()).unwrap();
    hold.capture(now()).unwrap();
    assert_eq!(hold.refund(decimal(1001, 2), now()), Err(LifecycleError::RefundExceedsCaptured));
}

#[test]
fn declined_and_expired_are_terminal_for_capture() {
    let mut declined = BookingPaymentHold::authorize("tenant-a", "booking-1", decimal(1000, 2), "USD", now()).unwrap();
    declined.state = HoldState::Declined;
    assert_eq!(declined.capture(now()), Err(LifecycleError::Declined));
    let mut expired = BookingPaymentHold::authorize("tenant-a", "booking-2", decimal(1000, 2), "USD", now()).unwrap();
    expired.state = HoldState::Expired;
    assert_eq!(expired.capture(now()), Err(LifecycleError::Expired));
}

#[test]
fn idempotency_replay_requires_same_operation_and_fingerprint() {
    let prior = IdempotencyRecord { key: "idem-1".into(), operation: "capture".into(), fingerprint: "hold-1".into() };
    assert_eq!(validate_idempotency("idem-1", "capture", "hold-1", Some(&prior)), Ok(true));
    assert_eq!(validate_idempotency("idem-1", "release", "hold-1", Some(&prior)), Err(LifecycleError::IdempotencyConflict));
    assert_eq!(validate_idempotency("idem-1", "capture", "hold-2", Some(&prior)), Err(LifecycleError::IdempotencyConflict));
}

const ID: u128 = 0x0198_b5c2_77f0_7abc_9def_0123_4567_89ab;

fn at(seconds: i64) -> Timestamp {
    Timestamp { seconds, nanos: 0 }
}

fn parsed(text: &str) -> Decimal {
    let d = text.parse::<rust_decimal::Decimal>().unwrap().unpack();
    Decimal::from_parts(d.lo, d.mid, d.hi, d.negative, d.scale)
}

fn hold_of(amount: &str) -> BookingPaymentHold {
    BookingPaymentHold::authorize_with_id(ID, "tenant-a", "booking-1", parsed(amount), "USD", at(1)).unwrap()
}

fn captured_hold_of(amount: &str) -> BookingPaymentHold {
    let mut hold = hold_of(amount);
    hold.capture(at(2)).unwrap();
    hold
}

#[test]
fn authorization_normalizes_what_callers_send() {
    let hold = BookingPaymentHold::authorize_with_id(
        ID,
        "\u{2003} tenant-a\t",
        "\n booking 1 \u{3000}",
        parsed("250.00"),
        " nGn ",
        at(7),
    )
    .unwrap();
    assert_eq!(hold.id, ID);
    assert_eq!(hold.tenant_id, "tenant-a");
    assert_eq!(hold.booking_reference, "booking 1");
    assert_eq!(hold.currency, "NGN");
    assert_eq!(hold.external_reference, "NVH-0198b5c2-77f0-7abc-9def-0123456789ab");
    assert_eq!(hold.amount.parts(), (25000, 0, 0, false, 2));
    assert_eq!(hold.captured_amount.parts(), (0, 0, 0, false, 0));
    assert_eq!(hold.refunded_amount.parts(), (0, 0, 0, false, 0));
    assert_eq!(hold.state, HoldState::Authorized);
    assert_eq!(hold.created_at, at(7));
    assert_eq!(hold.updated_at, at(7));
}

#[test]
fn authorization_makes_fresh_identifiers() {
    let a = BookingPaymentHold::authorize("t", "b", parsed("1"), "USD", at(1)).unwrap();
    let b = BookingPaymentHold::authorize("t", "b", parsed("1"), "USD", at(1)).unwrap();
    assert_ne!(a.id, b.id);
    let id = uuid::Uuid::from_u128(a.id);
    assert_eq!(id.get_version_num(), 7);
    assert_eq!(id.get_variant(), uuid::Variant::RFC4122);
    assert_eq!(a.external_reference, format!("NVH-{}", id));
}

#[test]
fn authorization_is_refused_in_order() {
    let attempt = |tenant: &str, booking: &str, amount: &str, currency: &str| {
        BookingPaymentHold::authorize(tenant, booking, parsed(amount), currency, at(1)).err()
    };
    assert_eq!(attempt(" ", "", "0", ""), Some(LifecycleError::MissingTenant));
    assert_eq!(attempt("t", "\u{a0}", "0", ""), Some(LifecycleError::MissingBookingReference));
    assert_eq!(attempt("t", "b", "0.00", ""), Some(LifecycleError::InvalidAmount));
    assert_eq!(attempt("t", "b", "-1", "USD"), Some(LifecycleError::InvalidAmount));
    assert_eq!(attempt("t", "b", "1", "US"), Some(LifecycleError::InvalidCurrency));
    assert_eq!(attempt("t", "b", "1", "USDX"), Some(LifecycleError::InvalidCurrency));
    assert_eq!(attempt("t", "b", "1", "U1D"), Some(LifecycleError::InvalidCurrency));
    assert_eq!(attempt("t", "b", "1", "\u{20ac}"), Some(LifecycleError::InvalidCurrency));
    assert_eq!(attempt("t", "b", "1", "\u{e9}US"), Some(LifecycleError::InvalidCurrency));
    assert_eq!(attempt("t", "b", "0.0000000000000000000000000001", "usd"), None);
}

#[test]
fn capture_takes_the_whole_amount_once() {
    let mut hold = hold_of("99.95");
    let receipt = hold.capture(at(5)).unwrap();
    assert_eq!(receipt.external_reference, hold.external_reference);
    assert_eq!(receipt.state, HoldState::Captured);
    assert_eq!(receipt.amount.parts(), (9995, 0, 0, false, 2));
    assert!(!receipt.replayed);
    assert_eq!(hold.captured_amount.parts(), (9995, 0, 0, false, 2));
    assert_eq!(hold.created_at, at(1));
    assert_eq!(hold.updated_at, at(5));
    let before = hold.clone();
    assert_eq!(hold.capture(at(6)), Err(LifecycleError::AlreadyCaptured));
    assert_eq!(hold.release(at(6)), Err(LifecycleError::AlreadyCaptured));
    assert_eq!(hold, before);
}

#[test]
fn released_holds_refuse_everything() {
    let mut hold = hold_of("10");
    let receipt = hold.release(at(5)).unwrap();
    assert_eq!(receipt.state, HoldState::Released);
    assert_eq!(receipt.amount.parts(), (10, 0, 0, false, 0));
    assert_eq!(hold.captured_amount, Decimal::zero());
    assert_eq!(hold.updated_at, at(5));
    assert_eq!(hold.release(at(6)), Err(LifecycleError::AlreadyReleased));
    assert_eq!(hold.checked_refund(parsed("1"), at(6)), Some(Err(LifecycleError::InvalidState)));
    assert_eq!(hold.updated_at, at(5));
}

#[test]
fn terminal_holds_refuse_every_operation() {
    let cases = [
        (HoldState::Declined, LifecycleError::Declined, LifecycleError::Declined),
        (HoldState::Expired, LifecycleError::Expired, LifecycleError::Expired),
        (HoldState::Released, LifecycleError::AlreadyReleased, LifecycleError::InvalidState),
        (HoldState::Refunded, LifecycleError::AlreadyCaptured, LifecycleError::AlreadyRefunded),
    ];
    for (state, refused, unrefunded) in cases {
        let mut hold = hold_of("10");
        hold.state = state;
        assert_eq!(hold.capture(at(2)), Err(refused));
        assert_eq!(hold.release(at(2)), Err(refused));
        assert_eq!(hold.checked_refund(parsed("1"), at(2)), Some(Err(unrefunded)));
        assert_eq!(hold.state, state);
    }
}

#[test]
fn refunds_are_counted() {
    let mut hold = captured_hold_of("100.00");
    let receipt = hold.refund(parsed("30.5"), at(3)).unwrap();
    assert_eq!(receipt.state, HoldState::PartiallyRefunded);
    assert_eq!(receipt.amount.parts(), (305, 0, 0, false, 1));
    assert_eq!(hold.refunded_amount, parsed("30.50"));
    let before = hold.clone();
    assert_eq!(hold.refund(parsed("69.51"), at(4)), Err(LifecycleError::RefundExceedsCaptured));
    assert_eq!(hold.refund(parsed("0"), at(4)), Err(LifecycleError::InvalidAmount));
    assert_eq!(hold.refund(parsed("-5"), at(4)), Err(LifecycleError::InvalidAmount));
    assert_eq!(hold, before);
    hold.refund(parsed("69.500"), at(5)).unwrap();
    assert_eq!(hold.state, HoldState::Refunded);
    assert_eq!(hold.refunded_amount, hold.captured_amount);
    assert_eq!(hold.updated_at, at(5));
    assert_eq!(hold.refund(parsed("1"), at(6)), Err(LifecycleError::AlreadyRefunded));
}

#[test]
fn refunds_need_a_capture() {
    let mut hold = hold_of("10");
    assert_eq!(hold.refund(parsed("1"), at(2)), Err(LifecycleError::InvalidState));
    assert_eq!(hold.refund(parsed("0"), at(2)), Err(LifecycleError::InvalidAmount));
}

#[test]
fn amounts_beyond_the_range_have_no_outcome() {
    let mut hold = captured_hold_of("79228162514264337593543950335");
    hold.refunded_amount = parsed("-79228162514264337593543950335");
    let before = hold.clone();
    assert_eq!(hold.checked_refund(parsed("1"), at(3)), None);
    assert_eq!(hold, before);
    assert_eq!(hold.checked_refund(parsed("0"), at(3)), Some(Err(LifecycleError::InvalidAmount)));
    assert!(matches!(captured_hold_of("5").checked_refund(parsed("5"), at(3)), Some(Ok(_))));
}

#[test]
fn rounding_is_that_of_decimals() {
    let mut hold = captured_hold_of("79228162514264337593543950333");
    hold.refund(parsed("1.5"), at(3)).unwrap();
    hold.refund(parsed("79228162514264337593543950332"), at(4)).unwrap();
    assert_eq!(hold.refunded_amount, parsed("79228162514264337593543950334"));
    assert_eq!(hold.state, HoldState::PartiallyRefunded);
}

#[test]
fn refunds_settle_against_given_results() {
    let mut hold = captured_hold_of("10");
    assert_eq!(hold.settle_refund(parsed("3"), None, Some(parsed("3")), at(3)), None);
    assert_eq!(hold.settle_refund(parsed("3"), Some(parsed("10")), None, at(3)), None);
    assert_eq!(
        hold.settle_refund(parsed("3"), Some(parsed("2.99")), None, at(3)),
        Some(Err(LifecycleError::RefundExceedsCaptured))
    );
    let receipt = hold.settle_refund(parsed("3"), Some(parsed("3")), Some(parsed("10.0")), at(3)).unwrap().unwrap();
    assert_eq!(receipt.state, HoldState::Refunded);
    assert_eq!(hold.refunded_amount.parts(), (100, 0, 0, false, 1));
}

#[test]
fn receipts_show_the_hold() {
    let hold = hold_of("10");
    let receipt = hold.receipt(parsed("4.20"), true);
    assert_eq!(receipt.external_reference, "NVH-0198b5c2-77f0-7abc-9def-0123456789ab");
    assert_eq!(receipt.state, HoldState::Authorized);
    assert_eq!(receipt.amount.parts(), (420, 0, 0, false, 2));
    assert!(receipt.replayed);
    assert_eq!(receipt.clone(), receipt);
}

#[test]
fn idempotency_keys_are_trimmed_and_required() {
    let prior = IdempotencyRecord { key: "k".into(), operation: "refund".into(), fingerprint: "f".into() };
    assert_eq!(validate_idempotency("  ", "refund", "f", Some(&prior)), Err(LifecycleError::MissingIdempotencyKey));
    assert_eq!(validate_idempotency(" k\n", "refund", "f", Some(&prior)), Ok(true));
    assert_eq!(validate_idempotency("other", "refund", "f", Some(&prior)), Ok(false));
    assert_eq!(validate_idempotency("k", "refund", "f", None), Ok(false));
}

#[test]
fn errors_explain_themselves() {
    let cases = [
        (LifecycleError::MissingTenant, "tenant is required"),
        (LifecycleError::MissingBookingReference, "booking reference is required"),
        (LifecycleError::MissingIdempotencyKey, "idempotency key is required"),
        (LifecycleError::InvalidAmount, "amount must be positive"),
        (LifecycleError::InvalidCurrency, "currency must be a three-letter ISO code"),
        (LifecycleError::AlreadyCaptured, "payment hold has already been captured"),
        (LifecycleError::AlreadyReleased, "payment hold has already been released"),
        (LifecycleError::AlreadyRefunded, "payment hold has already been fully refunded"),
        (LifecycleError::Declined, "payment authorization was declined"),
        (LifecycleError::Expired, "payment authorization has expired"),
        (LifecycleError::RefundExceedsCaptured, "refund exceeds captured balance"),
        (LifecycleError::InvalidState, "operation is not valid in the current payment state"),
        (
            LifecycleError::IdempotencyConflict,
            "idempotency key was reused with a different operation or payload",
        ),
    ];
    for (e, message) in cases {
        assert_eq!(e.message(), message);
    }
}

#[test]
fn decimals_compare_as_numbers() {
    assert_eq!(parsed("10.0"), parsed("10.000"));
    assert_ne!(parsed("10.0"), parsed("10.001"));
    assert_eq!(Decimal::from_parts(0, 0, 0, true, 3), Decimal::zero());
    assert_eq!(Decimal::from_parts(0, 0, 0, true, 3).parts(), (0, 0, 0, false, 3));
    assert_eq!(parsed("-79228162514264337593543950335").parts(), (u32::MAX, u32::MAX, u32::MAX, true, 0));
}

#[test]
fn references_follow_identifiers() {
    let open = |id: u128| {
        BookingPaymentHold::authorize_with_id(id, "tenant-a", "booking-1", decimal(1000, 2), "USD", now()).unwrap()
    };
    let first = open(0x0198_b5c2_77f0_7abc_9def_0123_4567_89ab);
    let second = open(0x0198_b5c2_77f0_7abc_9def_0123_4567_89ac);
    assert_eq!(first.external_reference, "NVH-0198b5c2-77f0-7abc-9def-0123456789ab");
    assert_eq!(second.external_reference, "NVH-0198b5c2-77f0-7abc-9def-0123456789ac");
}

#[test]
fn refunds_in_finer_units_add_up() {
    let mut hold = captured_hold_of("10");
    for (amount, refunded) in [("2.5", "2.5"), ("0.125", "2.625"), ("7.374", "9.999")] {
        hold.refund(parsed(amount), now()).unwrap();
        assert_eq!(hold.refunded_amount, parsed(refunded));
        assert_eq!(hold.state, HoldState::PartiallyRefunded);
    }
    assert_eq!(hold.refund(parsed("0.0011"), now()), Err(LifecycleError::RefundExceedsCaptured));
    hold.refund(parsed("0.001"), now()).unwrap();
    assert_eq!(hold.state, HoldState::Refunded);
    assert_eq!(hold.refunded_amount, hold.captured_amount);
}

#[test]
fn captured_holds_stay_captured_through_refunds() {
    let mut hold = captured_hold_of("10");
    for amount in ["4", "20", "-1", "6", "1"] {
        let _ = hold.refund(parsed(amount), now());
        assert_eq!(hold.capture(now()), Err(LifecycleError::AlreadyCaptured));
        assert_eq!(hold.release(now()), Err(LifecycleError::AlreadyCaptured));
        assert_eq!(hold.captured_amount, parsed("10"));
    }
    assert_eq!(hold.state, HoldState::Refunded);
}

#[test]
fn released_holds_stay_released_through_attempts() {
    let mut hold = hold_of("10");
    hold.release(now()).unwrap();
    let released = hold.clone();
    for _ in 0..3 {
        assert_eq!(hold.capture(at(9)), Err(LifecycleError::AlreadyReleased));
        assert_eq!(hold.refund(parsed("1"), at(9)), Err(LifecycleError::InvalidState));
        assert_eq!(hold.release(at(9)), Err(LifecycleError::AlreadyReleased));
    }
    assert_eq!(hold, released);
}

#[test]
fn refunds_go_by_the_amounts_alone() {
    let mut hold = captured_hold_of("10");
    hold.currency = "usd".into();
    hold.tenant_id = " ".into();
    assert!(matches!(hold.checked_refund(parsed("2.5"), now()), Some(Ok(_))));
    assert_eq!(hold.refunded_amount, parsed("2.5"));
    assert_eq!(
        hold.checked_refund(parsed("7.51"), now()),
        Some(Err(LifecycleError::RefundExceedsCaptured))
    );
}
