//! The operations that callers ask for, and the fingerprints that tell one request
//! from another.

use vstd::prelude::*;
use vstd::string::*;

use crate::bookings_contract::{
    carried_out, currency_code, keeps_the_books, BookingPaymentHold, HoldModel, HoldState,
    LifecycleError, MutationReceipt,
};
use crate::clock::Timestamp;
use crate::decimal;
use crate::decimal::{optional, Decimal, DecimalModel};
use crate::laws::is_accepted_refund;
use crate::text;

verus! {

/// A request to open a hold.
#[derive(Debug, PartialEq)]
pub struct AuthorizeRequest {
    pub booking_reference: String,
    pub amount: Decimal,
    pub currency: String,
}

/// A request to open a hold, with its texts as character sequences.
pub struct AuthorizeModel {
    pub booking_reference: Seq<char>,
    pub amount: DecimalModel,
    pub currency: Seq<char>,
}

impl View for AuthorizeRequest {
    type V = AuthorizeModel;

    open spec fn view(&self) -> AuthorizeModel {
        AuthorizeModel {
            booking_reference: self.booking_reference@,
            amount: self.amount@,
            currency: self.currency@,
        }
    }
}

/// What identifies a request to open a hold: the trimmed booking reference, the
/// amount and the currency code, separated by bars.
pub open spec fn fingerprint_of_authorize(request: AuthorizeModel) -> Seq<char> {
    text::trimmed(request.booking_reference) + "|"@ + request.amount.text() + "|"@ + currency_code(
        request.currency,
    )
}

/// What identifies a request on a hold: its reference and, for a refund, a bar and
/// the amount.
pub open spec fn fingerprint_of_mutation(
    reference: Seq<char>,
    refund_amount: Option<DecimalModel>,
) -> Seq<char> {
    match refund_amount {
        Some(amount) => reference + "|"@ + amount.text(),
        None => reference,
    }
}

/// What identifies a request to open a hold.
pub fn authorize_fingerprint(request: &AuthorizeRequest) -> (r: String)
    ensures
        r@ == fingerprint_of_authorize(request@),
{
    proof {
        use_type_invariant(&request.amount);
    }
    let mut r = request.booking_reference.as_str().trim().to_owned();
    r.append("|");
    r.append(request.amount.to_text().as_str());
    r.append("|");
    r.append(request.currency.as_str().trim().to_ascii_uppercase().as_str());
    r
}

/// What identifies a request on a hold.
pub fn mutation_fingerprint(reference: &str, refund_amount: Option<Decimal>) -> (r: String)
    ensures
        r@ == fingerprint_of_mutation(reference@, optional(refund_amount)),
{
    let mut r = reference.to_owned();
    if let Some(amount) = refund_amount {
        proof {
            use_type_invariant(&amount);
        }
        r.append("|");
        r.append(amount.to_text().as_str());
    }
    r
}

/// Where two texts agree, and each ends in a part without bars after a bar, the parts
/// before and after that bar agree.
proof fn lemma_last_bar(a: Seq<char>, x: Seq<char>, b: Seq<char>, y: Seq<char>)
    requires
        a + "|"@ + x == b + "|"@ + y,
        !x.contains('|'),
        !y.contains('|'),
    ensures
        a == b,
        x == y,
{
    reveal_strlit("|");
    let s = a + "|"@ + x;
    let t = b + "|"@ + y;
    assert("|"@.len() == 1 && "|"@[0] == '|');
    assert(s.len() == a.len() + 1 + x.len());
    assert(t.len() == b.len() + 1 + y.len());
    assert(s[a.len() as int] == '|');
    assert(t[b.len() as int] == '|');
    if a.len() < b.len() {
        let i: int = b.len() - a.len() - 1;
        assert(s[b.len() as int] == x[i]);
    } else if b.len() < a.len() {
        let i: int = a.len() - b.len() - 1;
        assert(t[a.len() as int] == y[i]);
    }
    assert(a =~= s.take(a.len() as int));
    assert(b =~= t.take(b.len() as int));
    assert(x =~= s.skip(a.len() as int + 1));
    assert(y =~= t.skip(b.len() as int + 1));
}

/// Requests on holds that have the same fingerprint are on the same hold and for the
/// same amount, as long as both name an amount or neither does.
pub proof fn mutation_fingerprints_tell_requests_apart(
    reference: Seq<char>,
    amount: Option<DecimalModel>,
    other_reference: Seq<char>,
    other_amount: Option<DecimalModel>,
)
    requires
        amount is Some <==> other_amount is Some,
        fingerprint_of_mutation(reference, amount) == fingerprint_of_mutation(
            other_reference,
            other_amount,
        ),
    ensures
        reference == other_reference,
        amount == other_amount,
{
    if amount is Some {
        let a = amount->0;
        let b = other_amount->0;
        decimal::texts_hold_digits_points_and_signs(a);
        decimal::texts_hold_digits_points_and_signs(b);
        lemma_last_bar(reference, a.text(), other_reference, b.text());
        decimal::text_determines_decimal(a, b);
    }
}

/// Requests to open a hold have the same fingerprint where they are for the same
/// booking, amount and currency, whatever the white space around the booking reference
/// and the currency, and whatever the case of the currency.
pub proof fn authorize_fingerprints_see_past_the_writing(a: AuthorizeModel, b: AuthorizeModel)
    requires
        text::trimmed(a.booking_reference) == text::trimmed(b.booking_reference),
        a.amount == b.amount,
        currency_code(a.currency) == currency_code(b.currency),
    ensures
        fingerprint_of_authorize(a) == fingerprint_of_authorize(b),
{
}

/// Requests to open a hold that have the same fingerprint are for the same booking,
/// amount and currency, as long as the currencies that they name hold no bar.
pub proof fn authorize_fingerprints_tell_requests_apart(a: AuthorizeModel, b: AuthorizeModel)
    requires
        !currency_code(a.currency).contains('|'),
        !currency_code(b.currency).contains('|'),
        fingerprint_of_authorize(a) == fingerprint_of_authorize(b),
    ensures
        text::trimmed(a.booking_reference) == text::trimmed(b.booking_reference),
        a.amount == b.amount,
        currency_code(a.currency) == currency_code(b.currency),
{
    let s = text::trimmed(a.booking_reference);
    let t = text::trimmed(b.booking_reference);
    lemma_last_bar(
        s + "|"@ + a.amount.text(),
        currency_code(a.currency),
        t + "|"@ + b.amount.text(),
        currency_code(b.currency),
    );
    decimal::texts_hold_digits_points_and_signs(a.amount);
    decimal::texts_hold_digits_points_and_signs(b.amount);
    lemma_last_bar(s, a.amount.text(), t, b.amount.text());
    decimal::text_determines_decimal(a.amount, b.amount);
}

/// What an operation makes of a hold. An operation of another name is refused, and so
/// is a refund without an amount. There is no outcome where the amounts of a refund
/// leave the range of decimals.
pub open spec fn operation_outcome(
    hold: HoldModel,
    operation: Seq<char>,
    refund_amount: Option<DecimalModel>,
    now: Timestamp,
) -> Option<Result<HoldModel, LifecycleError>> {
    if operation == "capture"@ {
        Some(hold.capture(now))
    } else if operation == "release"@ {
        Some(hold.release(now))
    } else if operation == "refund"@ {
        match refund_amount {
            Some(amount) => hold.refund(amount, now),
            None => Some(Err(LifecycleError::InvalidAmount)),
        }
    } else {
        Some(Err(LifecycleError::InvalidState))
    }
}

/// The amount that the receipt of an operation shows: what is refunded, or the whole
/// amount of the hold.
pub open spec fn operation_amount(
    hold: HoldModel,
    operation: Seq<char>,
    refund_amount: Option<DecimalModel>,
) -> DecimalModel {
    if operation == "refund"@ && refund_amount is Some {
        refund_amount->0
    } else {
        hold.amount
    }
}

/// Performs an operation on a hold. Returns nothing, and changes nothing, where the
/// amounts of a refund leave the range of decimals.
pub fn apply_operation(
    hold: &mut BookingPaymentHold,
    operation: &str,
    refund_amount: Option<Decimal>,
    now: Timestamp,
) -> (r: Option<Result<MutationReceipt, LifecycleError>>)
    ensures
        match operation_outcome(old(hold)@, operation@, optional(refund_amount), now) {
            Some(outcome) => {
                &&& r is Some
                &&& carried_out(
                    outcome,
                    operation_amount(old(hold)@, operation@, optional(refund_amount)),
                    *old(hold),
                    *final(hold),
                    r->0,
                )
            },
            None => r is None && *final(hold) == *old(hold),
        },
        operation@ == "refund"@ && refund_amount is Some ==> keeps_the_books(
            old(hold)@,
            refund_amount->0@,
            final(hold)@,
            r,
        ),
        operation@ == "refund"@ && refund_amount is Some && r is Some && r->0 is Ok
            ==> is_accepted_refund(old(hold)@, refund_amount->0@, final(hold)@),
        operation@ != "refund"@ && old(hold)@.valid() ==> final(hold)@.valid(),
        r is Some && r->0 is Ok ==> {
            let receipt = r->0->Ok_0;
            &&& operation@ == "capture"@ || operation@ == "release"@ || operation@ == "refund"@
            &&& operation@ == "refund"@ ==> refund_amount is Some && receipt.amount
                == refund_amount->0
            &&& operation@ != "refund"@ ==> receipt.amount == old(hold).amount
            &&& receipt.external_reference@ == old(hold).external_reference@
            &&& receipt.state == final(hold).state
            &&& !receipt.replayed
            &&& final(hold).updated_at == now
        },
        (operation@ == "capture"@ || operation@ == "release"@) ==> {
            &&& r is Some
            &&& r->0 is Ok <==> old(hold).state == HoldState::Authorized
        },
        !(r is Some && r->0 is Ok) ==> *final(hold) == *old(hold),
        final(hold).id == old(hold).id,
        final(hold).tenant_id == old(hold).tenant_id,
        final(hold).external_reference == old(hold).external_reference,
        final(hold).booking_reference == old(hold).booking_reference,
        final(hold).amount == old(hold).amount,
        final(hold).currency == old(hold).currency,
        final(hold).created_at == old(hold).created_at,
{
    proof {
        reveal_strlit("capture");
        reveal_strlit("release");
        reveal_strlit("refund");
        assert("refund"@.len() == 6);
        assert("capture"@.len() == 7 && "release"@.len() == 7);
    }
    if *operation == *"capture" {
        Some(hold.capture(now))
    } else if *operation == *"release" {
        Some(hold.release(now))
    } else if *operation == *"refund" {
        match refund_amount {
            Some(amount) => hold.checked_refund(amount, now),
            None => Some(Err(LifecycleError::InvalidAmount)),
        }
    } else {
        Some(Err(LifecycleError::InvalidState))
    }
}

/// The type of the event that reports an operation, given the state that it left the
/// hold in.
pub open spec fn event_type_of(operation: Seq<char>, state: HoldState) -> Seq<char> {
    if operation == "capture"@ {
        "nvuto.payments.booking.hold.captured.v1"@
    } else if operation == "release"@ {
        "nvuto.payments.booking.hold.released.v1"@
    } else if operation == "refund"@ {
        if state == HoldState::Refunded {
            "nvuto.payments.booking.payment.refunded.v1"@
        } else {
            "nvuto.payments.booking.payment.partially_refunded.v1"@
        }
    } else {
        "nvuto.payments.booking.payment.changed.v1"@
    }
}

/// The type of the event that reports an operation.
pub fn event_type(operation: &str, state: HoldState) -> (r: &'static str)
    ensures
        r@ == event_type_of(operation@, state),
{
    if *operation == *"capture" {
        "nvuto.payments.booking.hold.captured.v1"
    } else if *operation == *"release" {
        "nvuto.payments.booking.hold.released.v1"
    } else if *operation == *"refund" {
        if state == HoldState::Refunded {
            "nvuto.payments.booking.payment.refunded.v1"
        } else {
            "nvuto.payments.booking.payment.partially_refunded.v1"
        }
    } else {
        "nvuto.payments.booking.payment.changed.v1"
    }
}

} // verus!
