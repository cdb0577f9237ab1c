//! What each operation on a hold does, told by the fields of what goes in and comes out.

use vstd::prelude::*;

use crate::bookings_contract::{
    authorize_refusal, carried_out, currency_code, external_reference_of, idempotency_outcome,
    keeps_the_books, BookingPaymentHold, HoldModel, HoldState, IdempotencyRecord, LifecycleError,
    MutationReceipt, RecordModel,
};
use crate::clock::Timestamp;
use crate::decimal::{decimal_difference, decimal_sum, is_decimal, DecimalModel};
use crate::decimal_laws;
use crate::identifier::uuid_text;
use crate::text;

verus! {

/// An authorization is accepted exactly where the tenant and the booking reference hold
/// something else than white space, the amount is positive, and the trimmed currency is
/// three letters, from `A` to `Z` or from `a` to `z`, ends included.
pub proof fn authorizations_are_accepted_by_form(
    tenant_id: Seq<char>,
    booking_reference: Seq<char>,
    amount: DecimalModel,
    currency: Seq<char>,
)
    ensures
        authorize_refusal(tenant_id, booking_reference, amount, currency) is None <==> {
            &&& !text::is_blank(tenant_id)
            &&& !text::is_blank(booking_reference)
            &&& 0 < amount.value()
            &&& text::trimmed(currency).len() == 3
            &&& forall|i: int|
                0 <= i < 3 ==> {
                    ||| 65 <= #[trigger] text::trimmed(currency)[i] as u32 <= 90
                    ||| 97 <= text::trimmed(currency)[i] as u32 <= 122
                }
        },
{
    text::blank_texts_trim_to_nothing(tenant_id);
    text::blank_texts_trim_to_nothing(booking_reference);
    let given = text::trimmed(currency);
    let code = currency_code(currency);
    assert(code.len() == given.len());
    if given.len() == 3 {
        assert forall|i: int| 0 <= i < 3 implies (text::is_ascii_letter(#[trigger] code[i]) <==> {
            ||| 65 <= given[i] as u32 <= 90
            ||| 97 <= given[i] as u32 <= 122
        }) by {
            text::cases_keep_places(given, i);
            text::letters_by_code_point(code[i]);
        }
        assert(code[0] == code[0] && code[1] == code[1] && code[2] == code[2]);
        assert(given[0] == given[0] && given[1] == given[1] && given[2] == given[2]);
    }
}

/// An authorization that is not accepted is refused for the first thing that is wrong
/// with it: the tenant, the booking reference, the amount, or the currency.
pub proof fn authorizations_are_refused_in_order(
    tenant_id: Seq<char>,
    booking_reference: Seq<char>,
    amount: DecimalModel,
    currency: Seq<char>,
)
    ensures
        ({
            let refused = authorize_refusal(tenant_id, booking_reference, amount, currency);
            &&& refused == Some(LifecycleError::MissingTenant) <==> text::is_blank(tenant_id)
            &&& refused == Some(LifecycleError::MissingBookingReference) <==> !text::is_blank(
                tenant_id,
            ) && text::is_blank(booking_reference)
            &&& refused == Some(LifecycleError::InvalidAmount) <==> !text::is_blank(tenant_id)
                && !text::is_blank(booking_reference) && amount.value() <= 0
            &&& refused is Some && !text::is_blank(tenant_id) && !text::is_blank(booking_reference)
                && 0 < amount.value() ==> refused == Some(LifecycleError::InvalidCurrency)
        }),
{
    text::blank_texts_trim_to_nothing(tenant_id);
    text::blank_texts_trim_to_nothing(booking_reference);
}

/// How the texts of an authorization are padded, and whether its currency is written in
/// small or capital letters, makes no difference.
pub proof fn authorizations_see_past_the_writing(
    tenant_id: Seq<char>,
    booking_reference: Seq<char>,
    currency: Seq<char>,
    other_tenant: Seq<char>,
    other_booking: Seq<char>,
    other_currency: Seq<char>,
    amount: DecimalModel,
    id: u128,
    now: Timestamp,
)
    requires
        text::trimmed(tenant_id) == text::trimmed(other_tenant),
        text::trimmed(booking_reference) == text::trimmed(other_booking),
        text::ascii_upper(text::trimmed(currency)) == text::ascii_upper(
            text::trimmed(other_currency),
        ),
    ensures
        authorize_refusal(tenant_id, booking_reference, amount, currency) == authorize_refusal(
            other_tenant,
            other_booking,
            amount,
            other_currency,
        ),
        HoldModel::authorized(id, tenant_id, booking_reference, amount, currency, now)
            == HoldModel::authorized(id, other_tenant, other_booking, amount, other_currency, now),
{
}

/// A hold that is opened carries what was asked for: the tenant and the booking reference
/// trimmed, the amount as it is, and the letters of the currency as capitals. Nothing of
/// it is captured or refunded, and it is dated to its opening.
pub proof fn opened_holds_carry_the_request(
    id: u128,
    tenant_id: Seq<char>,
    booking_reference: Seq<char>,
    amount: DecimalModel,
    currency: Seq<char>,
    now: Timestamp,
)
    ensures
        ({
            let hold = HoldModel::authorized(
                id,
                tenant_id,
                booking_reference,
                amount,
                currency,
                now,
            );
            let given = text::trimmed(currency);
            &&& hold.id == id
            &&& hold.tenant_id == text::trimmed(tenant_id)
            &&& hold.booking_reference == text::trimmed(booking_reference)
            &&& hold.external_reference.len() == 40
            &&& hold.external_reference[0] == 'N'
            &&& hold.external_reference[1] == 'V'
            &&& hold.external_reference[2] == 'H'
            &&& hold.external_reference[3] == '-'
            &&& hold.external_reference.skip(4) == uuid_text(id)
            &&& hold.amount == amount
            &&& hold.currency.len() == given.len()
            &&& forall|i: int|
                0 <= i < given.len() ==> {
                    &&& 97 <= given[i] as u32 <= 122 ==> #[trigger] hold.currency[i] as u32 + 32
                        == given[i] as u32
                    &&& !(97 <= given[i] as u32 <= 122) ==> hold.currency[i] == given[i]
                }
            &&& hold.captured_amount.value() == 0
            &&& hold.captured_amount.scale == 0
            &&& hold.refunded_amount.value() == 0
            &&& hold.refunded_amount.scale == 0
            &&& hold.state == HoldState::Authorized
            &&& hold.created_at == now
            &&& hold.updated_at == now
        }),
{
    decimal_laws::zero_is_nothing();
    reveal_strlit("NVH-");
    assert(external_reference_of(id).len() == 40);
    assert(external_reference_of(id).skip(4) =~= uuid_text(id));
    let given = text::trimmed(currency);
    assert forall|i: int| 0 <= i < given.len() implies {
        &&& 97 <= given[i] as u32 <= 122 ==> #[trigger] currency_code(currency)[i] as u32 + 32
            == given[i] as u32
        &&& !(97 <= given[i] as u32 <= 122) ==> currency_code(currency)[i] == given[i]
    } by {
        text::cases_keep_places(given, i);
    }
}

/// A receipt shows the amount that it is made out for, whatever was captured or refunded
/// before, and the reference and the state of the hold.
pub proof fn receipts_show_what_they_are_for(hold: HoldModel, amount: DecimalModel, replayed: bool)
    ensures
        hold.receipt(amount, replayed).amount == amount,
        hold.receipt(amount, replayed).external_reference == hold.external_reference,
        hold.receipt(amount, replayed).state == hold.state,
        hold.receipt(amount, replayed).replayed == replayed,
{
}

/// A hold can be captured exactly where it is authorized, at whatever time and for
/// whatever amount. The capture takes the whole amount, and changes nothing else but the
/// state and the date.
pub proof fn captures_take_authorized_holds(hold: HoldModel, now: Timestamp)
    ensures
        hold.capture(now) is Ok <==> hold.state == HoldState::Authorized,
        hold.capture(now) is Ok ==> {
            let next = hold.capture(now)->Ok_0;
            &&& next.captured_amount == hold.amount
            &&& next.state == HoldState::Captured
            &&& next.updated_at == now
            &&& next.refunded_amount == hold.refunded_amount
            &&& next.id == hold.id
            &&& next.tenant_id == hold.tenant_id
            &&& next.external_reference == hold.external_reference
            &&& next.booking_reference == hold.booking_reference
            &&& next.amount == hold.amount
            &&& next.currency == hold.currency
            &&& next.created_at == hold.created_at
        },
        hold.state == HoldState::Captured || hold.state == HoldState::PartiallyRefunded
            || hold.state == HoldState::Refunded ==> hold.capture(now) == Err::<
            HoldModel,
            LifecycleError,
        >(LifecycleError::AlreadyCaptured),
        hold.state == HoldState::Released ==> hold.capture(now) == Err::<HoldModel, LifecycleError>(
            LifecycleError::AlreadyReleased,
        ),
        hold.state == HoldState::Declined ==> hold.capture(now) == Err::<HoldModel, LifecycleError>(
            LifecycleError::Declined,
        ),
        hold.state == HoldState::Expired ==> hold.capture(now) == Err::<HoldModel, LifecycleError>(
            LifecycleError::Expired,
        ),
{
}

/// A hold can be released exactly where it is authorized, at whatever time and for
/// whatever amount. The release changes nothing but the state and the date.
pub proof fn releases_take_authorized_holds(hold: HoldModel, now: Timestamp)
    ensures
        hold.release(now) is Ok <==> hold.state == HoldState::Authorized,
        hold.release(now) is Ok ==> {
            let next = hold.release(now)->Ok_0;
            &&& next.state == HoldState::Released
            &&& next.updated_at == now
            &&& next.captured_amount == hold.captured_amount
            &&& next.refunded_amount == hold.refunded_amount
            &&& next.id == hold.id
            &&& next.tenant_id == hold.tenant_id
            &&& next.external_reference == hold.external_reference
            &&& next.booking_reference == hold.booking_reference
            &&& next.amount == hold.amount
            &&& next.currency == hold.currency
            &&& next.created_at == hold.created_at
        },
        hold.state == HoldState::Captured || hold.state == HoldState::PartiallyRefunded
            || hold.state == HoldState::Refunded ==> hold.release(now) == Err::<
            HoldModel,
            LifecycleError,
        >(LifecycleError::AlreadyCaptured),
        hold.state == HoldState::Released ==> hold.release(now) == Err::<HoldModel, LifecycleError>(
            LifecycleError::AlreadyReleased,
        ),
        hold.state == HoldState::Declined ==> hold.release(now) == Err::<HoldModel, LifecycleError>(
            LifecycleError::Declined,
        ),
        hold.state == HoldState::Expired ==> hold.release(now) == Err::<HoldModel, LifecycleError>(
            LifecycleError::Expired,
        ),
{
}

/// A refund is accepted exactly where the amount is positive, the hold is captured and
/// not yet refunded in full, and the amount is no more than what may still be refunded.
/// It changes nothing but what is refunded, the state and the date, and the hold is
/// refunded in full exactly where what is refunded is worth what was captured. What is
/// not accepted is refused for the first thing that is wrong: the amount, the state, or
/// the balance.
pub proof fn refunds_take_captured_holds(
    hold: HoldModel,
    amount: DecimalModel,
    refundable: DecimalModel,
    total: DecimalModel,
    now: Timestamp,
)
    ensures
        ({
            let r = hold.refund_outcome(amount, Some(refundable), Some(total), now);
            let open = hold.state == HoldState::Captured || hold.state
                == HoldState::PartiallyRefunded;
            let next = r->0->Ok_0;
            &&& r is Some
            &&& r->0 is Ok <==> 0 < amount.value() && open && amount.value() <= refundable.value()
            &&& r->0 is Ok ==> {
                &&& next.refunded_amount == total
                &&& next.state == HoldState::Refunded || next.state == HoldState::PartiallyRefunded
                &&& next.state == HoldState::Refunded <==> total.value()
                    == hold.captured_amount.value()
                &&& next.updated_at == now
                &&& next.captured_amount == hold.captured_amount
                &&& next.id == hold.id
                &&& next.tenant_id == hold.tenant_id
                &&& next.external_reference == hold.external_reference
                &&& next.booking_reference == hold.booking_reference
                &&& next.amount == hold.amount
                &&& next.currency == hold.currency
                &&& next.created_at == hold.created_at
            }
            &&& amount.value() <= 0 <==> r->0 == Err::<HoldModel, LifecycleError>(
                LifecycleError::InvalidAmount,
            )
            &&& 0 < amount.value() ==> {
                &&& hold.state == HoldState::Refunded <==> r->0 == Err::<HoldModel, LifecycleError>(
                    LifecycleError::AlreadyRefunded,
                )
                &&& hold.state == HoldState::Declined <==> r->0 == Err::<HoldModel, LifecycleError>(
                    LifecycleError::Declined,
                )
                &&& hold.state == HoldState::Expired <==> r->0 == Err::<HoldModel, LifecycleError>(
                    LifecycleError::Expired,
                )
                &&& hold.state == HoldState::Authorized || hold.state == HoldState::Released
                    <==> r->0 == Err::<HoldModel, LifecycleError>(LifecycleError::InvalidState)
                &&& open && amount.value() > refundable.value() <==> r->0 == Err::<
                    HoldModel,
                    LifecycleError,
                >(LifecycleError::RefundExceedsCaptured)
            }
        }),
{
}

/// A refund has no outcome only where it comes to a sum or a difference that is out of
/// range: what is refused before does not depend on them.
pub proof fn refunds_have_an_outcome_unless_out_of_range(
    hold: HoldModel,
    amount: DecimalModel,
    refundable: Option<DecimalModel>,
    total: Option<DecimalModel>,
    now: Timestamp,
)
    ensures
        hold.refund_outcome(amount, refundable, total, now) is None <==> {
            &&& 0 < amount.value()
            &&& hold.state == HoldState::Captured || hold.state == HoldState::PartiallyRefunded
            &&& refundable is None || (amount.value() <= refundable->0.value() && total is None)
        },
        amount.value() <= 0 ==> hold.refund_outcome(amount, refundable, total, now) == Some(
            Err::<HoldModel, LifecycleError>(LifecycleError::InvalidAmount),
        ),
        refundable is Some && 0 < amount.value() && amount.value() > refundable->0.value() && (
        hold.state == HoldState::Captured || hold.state == HoldState::PartiallyRefunded)
            ==> hold.refund_outcome(amount, refundable, total, now) == Some(
            Err::<HoldModel, LifecycleError>(LifecycleError::RefundExceedsCaptured),
        ),
{
}

/// What may still be refunded is what was captured less what was refunded, and what will
/// have been refunded is what was refunded and the amount.
pub proof fn refunds_reckon_with_the_books(hold: HoldModel, amount: DecimalModel, now: Timestamp)
    ensures
        hold.refund(amount, now) == hold.refund_outcome(
            amount,
            decimal_difference(hold.captured_amount, hold.refunded_amount),
            decimal_sum(hold.refunded_amount, amount),
            now,
        ),
{
}

/// When an operation is tried makes no difference to whether it is accepted, nor to what
/// it makes of the hold, but for the date.
pub proof fn outcomes_do_not_depend_on_the_time(
    hold: HoldModel,
    amount: DecimalModel,
    refundable: Option<DecimalModel>,
    total: Option<DecimalModel>,
    now: Timestamp,
    later: Timestamp,
)
    ensures
        hold.capture(later) == match hold.capture(now) {
            Ok(next) => Ok(HoldModel { updated_at: later, ..next }),
            Err(e) => Err(e),
        },
        hold.release(later) == match hold.release(now) {
            Ok(next) => Ok(HoldModel { updated_at: later, ..next }),
            Err(e) => Err(e),
        },
        hold.refund_outcome(amount, refundable, total, later) == match hold.refund_outcome(
            amount,
            refundable,
            total,
            now,
        ) {
            Some(Ok(next)) => Some(Ok(HoldModel { updated_at: later, ..next })),
            Some(Err(e)) => Some(Err(e)),
            None => None,
        },
{
}

/// A request whose key is blank is refused. One under a key of its own is new, whatever
/// is on record under another key. One under the key on record repeats it where operation
/// and fingerprint are the same, and contradicts it where one of them is not.
pub proof fn requests_are_told_by_their_keys(
    key: Seq<char>,
    operation: Seq<char>,
    fingerprint: Seq<char>,
    record: RecordModel,
)
    ensures
        text::is_blank(key) ==> {
            &&& idempotency_outcome(key, operation, fingerprint, None) == Err::<
                bool,
                LifecycleError,
            >(LifecycleError::MissingIdempotencyKey)
            &&& idempotency_outcome(key, operation, fingerprint, Some(record)) == Err::<
                bool,
                LifecycleError,
            >(LifecycleError::MissingIdempotencyKey)
        },
        !text::is_blank(key) ==> {
            let r = idempotency_outcome(key, operation, fingerprint, Some(record));
            &&& idempotency_outcome(key, operation, fingerprint, None) == Ok::<
                bool,
                LifecycleError,
            >(false)
            &&& record.key != text::trimmed(key) <==> r == Ok::<bool, LifecycleError>(false)
            &&& record.key == text::trimmed(key) && record.operation == operation
                && record.fingerprint == fingerprint <==> r == Ok::<bool, LifecycleError>(true)
            &&& record.key == text::trimmed(key) && (record.operation != operation
                || record.fingerprint != fingerprint) <==> r == Err::<bool, LifecycleError>(
                LifecycleError::IdempotencyConflict,
            )
        },
{
    text::blank_texts_trim_to_nothing(key);
}

/// White space around a key makes no difference.
pub proof fn keys_are_matched_trimmed(
    key: Seq<char>,
    other_key: Seq<char>,
    operation: Seq<char>,
    fingerprint: Seq<char>,
    prior: Option<RecordModel>,
)
    requires
        text::trimmed(key) == text::trimmed(other_key),
    ensures
        idempotency_outcome(key, operation, fingerprint, prior) == idempotency_outcome(
            other_key,
            operation,
            fingerprint,
            prior,
        ),
{
}

/// An operation that is carried out leaves the hold that its outcome names, and returns a
/// receipt with the reference and state of that hold and with the operation's amount. One
/// that is refused leaves the hold as it was, and returns the error that its outcome names.
pub proof fn operations_do_what_their_outcome_says(
    outcome: Result<HoldModel, LifecycleError>,
    amount: DecimalModel,
    before: BookingPaymentHold,
    after: BookingPaymentHold,
    r: Result<MutationReceipt, LifecycleError>,
)
    requires
        carried_out(outcome, amount, before, after, r),
    ensures
        r is Ok <==> outcome is Ok,
        outcome is Ok ==> {
            &&& after@ == outcome->Ok_0
            &&& r->Ok_0.external_reference@ == outcome->Ok_0.external_reference
            &&& r->Ok_0.state == outcome->Ok_0.state
            &&& r->Ok_0.amount@ == amount
            &&& !r->Ok_0.replayed
        },
        outcome is Err ==> {
            &&& after == before
            &&& r->Err_0 == outcome->Err_0
        },
{
}

/// Books that are kept show this: a positive refund of no more than what is left goes
/// through, where no more is refunded than was captured, and is added exactly where the
/// sum is a decimal; a refund of more than is left is refused, where what is left is a
/// decimal.
pub proof fn kept_books_balance(
    before: HoldModel,
    amount: DecimalModel,
    after: HoldModel,
    r: Option<Result<MutationReceipt, LifecycleError>>,
)
    requires
        keeps_the_books(before, amount, after, r),
        before.state == HoldState::Captured || before.state == HoldState::PartiallyRefunded,
        0 <= before.refunded_amount.value() <= before.captured_amount.value(),
        0 < amount.value(),
    ensures
        before.refunded_amount.value() + amount.value() <= before.captured_amount.value() ==> {
            &&& r is Some
            &&& r->0 is Ok
            &&& before.refunded_amount.value() <= after.refunded_amount.value()
                <= before.captured_amount.value()
            &&& is_decimal(before.refunded_amount.value() + amount.value())
                ==> after.refunded_amount.value() == before.refunded_amount.value()
                + amount.value()
        },
        before.refunded_amount.value() + amount.value() > before.captured_amount.value()
            && is_decimal(
            before.captured_amount.value() - before.refunded_amount.value(),
        ) ==> r == Some(
            Err::<MutationReceipt, LifecycleError>(LifecycleError::RefundExceedsCaptured),
        ),
{
}

/// What is true of a valid hold: it is for a positive amount, nothing or all of it is
/// captured, as its state says, no more is refunded than was captured, and all of it
/// exactly where its state says so; its texts are trimmed and not empty, and its currency
/// is three capital letters.
pub proof fn valid_holds_are_in_order(hold: HoldModel)
    requires
        hold.valid(),
    ensures
        0 < hold.amount.value(),
        0 <= hold.refunded_amount.value() <= hold.captured_amount.value(),
        hold.captured_amount.value() == hold.amount.value() <==> hold.state == HoldState::Captured
            || hold.state == HoldState::PartiallyRefunded || hold.state == HoldState::Refunded,
        hold.captured_amount.value() == 0 <==> hold.state == HoldState::Authorized || hold.state
            == HoldState::Released || hold.state == HoldState::Declined || hold.state
            == HoldState::Expired,
        hold.refunded_amount.value() > 0 <==> hold.state == HoldState::PartiallyRefunded
            || hold.state == HoldState::Refunded,
        hold.state == HoldState::Refunded <==> 0 < hold.refunded_amount.value()
            == hold.captured_amount.value(),
        !text::is_blank(hold.tenant_id),
        text::trimmed(hold.tenant_id) == hold.tenant_id,
        !text::is_blank(hold.booking_reference),
        text::trimmed(hold.booking_reference) == hold.booking_reference,
        hold.currency.len() == 3,
        forall|i: int| 0 <= i < 3 ==> 65 <= #[trigger] hold.currency[i] as u32 <= 90,
        hold.external_reference == "NVH-"@ + uuid_text(hold.id),
{
    text::blank_texts_trim_to_nothing(hold.tenant_id);
    text::blank_texts_trim_to_nothing(hold.booking_reference);
    let code = hold.currency;
    assert forall|i: int| 0 <= i < 3 implies 65 <= #[trigger] code[i] as u32 <= 90 by {
        text::cases_keep_places(code, i);
        text::letters_by_code_point(code[i]);
        assert(text::ascii_upper(code)[i] == code[i]);
        assert(text::is_ascii_letter(code[i])) by {
            assert(i == 0 || i == 1 || i == 2);
        }
    }
}

/// The model of a hold shows each of its fields.
pub proof fn holds_are_seen_as_they_are(hold: BookingPaymentHold)
    ensures
        hold@.id == hold.id,
        hold@.tenant_id == hold.tenant_id@,
        hold@.external_reference == hold.external_reference@,
        hold@.booking_reference == hold.booking_reference@,
        hold@.amount == hold.amount@,
        hold@.currency == hold.currency@,
        hold@.captured_amount == hold.captured_amount@,
        hold@.refunded_amount == hold.refunded_amount@,
        hold@.state == hold.state,
        hold@.created_at == hold.created_at,
        hold@.updated_at == hold.updated_at,
{
}

/// The models of a receipt and of a record show each of their fields.
pub proof fn receipts_and_records_are_seen_as_they_are(
    receipt: MutationReceipt,
    record: IdempotencyRecord,
)
    ensures
        receipt@.external_reference == receipt.external_reference@,
        receipt@.state == receipt.state,
        receipt@.amount == receipt.amount@,
        receipt@.replayed == receipt.replayed,
        record@.key == record.key@,
        record@.fingerprint == record.fingerprint@,
        record@.operation == record.operation@,
{
}

} // verus!
