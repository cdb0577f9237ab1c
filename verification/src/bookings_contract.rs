//! The lifecycle of a booking's payment hold.
//!
//! A hold is authorized for an amount. An authorized hold is either captured, for
//! the whole amount, or released. What was captured can be refunded, at once or in
//! parts, until nothing of it is left.

use vstd::prelude::*;
use vstd::string::*;

use crate::clock::Timestamp;
use crate::decimal::{
    decimal_difference, decimal_sum, in_range, is_decimal, optional, rounding_keeps_decimals, Decimal,
    DecimalModel,
};
use crate::decimal_laws;
use crate::hold_laws;
use crate::identifier;
use crate::laws;
use crate::text;

verus! {

/// The version of the contract between this service and its callers.
pub const CONTRACT_VERSION: &'static str = "nvuto.payments.booking.v1";

/// Where a hold stands in its lifecycle.
#[derive(Debug, Clone, Copy, PartialEq, Eq, Structural)]
pub enum HoldState {
    Authorized,
    Captured,
    Released,
    PartiallyRefunded,
    Refunded,
    Declined,
    Expired,
}

/// Why a request on a hold is refused.
#[derive(Debug, Clone, Copy, PartialEq, Eq, Structural)]
pub enum LifecycleError {
    MissingTenant,
    MissingBookingReference,
    MissingIdempotencyKey,
    InvalidAmount,
    InvalidCurrency,
    AlreadyCaptured,
    AlreadyReleased,
    AlreadyRefunded,
    Declined,
    Expired,
    RefundExceedsCaptured,
    InvalidState,
    IdempotencyConflict,
}

/// The sentence that explains an error to a caller.
pub open spec fn error_message(e: LifecycleError) -> Seq<char> {
    match e {
        LifecycleError::MissingTenant => "tenant is required"@,
        LifecycleError::MissingBookingReference => "booking reference is required"@,
        LifecycleError::MissingIdempotencyKey => "idempotency key is required"@,
        LifecycleError::InvalidAmount => "amount must be positive"@,
        LifecycleError::InvalidCurrency => "currency must be a three-letter ISO code"@,
        LifecycleError::AlreadyCaptured => "payment hold has already been captured"@,
        LifecycleError::AlreadyReleased => "payment hold has already been released"@,
        LifecycleError::AlreadyRefunded => "payment hold has already been fully refunded"@,
        LifecycleError::Declined => "payment authorization was declined"@,
        LifecycleError::Expired => "payment authorization has expired"@,
        LifecycleError::RefundExceedsCaptured => "refund exceeds captured balance"@,
        LifecycleError::InvalidState => "operation is not valid in the current payment state"@,
        LifecycleError::IdempotencyConflict =>
            "idempotency key was reused with a different operation or payload"@,
    }
}

impl LifecycleError {
    /// The sentence that explains the error to a caller.
    pub fn message(&self) -> (r: String)
        ensures
            r@ == error_message(*self),
    {
        let sentence: &str = match self {
            LifecycleError::MissingTenant => "tenant is required",
            LifecycleError::MissingBookingReference => "booking reference is required",
            LifecycleError::MissingIdempotencyKey => "idempotency key is required",
            LifecycleError::InvalidAmount => "amount must be positive",
            LifecycleError::InvalidCurrency => "currency must be a three-letter ISO code",
            LifecycleError::AlreadyCaptured => "payment hold has already been captured",
            LifecycleError::AlreadyReleased => "payment hold has already been released",
            LifecycleError::AlreadyRefunded => "payment hold has already been fully refunded",
            LifecycleError::Declined => "payment authorization was declined",
            LifecycleError::Expired => "payment authorization has expired",
            LifecycleError::RefundExceedsCaptured => "refund exceeds captured balance",
            LifecycleError::InvalidState => "operation is not valid in the current payment state",
            LifecycleError::IdempotencyConflict =>
                "idempotency key was reused with a different operation or payload",
        };
        sentence.to_owned()
    }
}

/// A payment hold, with its texts as character sequences.
pub struct HoldModel {
    pub id: u128,
    pub tenant_id: Seq<char>,
    pub external_reference: Seq<char>,
    pub booking_reference: Seq<char>,
    pub amount: DecimalModel,
    pub currency: Seq<char>,
    pub captured_amount: DecimalModel,
    pub refunded_amount: DecimalModel,
    pub state: HoldState,
    pub created_at: Timestamp,
    pub updated_at: Timestamp,
}

/// A receipt, with its text as a character sequence.
pub struct ReceiptModel {
    pub external_reference: Seq<char>,
    pub state: HoldState,
    pub amount: DecimalModel,
    pub replayed: bool,
}

/// The currency that a caller names: trimmed, and in upper case.
pub open spec fn currency_code(currency: Seq<char>) -> Seq<char> {
    text::ascii_upper(text::trimmed(currency))
}

/// Whether a currency has the form of an ISO code: three letters.
pub open spec fn is_currency_code(code: Seq<char>) -> bool {
    &&& code.len() == 3
    &&& text::is_ascii_letter(code[0])
    &&& text::is_ascii_letter(code[1])
    &&& text::is_ascii_letter(code[2])
}

/// Why an authorization is refused, if it is. The tenant is looked at first, then
/// the booking reference, the amount and the currency.
pub open spec fn authorize_refusal(
    tenant_id: Seq<char>,
    booking_reference: Seq<char>,
    amount: DecimalModel,
    currency: Seq<char>,
) -> Option<LifecycleError> {
    if text::trimmed(tenant_id).len() == 0 {
        Some(LifecycleError::MissingTenant)
    } else if text::trimmed(booking_reference).len() == 0 {
        Some(LifecycleError::MissingBookingReference)
    } else if amount.value() <= 0 {
        Some(LifecycleError::InvalidAmount)
    } else if !is_currency_code(currency_code(currency)) {
        Some(LifecycleError::InvalidCurrency)
    } else {
        None
    }
}

/// The reference under which callers know the hold with this identifier.
pub open spec fn external_reference_of(id: u128) -> Seq<char> {
    "NVH-"@ + identifier::uuid_text(id)
}

/// Why a hold in this state cannot be captured, if it cannot.
pub open spec fn capture_refusal(state: HoldState) -> Option<LifecycleError> {
    match state {
        HoldState::Authorized => None,
        HoldState::Captured | HoldState::PartiallyRefunded | HoldState::Refunded => Some(
            LifecycleError::AlreadyCaptured,
        ),
        HoldState::Released => Some(LifecycleError::AlreadyReleased),
        HoldState::Declined => Some(LifecycleError::Declined),
        HoldState::Expired => Some(LifecycleError::Expired),
    }
}

/// Why a hold in this state cannot be released, if it cannot. The states that stop
/// a capture stop a release, for the same reasons.
pub open spec fn release_refusal(state: HoldState) -> Option<LifecycleError> {
    capture_refusal(state)
}

/// Why nothing can be refunded on a hold in this state, if nothing can.
pub open spec fn refund_refusal(state: HoldState) -> Option<LifecycleError> {
    match state {
        HoldState::Captured | HoldState::PartiallyRefunded => None,
        HoldState::Refunded => Some(LifecycleError::AlreadyRefunded),
        HoldState::Declined => Some(LifecycleError::Declined),
        HoldState::Expired => Some(LifecycleError::Expired),
        HoldState::Authorized | HoldState::Released => Some(LifecycleError::InvalidState),
    }
}

impl HoldModel {
    /// The hold that an accepted authorization opens.
    pub open spec fn authorized(
        id: u128,
        tenant_id: Seq<char>,
        booking_reference: Seq<char>,
        amount: DecimalModel,
        currency: Seq<char>,
        now: Timestamp,
    ) -> HoldModel {
        HoldModel {
            id,
            tenant_id: text::trimmed(tenant_id),
            external_reference: external_reference_of(id),
            booking_reference: text::trimmed(booking_reference),
            amount,
            currency: currency_code(currency),
            captured_amount: DecimalModel::zero(),
            refunded_amount: DecimalModel::zero(),
            state: HoldState::Authorized,
            created_at: now,
            updated_at: now,
        }
    }

    /// The hold after a capture, or why there is none.
    pub open spec fn capture(self, now: Timestamp) -> Result<HoldModel, LifecycleError> {
        match capture_refusal(self.state) {
            Some(e) => Err(e),
            None => Ok(
                HoldModel {
                    captured_amount: self.amount,
                    state: HoldState::Captured,
                    updated_at: now,
                    ..self
                },
            ),
        }
    }

    /// The hold after a release, or why there is none.
    pub open spec fn release(self, now: Timestamp) -> Result<HoldModel, LifecycleError> {
        match release_refusal(self.state) {
            Some(e) => Err(e),
            None => Ok(HoldModel { state: HoldState::Released, updated_at: now, ..self }),
        }
    }

    /// The hold after a refund that leaves `total` refunded.
    pub open spec fn refunded(self, total: DecimalModel, now: Timestamp) -> HoldModel {
        HoldModel {
            refunded_amount: total,
            state: if total.value() == self.captured_amount.value() {
                HoldState::Refunded
            } else {
                HoldState::PartiallyRefunded
            },
            updated_at: now,
            ..self
        }
    }

    /// The hold after a refund, or why there is none, where `refundable` is what
    /// may still be refunded and `total` is what will then have been refunded.
    /// There is no outcome where one of the two is needed and out of range.
    pub open spec fn refund_outcome(
        self,
        amount: DecimalModel,
        refundable: Option<DecimalModel>,
        total: Option<DecimalModel>,
        now: Timestamp,
    ) -> Option<Result<HoldModel, LifecycleError>> {
        if amount.value() <= 0 {
            Some(Err(LifecycleError::InvalidAmount))
        } else if refund_refusal(self.state) is Some {
            Some(Err(refund_refusal(self.state)->0))
        } else if refundable is None {
            None
        } else if amount.value() > refundable->0.value() {
            Some(Err(LifecycleError::RefundExceedsCaptured))
        } else if total is None {
            None
        } else {
            Some(Ok(self.refunded(total->0, now)))
        }
    }

    /// The hold after a refund, or why there is none. There is no outcome where the
    /// amounts leave the range of decimals.
    pub open spec fn refund(self, amount: DecimalModel, now: Timestamp) -> Option<
        Result<HoldModel, LifecycleError>,
    > {
        self.refund_outcome(
            amount,
            decimal_difference(self.captured_amount, self.refunded_amount),
            decimal_sum(self.refunded_amount, amount),
            now,
        )
    }

    /// Whether the hold can give back this amount: something of it was captured and
    /// not yet refunded in full, and the amount is positive and no more than what is
    /// left.
    pub open spec fn covers(self, amount: DecimalModel) -> bool {
        &&& refund_refusal(self.state) is None
        &&& 0 < amount.value()
        &&& self.refunded_amount.value() + amount.value() <= self.captured_amount.value()
    }

    /// The receipt for an operation on this hold.
    pub open spec fn receipt(self, amount: DecimalModel, replayed: bool) -> ReceiptModel {
        ReceiptModel {
            external_reference: self.external_reference,
            state: self.state,
            amount,
            replayed,
        }
    }

    /// Whether the amounts are decimals.
    pub open spec fn wf(self) -> bool {
        &&& self.amount.wf()
        &&& self.captured_amount.wf()
        &&& self.refunded_amount.wf()
    }

    /// Whether no less than nothing, and no more than was captured, is refunded.
    pub open spec fn solvent(self) -> bool {
        0 <= self.refunded_amount.value() <= self.captured_amount.value()
    }

    /// Whether decimals can tell what is left: it is in their range, as it always is
    /// where no more is refunded than was captured.
    pub open spec fn has_a_rest(self) -> bool {
        self.solvent() || in_range(self.captured_amount.value() - self.refunded_amount.value())
    }

    /// Whether the amounts agree with the state: nothing is captured before the
    /// capture, the whole amount afterwards, and no more is refunded than was
    /// captured.
    pub open spec fn balanced(self) -> bool {
        let captured = self.captured_amount.value();
        let refunded = self.refunded_amount.value();
        match self.state {
            HoldState::Authorized
            | HoldState::Released
            | HoldState::Declined
            | HoldState::Expired => captured == 0 && refunded == 0,
            HoldState::Captured => captured == self.amount.value() && refunded == 0,
            HoldState::PartiallyRefunded => captured == self.amount.value() && 0 < refunded
                < captured,
            HoldState::Refunded => captured == self.amount.value() && refunded == captured,
        }
    }

    /// Whether the hold is one that the lifecycle can produce.
    pub open spec fn valid(self) -> bool {
        &&& self.wf()
        &&& self.amount.value() > 0
        &&& self.balanced()
        &&& text::trimmed(self.tenant_id) == self.tenant_id
        &&& self.tenant_id.len() > 0
        &&& text::trimmed(self.booking_reference) == self.booking_reference
        &&& self.booking_reference.len() > 0
        &&& is_currency_code(self.currency)
        &&& text::ascii_upper(self.currency) == self.currency
        &&& self.external_reference == external_reference_of(self.id)
    }
}

/// The payment hold of one booking.
#[derive(Debug, PartialEq)]
pub struct BookingPaymentHold {
    pub id: u128,
    pub tenant_id: String,
    pub external_reference: String,
    pub booking_reference: String,
    pub amount: Decimal,
    pub currency: String,
    pub captured_amount: Decimal,
    pub refunded_amount: Decimal,
    pub state: HoldState,
    pub created_at: Timestamp,
    pub updated_at: Timestamp,
}

impl View for BookingPaymentHold {
    type V = HoldModel;

    open spec fn view(&self) -> HoldModel {
        HoldModel {
            id: self.id,
            tenant_id: self.tenant_id@,
            external_reference: self.external_reference@,
            booking_reference: self.booking_reference@,
            amount: self.amount@,
            currency: self.currency@,
            captured_amount: self.captured_amount@,
            refunded_amount: self.refunded_amount@,
            state: self.state,
            created_at: self.created_at,
            updated_at: self.updated_at,
        }
    }
}

impl Clone for BookingPaymentHold {
    fn clone(&self) -> (r: Self)
        ensures
            r == *self,
    {
        BookingPaymentHold {
            id: self.id,
            tenant_id: self.tenant_id.clone(),
            external_reference: self.external_reference.clone(),
            booking_reference: self.booking_reference.clone(),
            amount: self.amount,
            currency: self.currency.clone(),
            captured_amount: self.captured_amount,
            refunded_amount: self.refunded_amount,
            state: self.state,
            created_at: self.created_at,
            updated_at: self.updated_at,
        }
    }
}

/// What an operation on a hold reports back.
#[derive(Debug, PartialEq)]
pub struct MutationReceipt {
    pub external_reference: String,
    pub state: HoldState,
    pub amount: Decimal,
    pub replayed: bool,
}

impl View for MutationReceipt {
    type V = ReceiptModel;

    open spec fn view(&self) -> ReceiptModel {
        ReceiptModel {
            external_reference: self.external_reference@,
            state: self.state,
            amount: self.amount@,
            replayed: self.replayed,
        }
    }
}

impl Clone for MutationReceipt {
    fn clone(&self) -> (r: Self)
        ensures
            r == *self,
    {
        MutationReceipt {
            external_reference: self.external_reference.clone(),
            state: self.state,
            amount: self.amount,
            replayed: self.replayed,
        }
    }
}

/// Whether an operation with this outcome took the hold from `before` to `after`
/// and reported `r`: an accepted one changes the hold and returns a receipt for
/// `amount`, a refused one changes nothing and returns the error.
pub open spec fn carried_out(
    outcome: Result<HoldModel, LifecycleError>,
    amount: DecimalModel,
    before: BookingPaymentHold,
    after: BookingPaymentHold,
    r: Result<MutationReceipt, LifecycleError>,
) -> bool {
    match outcome {
        Ok(next) => {
            &&& after@ == next
            &&& r is Ok
            &&& r->Ok_0@ == next.receipt(amount, false)
        },
        Err(e) => {
            &&& after == before
            &&& r == Err::<MutationReceipt, LifecycleError>(e)
        },
    }
}

/// Whether a refund kept the books of a hold that has a rest: what the hold covers is
/// refunded, takes the refunded amount to no more than the captured one, and is added
/// exactly wherever the sum is a decimal; amounts that agree with the state still do,
/// and a valid hold stays valid. What exceeds the rest is refused, unless the rest is no decimal and the amount is the
/// rest rounded up to one.
pub open spec fn keeps_the_books(
    before: HoldModel,
    amount: DecimalModel,
    after: HoldModel,
    r: Option<Result<MutationReceipt, LifecycleError>>,
) -> bool {
    let rest = before.captured_amount.value() - before.refunded_amount.value();
    let sum = before.refunded_amount.value() + amount.value();
    before.has_a_rest() && refund_refusal(before.state) is None && 0 < amount.value() ==> {
        &&& before.covers(amount) ==> {
            &&& r is Some
            &&& r->0 is Ok
            &&& before.refunded_amount.value() <= after.refunded_amount.value()
                <= before.captured_amount.value()
            &&& before.balanced() ==> after.balanced()
            &&& before.valid() ==> after.valid()
            &&& is_decimal(sum) ==> after.refunded_amount.value() == sum
        }
        &&& !before.covers(amount) && (is_decimal(rest) || decimal_difference(
            before.captured_amount,
            before.refunded_amount,
        )->0.value() != amount.value()) ==> r == Some(
            Err::<MutationReceipt, LifecycleError>(LifecycleError::RefundExceedsCaptured),
        )
    }
}

/// Whether a currency has the form of an ISO code: three letters.
fn is_iso_form(code: &str) -> (r: bool)
    ensures
        r == is_currency_code(code@),
{
    code.unicode_len() == 3 && text::is_letter(code.get_char(0)) && text::is_letter(
        code.get_char(1),
    ) && text::is_letter(code.get_char(2))
}

impl BookingPaymentHold {
    /// Opens a hold for a booking, under a fresh identifier. Tenant, booking
    /// reference and currency are trimmed, and the currency is put in upper case.
    pub fn authorize(
        tenant_id: &str,
        booking_reference: &str,
        amount: Decimal,
        currency: &str,
        now: Timestamp,
    ) -> (r: Result<Self, LifecycleError>)
        ensures
            match authorize_refusal(tenant_id@, booking_reference@, amount@, currency@) {
                Some(e) => r == Err::<Self, LifecycleError>(e),
                None => {
                    &&& r is Ok
                    &&& identifier::is_version_7(r->Ok_0.id)
                    &&& r->Ok_0@ == HoldModel::authorized(
                        r->Ok_0.id,
                        tenant_id@,
                        booking_reference@,
                        amount@,
                        currency@,
                        now,
                    )
                    &&& r->Ok_0@.valid()
                },
            },
            r is Ok <==> {
                &&& !text::is_blank(tenant_id@)
                &&& !text::is_blank(booking_reference@)
                &&& 0 < amount@.value()
                &&& text::trimmed(currency@).len() == 3
                &&& forall|i: int|
                    0 <= i < 3 ==> {
                        ||| 65 <= #[trigger] text::trimmed(currency@)[i] as u32 <= 90
                        ||| 97 <= text::trimmed(currency@)[i] as u32 <= 122
                    }
            },
            r is Ok ==> {
                &&& r->Ok_0.tenant_id@ == text::trimmed(tenant_id@)
                &&& r->Ok_0.booking_reference@ == text::trimmed(booking_reference@)
                &&& r->Ok_0.amount == amount
                &&& r->Ok_0.captured_amount@.value() == 0
                &&& r->Ok_0.refunded_amount@.value() == 0
                &&& r->Ok_0.state == HoldState::Authorized
                &&& r->Ok_0.created_at == now
                &&& r->Ok_0.updated_at == now
            },
    {
        Self::authorize_with_id(
            identifier::now_v7(),
            tenant_id,
            booking_reference,
            amount,
            currency,
            now,
        )
    }

    /// Opens a hold for a booking, under the given identifier.
    pub fn authorize_with_id(
        id: u128,
        tenant_id: &str,
        booking_reference: &str,
        amount: Decimal,
        currency: &str,
        now: Timestamp,
    ) -> (r: Result<Self, LifecycleError>)
        ensures
            match authorize_refusal(tenant_id@, booking_reference@, amount@, currency@) {
                Some(e) => r == Err::<Self, LifecycleError>(e),
                None => {
                    &&& r is Ok
                    &&& r->Ok_0@ == HoldModel::authorized(
                        id,
                        tenant_id@,
                        booking_reference@,
                        amount@,
                        currency@,
                        now,
                    )
                    &&& r->Ok_0@.valid()
                },
            },
            r is Ok <==> {
                &&& !text::is_blank(tenant_id@)
                &&& !text::is_blank(booking_reference@)
                &&& 0 < amount@.value()
                &&& text::trimmed(currency@).len() == 3
                &&& forall|i: int|
                    0 <= i < 3 ==> {
                        ||| 65 <= #[trigger] text::trimmed(currency@)[i] as u32 <= 90
                        ||| 97 <= text::trimmed(currency@)[i] as u32 <= 122
                    }
            },
            r is Ok ==> {
                &&& r->Ok_0.tenant_id@ == text::trimmed(tenant_id@)
                &&& r->Ok_0.booking_reference@ == text::trimmed(booking_reference@)
                &&& r->Ok_0.amount == amount
                &&& r->Ok_0.captured_amount@.value() == 0
                &&& r->Ok_0.refunded_amount@.value() == 0
                &&& r->Ok_0.state == HoldState::Authorized
                &&& r->Ok_0.created_at == now
                &&& r->Ok_0.updated_at == now
            },
            r is Ok ==> r->Ok_0.id == id,
    {
        proof {
            use_type_invariant(&amount);
            hold_laws::authorizations_are_accepted_by_form(
                tenant_id@,
                booking_reference@,
                amount@,
                currency@,
            );
            decimal_laws::zero_is_nothing();
            if authorize_refusal(tenant_id@, booking_reference@, amount@, currency@) is None {
                laws::authorized_holds_are_valid(
                    id,
                    tenant_id@,
                    booking_reference@,
                    amount@,
                    currency@,
                    now,
                );
            }
        }
        let tenant_id = tenant_id.trim().to_owned();
        let booking_reference = booking_reference.trim().to_owned();
        let currency = currency.trim().to_ascii_uppercase();
        if tenant_id.as_str().is_empty() {
            return Err(LifecycleError::MissingTenant);
        }
        if booking_reference.as_str().is_empty() {
            return Err(LifecycleError::MissingBookingReference);
        }
        if amount.at_most(&Decimal::zero()) {
            return Err(LifecycleError::InvalidAmount);
        }
        if !is_iso_form(currency.as_str()) {
            return Err(LifecycleError::InvalidCurrency);
        }
        let mut external_reference = "NVH-".to_owned();
        external_reference.append(identifier::to_text(id).as_str());
        Ok(
            BookingPaymentHold {
                id,
                tenant_id,
                external_reference,
                booking_reference,
                amount,
                currency,
                captured_amount: Decimal::zero(),
                refunded_amount: Decimal::zero(),
                state: HoldState::Authorized,
                created_at: now,
                updated_at: now,
            },
        )
    }

    /// Captures the whole amount of an authorized hold.
    pub fn capture(&mut self, now: Timestamp) -> (r: Result<MutationReceipt, LifecycleError>)
        ensures
            carried_out(
                old(self)@.capture(now),
                old(self)@.amount,
                *old(self),
                *final(self),
                r,
            ),
            r is Ok <==> old(self).state == HoldState::Authorized,
            r is Ok ==> {
                &&& final(self).captured_amount == old(self).amount
                &&& final(self).refunded_amount == old(self).refunded_amount
                &&& final(self).state == HoldState::Captured
                &&& final(self).updated_at == now
                &&& r->Ok_0.external_reference@ == old(self).external_reference@
                &&& r->Ok_0.state == HoldState::Captured
                &&& r->Ok_0.amount == old(self).amount
                &&& !r->Ok_0.replayed
            },
            r is Err ==> *final(self) == *old(self),
            final(self).id == old(self).id,
            final(self).tenant_id == old(self).tenant_id,
            final(self).external_reference == old(self).external_reference,
            final(self).booking_reference == old(self).booking_reference,
            final(self).amount == old(self).amount,
            final(self).currency == old(self).currency,
            final(self).created_at == old(self).created_at,
            old(self)@.valid() ==> final(self)@.valid(),
    {
        match self.state {
            HoldState::Authorized => {
                self.captured_amount = self.amount;
                self.state = HoldState::Captured;
                self.updated_at = now;
                Ok(self.receipt(self.amount, false))
            },
            HoldState::Captured | HoldState::PartiallyRefunded | HoldState::Refunded => Err(
                LifecycleError::AlreadyCaptured,
            ),
            HoldState::Released => Err(LifecycleError::AlreadyReleased),
            HoldState::Declined => Err(LifecycleError::Declined),
            HoldState::Expired => Err(LifecycleError::Expired),
        }
    }

    /// Releases an authorized hold.
    pub fn release(&mut self, now: Timestamp) -> (r: Result<MutationReceipt, LifecycleError>)
        ensures
            carried_out(
                old(self)@.release(now),
                old(self)@.amount,
                *old(self),
                *final(self),
                r,
            ),
            r is Ok <==> old(self).state == HoldState::Authorized,
            r is Ok ==> {
                &&& final(self).captured_amount == old(self).captured_amount
                &&& final(self).refunded_amount == old(self).refunded_amount
                &&& final(self).state == HoldState::Released
                &&& final(self).updated_at == now
                &&& r->Ok_0.external_reference@ == old(self).external_reference@
                &&& r->Ok_0.state == HoldState::Released
                &&& r->Ok_0.amount == old(self).amount
                &&& !r->Ok_0.replayed
            },
            r is Err ==> *final(self) == *old(self),
            final(self).id == old(self).id,
            final(self).tenant_id == old(self).tenant_id,
            final(self).external_reference == old(self).external_reference,
            final(self).booking_reference == old(self).booking_reference,
            final(self).amount == old(self).amount,
            final(self).currency == old(self).currency,
            final(self).created_at == old(self).created_at,
            old(self)@.valid() ==> final(self)@.valid(),
    {
        match self.state {
            HoldState::Authorized => {
                self.state = HoldState::Released;
                self.updated_at = now;
                Ok(self.receipt(self.amount, false))
            },
            HoldState::Released => Err(LifecycleError::AlreadyReleased),
            HoldState::Captured | HoldState::PartiallyRefunded | HoldState::Refunded => Err(
                LifecycleError::AlreadyCaptured,
            ),
            HoldState::Declined => Err(LifecycleError::Declined),
            HoldState::Expired => Err(LifecycleError::Expired),
        }
    }

    /// Refunds an amount, where `refundable` is what may still be refunded and
    /// `total` is what will then have been refunded. Returns nothing, and changes
    /// nothing, where one of the two is needed and missing.
    pub fn settle_refund(
        &mut self,
        amount: Decimal,
        refundable: Option<Decimal>,
        total: Option<Decimal>,
        now: Timestamp,
    ) -> (r: Option<Result<MutationReceipt, LifecycleError>>)
        ensures
            match old(self)@.refund_outcome(amount@, optional(refundable), optional(total), now) {
                Some(outcome) => {
                    &&& r is Some
                    &&& carried_out(outcome, amount@, *old(self), *final(self), r->0)
                },
                None => r is None && *final(self) == *old(self),
            },
            r is Some && r->0 is Ok <==> {
                &&& 0 < amount@.value()
                &&& old(self).state == HoldState::Captured || old(self).state
                    == HoldState::PartiallyRefunded
                &&& refundable is Some
                &&& amount@.value() <= refundable->0@.value()
                &&& total is Some
            },
            r is Some && r->0 is Ok ==> {
                &&& final(self).captured_amount == old(self).captured_amount
                &&& final(self).refunded_amount == total->0
                &&& final(self).updated_at == now
                &&& r->0->Ok_0.external_reference@ == old(self).external_reference@
                &&& r->0->Ok_0.state == final(self).state
                &&& r->0->Ok_0.amount == amount
                &&& !r->0->Ok_0.replayed
            },
            !(r is Some && r->0 is Ok) ==> *final(self) == *old(self),
            final(self).id == old(self).id,
            final(self).tenant_id == old(self).tenant_id,
            final(self).external_reference == old(self).external_reference,
            final(self).booking_reference == old(self).booking_reference,
            final(self).amount == old(self).amount,
            final(self).currency == old(self).currency,
            final(self).created_at == old(self).created_at,
    {
        proof {
            use_type_invariant(&amount);
        }
        if amount.at_most(&Decimal::zero()) {
            return Some(Err(LifecycleError::InvalidAmount));
        }
        match self.state {
            HoldState::Refunded => {
                return Some(Err(LifecycleError::AlreadyRefunded));
            },
            HoldState::Captured | HoldState::PartiallyRefunded => {},
            HoldState::Declined => {
                return Some(Err(LifecycleError::Declined));
            },
            HoldState::Expired => {
                return Some(Err(LifecycleError::Expired));
            },
            HoldState::Authorized | HoldState::Released => {
                return Some(Err(LifecycleError::InvalidState));
            },
        }
        let limit = match refundable {
            Some(limit) => limit,
            None => {
                return None;
            },
        };
        proof {
            use_type_invariant(&limit);
        }
        if !amount.at_most(&limit) {
            return Some(Err(LifecycleError::RefundExceedsCaptured));
        }
        let total = match total {
            Some(total) => total,
            None => {
                return None;
            },
        };
        self.refunded_amount = total;
        self.state = if total == self.captured_amount {
            HoldState::Refunded
        } else {
            HoldState::PartiallyRefunded
        };
        self.updated_at = now;
        Some(Ok(self.receipt(amount, false)))
    }

    /// Refunds an amount of what was captured.
    ///
    /// The caller has made sure that the amounts stay in the range of decimals;
    /// [`BookingPaymentHold::checked_refund`] does that by itself.
    pub fn refund(&mut self, amount: Decimal, now: Timestamp) -> (r: Result<
        MutationReceipt,
        LifecycleError,
    >)
        requires
            old(self)@.refund(amount@, now) is Some,
        ensures
            carried_out(
                old(self)@.refund(amount@, now)->0,
                amount@,
                *old(self),
                *final(self),
                r,
            ),
            keeps_the_books(old(self)@, amount@, final(self)@, Some(r)),
            r is Ok ==> laws::is_accepted_refund(old(self)@, amount@, final(self)@),
            r is Ok ==> {
                &&& 0 < amount@.value()
                &&& final(self).captured_amount == old(self).captured_amount
                &&& final(self).refunded_amount@ == decimal_sum(
                    old(self).refunded_amount@,
                    amount@,
                )->0
                &&& final(self).updated_at == now
                &&& r->Ok_0.external_reference@ == old(self).external_reference@
                &&& r->Ok_0.state == final(self).state
                &&& r->Ok_0.amount == amount
                &&& !r->Ok_0.replayed
            },
            r is Err ==> *final(self) == *old(self),
            final(self).id == old(self).id,
            final(self).tenant_id == old(self).tenant_id,
            final(self).external_reference == old(self).external_reference,
            final(self).booking_reference == old(self).booking_reference,
            final(self).amount == old(self).amount,
            final(self).currency == old(self).currency,
            final(self).created_at == old(self).created_at,
            laws::is_reckoned(
                old(self)@,
                amount@,
                decimal_difference(old(self)@.captured_amount, old(self)@.refunded_amount),
                decimal_sum(old(self)@.refunded_amount, amount@),
            ),
    {
        proof {
            use_type_invariant(&amount);
            use_type_invariant(&self.amount);
            use_type_invariant(&self.captured_amount);
            use_type_invariant(&self.refunded_amount);
        }
        let ghost before = self@;
        let refundable = self.captured_amount.difference(&self.refunded_amount);
        let total = self.refunded_amount.sum(&amount);
        proof {
            if self@.has_a_rest() && refund_refusal(self.state) is None && 0 < amount@.value() {
                laws::covered_refunds_stay_in_range(self@, amount@);
                if self@.covers(amount@) {
                    laws::covered_refunds_are_accepted(
                        self@,
                        amount@,
                        refundable->0@,
                        total->0@,
                        now,
                    );
                    let sum = self@.refunded_amount.value() + amount@.value();
                    if is_decimal(sum) {
                        rounding_keeps_decimals(sum, total->0@);
                    }
                } else {
                    let rest = self@.captured_amount.value() - self@.refunded_amount.value();
                    if is_decimal(rest) {
                        rounding_keeps_decimals(rest, refundable->0@);
                    }
                    if amount@.value() != refundable->0@.value() {
                        laws::uncovered_refunds_are_refused(
                            self@,
                            amount@,
                            refundable->0@,
                            optional(total),
                            now,
                        );
                    }
                }
            }
        }
        let r = self.settle_refund(amount, refundable, total, now).unwrap();
        proof {
            if r is Ok {
                assert(before.refund_outcome(
                    amount@,
                    Some(refundable->0@),
                    Some(total->0@),
                    now,
                ) == Some(Ok::<HoldModel, LifecycleError>(self@)));
            }
        }
        r
    }

    /// Refunds an amount of what was captured. Returns nothing, and changes nothing,
    /// where the amounts leave the range of decimals.
    pub fn checked_refund(&mut self, amount: Decimal, now: Timestamp) -> (r: Option<
        Result<MutationReceipt, LifecycleError>,
    >)
        ensures
            match old(self)@.refund(amount@, now) {
                Some(outcome) => {
                    &&& r is Some
                    &&& carried_out(outcome, amount@, *old(self), *final(self), r->0)
                },
                None => r is None && *final(self) == *old(self),
            },
            keeps_the_books(old(self)@, amount@, final(self)@, r),
            r is Some && r->0 is Ok ==> laws::is_accepted_refund(
                old(self)@,
                amount@,
                final(self)@,
            ),
            r is Some && r->0 is Ok ==> {
                &&& 0 < amount@.value()
                &&& final(self).captured_amount == old(self).captured_amount
                &&& final(self).refunded_amount@ == decimal_sum(
                    old(self).refunded_amount@,
                    amount@,
                )->0
                &&& final(self).updated_at == now
                &&& r->0->Ok_0.external_reference@ == old(self).external_reference@
                &&& r->0->Ok_0.state == final(self).state
                &&& r->0->Ok_0.amount == amount
                &&& !r->0->Ok_0.replayed
            },
            !(r is Some && r->0 is Ok) ==> *final(self) == *old(self),
            final(self).id == old(self).id,
            final(self).tenant_id == old(self).tenant_id,
            final(self).external_reference == old(self).external_reference,
            final(self).booking_reference == old(self).booking_reference,
            final(self).amount == old(self).amount,
            final(self).currency == old(self).currency,
            final(self).created_at == old(self).created_at,
            laws::is_reckoned(
                old(self)@,
                amount@,
                decimal_difference(old(self)@.captured_amount, old(self)@.refunded_amount),
                decimal_sum(old(self)@.refunded_amount, amount@),
            ),
    {
        proof {
            use_type_invariant(&amount);
            use_type_invariant(&self.amount);
            use_type_invariant(&self.captured_amount);
            use_type_invariant(&self.refunded_amount);
        }
        let refundable = self.captured_amount.difference(&self.refunded_amount);
        let total = self.refunded_amount.sum(&amount);
        proof {
            if self@.has_a_rest() {
                laws::covered_refunds_stay_in_range(self@, amount@);
            }
        }
        let in_reach = match refundable {
            Some(limit) => {
                proof {
                    use_type_invariant(&limit);
                }
                !amount.at_most(&limit) || total.is_some()
            },
            None => false,
        };
        let refused = amount.at_most(&Decimal::zero()) || !self.is_refundable();
        if refused || in_reach {
            Some(self.refund(amount, now))
        } else {
            None
        }
    }

    /// Whether the state of the hold lets something be refunded.
    fn is_refundable(&self) -> (r: bool)
        ensures
            r == (refund_refusal(self.state) is None),
    {
        match self.state {
            HoldState::Captured | HoldState::PartiallyRefunded => true,
            _ => false,
        }
    }

    /// The receipt for an operation on this hold.
    pub fn receipt(&self, amount: Decimal, replayed: bool) -> (r: MutationReceipt)
        ensures
            r@ == self@.receipt(amount@, replayed),
            r.external_reference@ == self.external_reference@,
            r.state == self.state,
            r.amount == amount,
            r.replayed == replayed,
    {
        MutationReceipt {
            external_reference: self.external_reference.clone(),
            state: self.state,
            amount,
            replayed,
        }
    }
}

/// A request that was already served: its idempotency key, what it did, and the
/// fingerprint of its payload.
#[derive(Debug, PartialEq, Eq)]
pub struct IdempotencyRecord {
    pub key: String,
    pub fingerprint: String,
    pub operation: String,
}

/// A served request, with its texts as character sequences.
pub struct RecordModel {
    pub key: Seq<char>,
    pub fingerprint: Seq<char>,
    pub operation: Seq<char>,
}

impl View for IdempotencyRecord {
    type V = RecordModel;

    open spec fn view(&self) -> RecordModel {
        RecordModel {
            key: self.key@,
            fingerprint: self.fingerprint@,
            operation: self.operation@,
        }
    }
}

impl Clone for IdempotencyRecord {
    fn clone(&self) -> (r: Self)
        ensures
            r == *self,
    {
        IdempotencyRecord {
            key: self.key.clone(),
            fingerprint: self.fingerprint.clone(),
            operation: self.operation.clone(),
        }
    }
}

/// Whether a request repeats the one on record: `false` where there is none under its
/// key, an error where there is one that did something else.
pub open spec fn idempotency_outcome(
    key: Seq<char>,
    operation: Seq<char>,
    fingerprint: Seq<char>,
    prior: Option<RecordModel>,
) -> Result<bool, LifecycleError> {
    if text::trimmed(key).len() == 0 {
        Err(LifecycleError::MissingIdempotencyKey)
    } else if prior is None || prior->0.key != text::trimmed(key) {
        Ok(false)
    } else if prior->0.operation == operation && prior->0.fingerprint == fingerprint {
        Ok(true)
    } else {
        Err(LifecycleError::IdempotencyConflict)
    }
}

/// Whether a request repeats the one on record, and is to be answered as that one
/// was. The key is trimmed first, and must not be empty.
pub fn validate_idempotency(
    key: &str,
    operation: &str,
    fingerprint: &str,
    prior: Option<&IdempotencyRecord>,
) -> (r: Result<bool, LifecycleError>)
    ensures
        r == idempotency_outcome(
            key@,
            operation@,
            fingerprint@,
            match prior {
                Some(record) => Some(record@),
                None => None,
            },
        ),
        text::is_blank(key@) <==> r == Err::<bool, LifecycleError>(
            LifecycleError::MissingIdempotencyKey,
        ),
        !text::is_blank(key@) && (prior is None || prior->0.key@ != text::trimmed(key@))
            ==> r == Ok::<bool, LifecycleError>(false),
        r == Ok::<bool, LifecycleError>(true) <==> {
            &&& !text::is_blank(key@)
            &&& prior is Some
            &&& prior->0.key@ == text::trimmed(key@)
            &&& prior->0.operation@ == operation@
            &&& prior->0.fingerprint@ == fingerprint@
        },
        r is Err && !text::is_blank(key@) ==> {
            &&& r->Err_0 == LifecycleError::IdempotencyConflict
            &&& prior is Some
            &&& prior->0.key@ == text::trimmed(key@)
        },
{
    proof {
        text::blank_texts_trim_to_nothing(key@);
    }
    let key = key.trim();
    if key.is_empty() {
        return Err(LifecycleError::MissingIdempotencyKey);
    }
    if let Some(prior) = prior {
        if *prior.key.as_str() == *key {
            if *prior.operation.as_str() == *operation && *prior.fingerprint.as_str()
                == *fingerprint {
                return Ok(true);
            }
            return Err(LifecycleError::IdempotencyConflict);
        }
    }
    Ok(false)
}

} // verus!
