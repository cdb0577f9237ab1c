//! Holds and served requests as the database keeps them.

use vstd::prelude::*;

use crate::bookings_contract::{BookingPaymentHold, HoldModel, HoldState, LifecycleError};
use crate::clock::Timestamp;
use crate::decimal::{Decimal, DecimalModel};
use crate::replies::{
    api_error, db_error, lifecycle_error, persistence_failure, refusal, ApiError, ErrorModel,
    HoldResponse, ResponseModel, CONFLICT, INTERNAL_SERVER_ERROR, NOT_FOUND,
};

verus! {

/// The text that the database keeps for a state.
pub open spec fn state_text(state: HoldState) -> Seq<char> {
    match state {
        HoldState::Authorized => "AUTHORIZED"@,
        HoldState::Captured => "CAPTURED"@,
        HoldState::Released => "RELEASED"@,
        HoldState::PartiallyRefunded => "PARTIALLY_REFUNDED"@,
        HoldState::Refunded => "REFUNDED"@,
        HoldState::Declined => "DECLINED"@,
        HoldState::Expired => "EXPIRED"@,
    }
}

/// The state that a text of the database stands for; any other text is refused.
pub open spec fn state_of_text(raw: Seq<char>) -> Result<HoldState, LifecycleError> {
    if raw == "AUTHORIZED"@ {
        Ok(HoldState::Authorized)
    } else if raw == "CAPTURED"@ {
        Ok(HoldState::Captured)
    } else if raw == "RELEASED"@ {
        Ok(HoldState::Released)
    } else if raw == "PARTIALLY_REFUNDED"@ {
        Ok(HoldState::PartiallyRefunded)
    } else if raw == "REFUNDED"@ {
        Ok(HoldState::Refunded)
    } else if raw == "DECLINED"@ {
        Ok(HoldState::Declined)
    } else if raw == "EXPIRED"@ {
        Ok(HoldState::Expired)
    } else {
        Err(LifecycleError::InvalidState)
    }
}

/// The text that the database keeps for a state.
pub fn state_to_db(state: HoldState) -> (r: &'static str)
    ensures
        r@ == state_text(state),
{
    match state {
        HoldState::Authorized => "AUTHORIZED",
        HoldState::Captured => "CAPTURED",
        HoldState::Released => "RELEASED",
        HoldState::PartiallyRefunded => "PARTIALLY_REFUNDED",
        HoldState::Refunded => "REFUNDED",
        HoldState::Declined => "DECLINED",
        HoldState::Expired => "EXPIRED",
    }
}

/// The state that a text of the database stands for.
pub fn state_from_db(raw: &str) -> (r: Result<HoldState, LifecycleError>)
    ensures
        r == state_of_text(raw@),
{
    if *raw == *"AUTHORIZED" {
        Ok(HoldState::Authorized)
    } else if *raw == *"CAPTURED" {
        Ok(HoldState::Captured)
    } else if *raw == *"RELEASED" {
        Ok(HoldState::Released)
    } else if *raw == *"PARTIALLY_REFUNDED" {
        Ok(HoldState::PartiallyRefunded)
    } else if *raw == *"REFUNDED" {
        Ok(HoldState::Refunded)
    } else if *raw == *"DECLINED" {
        Ok(HoldState::Declined)
    } else if *raw == *"EXPIRED" {
        Ok(HoldState::Expired)
    } else {
        Err(LifecycleError::InvalidState)
    }
}

/// The texts of the states are told apart: reading the text of a state gives that
/// state back, and a text that reads as a state is the text of that state.
pub proof fn state_texts_round_trip(state: HoldState, raw: Seq<char>)
    ensures
        state_of_text(state_text(state)) == Ok::<HoldState, LifecycleError>(state),
        state_of_text(raw) == Ok::<HoldState, LifecycleError>(state) ==> raw == state_text(state),
{
    reveal_strlit("AUTHORIZED");
    reveal_strlit("CAPTURED");
    reveal_strlit("RELEASED");
    reveal_strlit("PARTIALLY_REFUNDED");
    reveal_strlit("REFUNDED");
    reveal_strlit("DECLINED");
    reveal_strlit("EXPIRED");
    assert("AUTHORIZED"@.len() == 10);
    assert("CAPTURED"@.len() == 8 && "CAPTURED"@[0] == 'C');
    assert("RELEASED"@.len() == 8 && "RELEASED"@[0] == 'R' && "RELEASED"@[2] == 'L');
    assert("PARTIALLY_REFUNDED"@.len() == 18);
    assert("REFUNDED"@.len() == 8 && "REFUNDED"@[0] == 'R' && "REFUNDED"@[2] == 'F');
    assert("DECLINED"@.len() == 8 && "DECLINED"@[0] == 'D');
    assert("EXPIRED"@.len() == 7);
}

/// A row of the table of holds.
#[derive(Debug, PartialEq)]
pub struct HoldRow {
    pub id: u128,
    pub tenant_id: String,
    pub external_reference: String,
    pub booking_reference: String,
    pub amount: Decimal,
    pub currency: String,
    pub captured_amount: Decimal,
    pub refunded_amount: Decimal,
    pub state: String,
    pub created_at: Timestamp,
    pub updated_at: Timestamp,
}

/// A row of the table of holds, with its texts as character sequences.
pub struct RowModel {
    pub id: u128,
    pub tenant_id: Seq<char>,
    pub external_reference: Seq<char>,
    pub booking_reference: Seq<char>,
    pub amount: DecimalModel,
    pub currency: Seq<char>,
    pub captured_amount: DecimalModel,
    pub refunded_amount: DecimalModel,
    pub state: Seq<char>,
    pub created_at: Timestamp,
    pub updated_at: Timestamp,
}

impl View for HoldRow {
    type V = RowModel;

    open spec fn view(&self) -> RowModel {
        RowModel {
            id: self.id,
            tenant_id: self.tenant_id@,
            external_reference: self.external_reference@,
            booking_reference: self.booking_reference@,
            amount: self.amount@,
            currency: self.currency@,
            captured_amount: self.captured_amount@,
            refunded_amount: self.refunded_amount@,
            state: self.state@,
            created_at: self.created_at,
            updated_at: self.updated_at,
        }
    }
}

/// The row that keeps a hold.
pub open spec fn row_of(hold: HoldModel) -> RowModel {
    RowModel {
        id: hold.id,
        tenant_id: hold.tenant_id,
        external_reference: hold.external_reference,
        booking_reference: hold.booking_reference,
        amount: hold.amount,
        currency: hold.currency,
        captured_amount: hold.captured_amount,
        refunded_amount: hold.refunded_amount,
        state: state_text(hold.state),
        created_at: hold.created_at,
        updated_at: hold.updated_at,
    }
}

/// The hold that a row keeps; a row whose state is not known is refused.
pub open spec fn hold_of(row: RowModel) -> Result<HoldModel, LifecycleError> {
    match state_of_text(row.state) {
        Ok(state) => Ok(
            HoldModel {
                id: row.id,
                tenant_id: row.tenant_id,
                external_reference: row.external_reference,
                booking_reference: row.booking_reference,
                amount: row.amount,
                currency: row.currency,
                captured_amount: row.captured_amount,
                refunded_amount: row.refunded_amount,
                state,
                created_at: row.created_at,
                updated_at: row.updated_at,
            },
        ),
        Err(e) => Err(e),
    }
}

/// A hold that is written to its row and read back is the same hold.
pub proof fn stored_holds_read_back(hold: HoldModel)
    ensures
        hold_of(row_of(hold)) == Ok::<HoldModel, LifecycleError>(hold),
{
    state_texts_round_trip(hold.state, Seq::empty());
}

/// The row that keeps a hold.
pub fn hold_row(hold: &BookingPaymentHold) -> (r: HoldRow)
    ensures
        r@ == row_of(hold@),
        r.id == hold.id,
        r.tenant_id@ == hold.tenant_id@,
        r.external_reference@ == hold.external_reference@,
        r.booking_reference@ == hold.booking_reference@,
        r.amount == hold.amount,
        r.currency@ == hold.currency@,
        r.captured_amount == hold.captured_amount,
        r.refunded_amount == hold.refunded_amount,
        r.created_at == hold.created_at,
        r.updated_at == hold.updated_at,
{
    HoldRow {
        id: hold.id,
        tenant_id: hold.tenant_id.clone(),
        external_reference: hold.external_reference.clone(),
        booking_reference: hold.booking_reference.clone(),
        amount: hold.amount,
        currency: hold.currency.clone(),
        captured_amount: hold.captured_amount,
        refunded_amount: hold.refunded_amount,
        state: state_to_db(hold.state).to_owned(),
        created_at: hold.created_at,
        updated_at: hold.updated_at,
    }
}

impl TryFrom<HoldRow> for BookingPaymentHold {
    type Error = LifecycleError;

    fn try_from(row: HoldRow) -> (r: Result<BookingPaymentHold, LifecycleError>)
        ensures
            match hold_of(row@) {
                Ok(hold) => r is Ok && r->Ok_0@ == hold,
                Err(e) => r == Err::<BookingPaymentHold, LifecycleError>(e),
            },
            r is Ok ==> {
                &&& r->Ok_0.id == row.id
                &&& r->Ok_0.tenant_id == row.tenant_id
                &&& r->Ok_0.external_reference == row.external_reference
                &&& r->Ok_0.booking_reference == row.booking_reference
                &&& r->Ok_0.amount == row.amount
                &&& r->Ok_0.currency == row.currency
                &&& r->Ok_0.captured_amount == row.captured_amount
                &&& r->Ok_0.refunded_amount == row.refunded_amount
                &&& r->Ok_0.created_at == row.created_at
                &&& r->Ok_0.updated_at == row.updated_at
                &&& row.state@ == state_text(r->Ok_0.state)
            },
    {
        proof {
            state_texts_round_trip(HoldState::Authorized, row.state@);
            state_texts_round_trip(HoldState::Captured, row.state@);
            state_texts_round_trip(HoldState::Released, row.state@);
            state_texts_round_trip(HoldState::PartiallyRefunded, row.state@);
            state_texts_round_trip(HoldState::Refunded, row.state@);
            state_texts_round_trip(HoldState::Declined, row.state@);
            state_texts_round_trip(HoldState::Expired, row.state@);
        }
        let state = match state_from_db(row.state.as_str()) {
            Ok(state) => state,
            Err(e) => {
                return Err(e);
            },
        };
        Ok(
            BookingPaymentHold {
                id: row.id,
                tenant_id: row.tenant_id,
                external_reference: row.external_reference,
                booking_reference: row.booking_reference,
                amount: row.amount,
                currency: row.currency,
                captured_amount: row.captured_amount,
                refunded_amount: row.refunded_amount,
                state,
                created_at: row.created_at,
                updated_at: row.updated_at,
            },
        )
    }
}

impl vstd::std_specs::convert::TryFromSpecImpl<HoldRow> for BookingPaymentHold {
    open spec fn obeys_try_from_spec() -> bool {
        true
    }

    open spec fn try_from_spec(row: HoldRow) -> Result<BookingPaymentHold, LifecycleError> {
        match state_of_text(row.state@) {
            Ok(state) => Ok(
                BookingPaymentHold {
                    id: row.id,
                    tenant_id: row.tenant_id,
                    external_reference: row.external_reference,
                    booking_reference: row.booking_reference,
                    amount: row.amount,
                    currency: row.currency,
                    captured_amount: row.captured_amount,
                    refunded_amount: row.refunded_amount,
                    state,
                    created_at: row.created_at,
                    updated_at: row.updated_at,
                },
            ),
            Err(e) => Err(e),
        }
    }
}

/// The answer where a reference names no hold.
pub open spec fn no_such_hold() -> ErrorModel {
    ErrorModel {
        status: NOT_FOUND,
        code: "PAYMENT_NOT_FOUND"@,
        message: "Payment reference not found"@,
    }
}

/// The hold that a lookup found, or the answer where it found none or one that
/// cannot be read.
pub open spec fn lookup_outcome(row: Option<RowModel>) -> Result<HoldModel, ErrorModel> {
    match row {
        None => Err(no_such_hold()),
        Some(row) => match hold_of(row) {
            Ok(hold) => Ok(hold),
            Err(e) => Err(refusal(e)),
        },
    }
}

/// The model of an optional row.
pub open spec fn optional_row(row: Option<HoldRow>) -> Option<RowModel> {
    match row {
        Some(row) => Some(row@),
        None => None,
    }
}

/// The hold that a lookup found, or the answer where it found none or one that
/// cannot be read.
pub fn load_hold(row: Option<HoldRow>) -> (r: Result<BookingPaymentHold, ApiError>)
    ensures
        match lookup_outcome(optional_row(row)) {
            Ok(hold) => r is Ok && r->Ok_0@ == hold,
            Err(e) => r is Err && r->Err_0@ == e,
        },
{
    match row {
        None => Err(api_error(NOT_FOUND, "PAYMENT_NOT_FOUND", "Payment reference not found")),
        Some(row) => match BookingPaymentHold::try_from(row) {
            Ok(hold) => Ok(hold),
            Err(e) => Err(lifecycle_error(e)),
        },
    }
}

/// The answer where a new hold could not be inserted: PostgreSQL reports the code
/// 23505 where the booking already has one.
pub open spec fn insert_failure(code: Option<Seq<char>>) -> ErrorModel {
    if code == Some("23505"@) {
        ErrorModel {
            status: CONFLICT,
            code: "BOOKING_PAYMENT_ALREADY_EXISTS"@,
            message: "A payment hold already exists for this booking"@,
        }
    } else {
        persistence_failure()
    }
}

/// The model of an optional text.
pub open spec fn optional_text(t: Option<String>) -> Option<Seq<char>> {
    match t {
        Some(t) => Some(t@),
        None => None,
    }
}

/// The answer where a new hold could not be inserted, by the code that the database
/// reported.
pub fn insert_error(code: &Option<String>) -> (r: ApiError)
    ensures
        r@ == insert_failure(optional_text(*code)),
{
    let taken = match code {
        Some(code) => *code.as_str() == *"23505",
        None => false,
    };
    if taken {
        api_error(
            CONFLICT,
            "BOOKING_PAYMENT_ALREADY_EXISTS",
            "A payment hold already exists for this booking",
        )
    } else {
        db_error()
    }
}

/// A row of the table of served requests, without its key. The response is missing
/// where the stored one could not be decoded.
#[derive(Debug, PartialEq)]
pub struct PriorRow {
    pub operation: String,
    pub fingerprint: String,
    pub response: Option<HoldResponse>,
}

/// A row of the table of served requests, with its texts as character sequences.
pub struct PriorModel {
    pub operation: Seq<char>,
    pub fingerprint: Seq<char>,
    pub response: Option<ResponseModel>,
}

impl View for PriorRow {
    type V = PriorModel;

    open spec fn view(&self) -> PriorModel {
        PriorModel {
            operation: self.operation@,
            fingerprint: self.fingerprint@,
            response: match self.response {
                Some(response) => Some(response@),
                None => None,
            },
        }
    }
}

/// The model of an optional served request.
pub open spec fn optional_prior(row: Option<PriorRow>) -> Option<PriorModel> {
    match row {
        Some(row) => Some(row@),
        None => None,
    }
}

/// The answer where a stored response cannot be decoded.
pub open spec fn corrupt_record() -> ErrorModel {
    ErrorModel {
        status: INTERNAL_SERVER_ERROR,
        code: "CORRUPT_IDEMPOTENCY_RECORD"@,
        message: "Stored idempotency response is invalid"@,
    }
}

/// How a request is answered from the one on record under its key: not at all where
/// there is none, with an error where that one did something else, and otherwise
/// with the stored response, marked as replayed.
pub open spec fn replay_outcome(
    row: Option<PriorModel>,
    operation: Seq<char>,
    fingerprint: Seq<char>,
) -> Result<Option<ResponseModel>, ErrorModel> {
    match row {
        None => Ok(None),
        Some(prior) => if prior.operation != operation || prior.fingerprint != fingerprint {
            Err(refusal(LifecycleError::IdempotencyConflict))
        } else {
            match prior.response {
                None => Err(corrupt_record()),
                Some(response) => Ok(Some(ResponseModel { replayed: true, ..response })),
            }
        },
    }
}

/// How a request is answered from the one on record under its key.
pub fn prior_response(row: Option<PriorRow>, operation: &str, fingerprint: &str) -> (r: Result<
    Option<HoldResponse>,
    ApiError,
>)
    ensures
        match replay_outcome(optional_prior(row), operation@, fingerprint@) {
            Ok(None) => r == Ok::<Option<HoldResponse>, ApiError>(None),
            Ok(Some(response)) => {
                &&& r is Ok
                &&& r->Ok_0 is Some
                &&& r->Ok_0->0@ == response
            },
            Err(e) => r is Err && r->Err_0@ == e,
        },
        r is Ok && r->Ok_0 is Some ==> {
            let stored = row->0.response->0;
            let answer = r->Ok_0->0;
            &&& row is Some
            &&& row->0.operation@ == operation@
            &&& row->0.fingerprint@ == fingerprint@
            &&& row->0.response is Some
            &&& answer.replayed
            &&& answer.contract_version == stored.contract_version
            &&& answer.external_reference == stored.external_reference
            &&& answer.booking_reference == stored.booking_reference
            &&& answer.amount == stored.amount
            &&& answer.currency == stored.currency
            &&& answer.captured_amount == stored.captured_amount
            &&& answer.refunded_amount == stored.refunded_amount
            &&& answer.state == stored.state
        },
{
    match row {
        None => Ok(None),
        Some(prior) => {
            if !(*prior.operation.as_str() == *operation) || !(*prior.fingerprint.as_str()
                == *fingerprint) {
                return Err(lifecycle_error(LifecycleError::IdempotencyConflict));
            }
            match prior.response {
                None => Err(
                    api_error(
                        INTERNAL_SERVER_ERROR,
                        "CORRUPT_IDEMPOTENCY_RECORD",
                        "Stored idempotency response is invalid",
                    ),
                ),
                Some(mut response) => {
                    response.replayed = true;
                    Ok(Some(response))
                },
            }
        },
    }
}

} // verus!
