//! What the parts of the service make of what they are given, told by the fields of what
//! goes in and comes out.

use vstd::prelude::*;

use crate::bookings_contract::{error_message, HoldModel, HoldState, LifecycleError};
use crate::clock::Timestamp;
use crate::decimal::DecimalModel;
use crate::headers::{
    bearer_of, header_chars, header_fields, is_visible, token_in, trimmed_header, visible_chars,
};
use crate::identity::{
    call_outcome, identity_outcome, introspection_url, is_good, optional_identity, IdentityModel,
    Introspection, IntrospectionCall,
};
use crate::operations::{
    event_type_of, fingerprint_of_authorize, fingerprint_of_mutation, operation_amount,
    operation_outcome, AuthorizeModel, AuthorizeRequest,
};
use crate::outbox::{event_about, EventPayload, OutboxEvent, OutboxModel};
use crate::replies::{refusal, response_of, ApiError, ErrorModel, HoldResponse, ResponseModel};
use crate::storage::{
    hold_of, insert_failure, lookup_outcome, optional_prior, optional_row, optional_text,
    replay_outcome, row_of, state_of_text, state_text, state_texts_round_trip, HoldRow,
    PriorModel, PriorRow, RowModel,
};
use crate::text;

verus! {

/// Whether the database calls a state by this name.
pub open spec fn is_named(state: HoldState, name: Seq<char>) -> bool {
    match state {
        HoldState::Authorized => name == "AUTHORIZED"@,
        HoldState::Captured => name == "CAPTURED"@,
        HoldState::Released => name == "RELEASED"@,
        HoldState::PartiallyRefunded => name == "PARTIALLY_REFUNDED"@,
        HoldState::Refunded => name == "REFUNDED"@,
        HoldState::Declined => name == "DECLINED"@,
        HoldState::Expired => name == "EXPIRED"@,
    }
}

/// Whether an answer shows what a row keeps, field by field.
pub open spec fn shows(response: ResponseModel, row: RowModel) -> bool {
    &&& response.contract_version == "nvuto.payments.booking.v1"@
    &&& response.external_reference == row.external_reference
    &&& response.booking_reference == row.booking_reference
    &&& response.amount == row.amount
    &&& response.currency == row.currency
    &&& response.captured_amount == row.captured_amount
    &&& response.refunded_amount == row.refunded_amount
    &&& is_named(response.state, row.state)
}

/// Whether an event tells what a row keeps, field by field.
pub open spec fn tells(event: OutboxModel, row: RowModel) -> bool {
    &&& event.tenant_id == row.tenant_id
    &&& event.aggregate_reference == row.external_reference
    &&& event.payload.contract_version == "nvuto.payments.booking.v1"@
    &&& event.payload.external_reference == row.external_reference
    &&& event.payload.booking_reference == row.booking_reference
    &&& event.payload.amount == row.amount
    &&& event.payload.currency == row.currency
    &&& event.payload.captured_amount == row.captured_amount
    &&& event.payload.refunded_amount == row.refunded_amount
    &&& is_named(event.payload.state, row.state)
    &&& event.payload.occurred_at == row.updated_at
}

/// Whether a row keeps a hold, field by field.
pub open spec fn keeps(row: RowModel, hold: HoldModel) -> bool {
    &&& row.id == hold.id
    &&& row.tenant_id == hold.tenant_id
    &&& row.external_reference == hold.external_reference
    &&& row.booking_reference == hold.booking_reference
    &&& row.amount == hold.amount
    &&& row.currency == hold.currency
    &&& row.captured_amount == hold.captured_amount
    &&& row.refunded_amount == hold.refunded_amount
    &&& is_named(hold.state, row.state)
    &&& row.created_at == hold.created_at
    &&& row.updated_at == hold.updated_at
}

/// Whether an error is answered with this status, code and sentence.
pub open spec fn says(e: ErrorModel, status: u16, code: Seq<char>, message: Seq<char>) -> bool {
    &&& e.status == status
    &&& e.code == code
    &&& e.message == message
}

/// No two states go by the same name, and each goes by one.
pub proof fn names_tell_states_apart(a: HoldState, b: HoldState, name: Seq<char>)
    ensures
        is_named(a, name) && is_named(b, name) ==> a == b,
        is_named(a, name) <==> state_text(a) == name,
        is_named(a, name) <==> state_of_text(name) == Ok::<HoldState, LifecycleError>(a),
{
    state_texts_round_trip(a, name);
    state_texts_round_trip(b, name);
}

/// A name that no state goes by is refused.
pub proof fn other_names_are_refused(name: Seq<char>)
    ensures
        state_of_text(name) is Err <==> forall|s: HoldState| !#[trigger] is_named(s, name),
        state_of_text(name) is Err ==> state_of_text(name)->Err_0 == LifecycleError::InvalidState,
{
    if state_of_text(name) is Ok {
        names_tell_states_apart(state_of_text(name)->Ok_0, state_of_text(name)->Ok_0, name);
        assert(is_named(state_of_text(name)->Ok_0, name));
    } else {
        assert forall|s: HoldState| !#[trigger] is_named(s, name) by {
            names_tell_states_apart(s, s, name);
        }
    }
}

/// The answer that shows a hold shows each of its fields: what was captured as captured,
/// what was refunded as refunded, and so on.
pub proof fn responses_show_the_hold(hold: HoldModel, replayed: bool)
    ensures
        ({
            let response = response_of(hold, replayed);
            &&& response.contract_version == "nvuto.payments.booking.v1"@
            &&& response.external_reference == hold.external_reference
            &&& response.booking_reference == hold.booking_reference
            &&& response.amount == hold.amount
            &&& response.currency == hold.currency
            &&& response.captured_amount == hold.captured_amount
            &&& response.refunded_amount == hold.refunded_amount
            &&& response.state == hold.state
            &&& response.replayed == replayed
        }),
{
}

/// The event about a hold tells each of its fields, under the identifier, the type and
/// the correlation and causation that it is given.
pub proof fn events_tell_the_hold(
    hold: HoldModel,
    id: u128,
    event_type: Seq<char>,
    correlation_id: Seq<char>,
    causation_id: Seq<char>,
)
    ensures
        ({
            let event = event_about(hold, id, event_type, correlation_id, causation_id);
            &&& event.id == id
            &&& event.event_type == event_type
            &&& event.correlation_id == correlation_id
            &&& event.causation_id == causation_id
            &&& event.tenant_id == hold.tenant_id
            &&& event.aggregate_reference == hold.external_reference
            &&& event.payload.contract_version == "nvuto.payments.booking.v1"@
            &&& event.payload.external_reference == hold.external_reference
            &&& event.payload.booking_reference == hold.booking_reference
            &&& event.payload.state == hold.state
            &&& event.payload.amount == hold.amount
            &&& event.payload.currency == hold.currency
            &&& event.payload.captured_amount == hold.captured_amount
            &&& event.payload.refunded_amount == hold.refunded_amount
            &&& event.payload.occurred_at == hold.updated_at
        }),
{
}

/// A row keeps each field of its hold, and is read as the hold that it keeps. A row is
/// read exactly where its state goes by a name.
pub proof fn rows_keep_the_hold(hold: HoldModel, row: RowModel)
    ensures
        keeps(row_of(hold), hold),
        hold_of(row) is Ok ==> keeps(row, hold_of(row)->Ok_0),
        keeps(row, hold) ==> hold_of(row) == Ok::<HoldModel, LifecycleError>(hold),
        hold_of(row) is Err ==> {
            &&& hold_of(row)->Err_0 == LifecycleError::InvalidState
            &&& forall|s: HoldState| !#[trigger] is_named(s, row.state)
        },
{
    names_tell_states_apart(hold.state, hold.state, row_of(hold).state);
    names_tell_states_apart(hold.state, hold.state, row.state);
    other_names_are_refused(row.state);
    if state_of_text(row.state) is Ok {
        let state = state_of_text(row.state)->Ok_0;
        names_tell_states_apart(state, state, row.state);
    }
}

/// What a lookup comes to: the hold that the row keeps, a missing reference where there
/// is no row, and a conflict where the state of the row goes by no name.
pub proof fn lookups_find_the_hold(row: RowModel, hold: HoldModel)
    ensures
        keeps(row, hold) ==> lookup_outcome(Some(row)) == Ok::<HoldModel, ErrorModel>(hold),
        lookup_outcome(Some(row)) is Ok ==> keeps(row, lookup_outcome(Some(row))->Ok_0),
        lookup_outcome(Some(row)) is Err ==> says(
            lookup_outcome(Some(row))->Err_0,
            409,
            "INVALID_PAYMENT_STATE"@,
            "operation is not valid in the current payment state"@,
        ),
        lookup_outcome(None) is Err,
        says(
            lookup_outcome(None)->Err_0,
            404,
            "PAYMENT_NOT_FOUND"@,
            "Payment reference not found"@,
        ),
{
    rows_keep_the_hold(hold, row);
}

/// How a request that the lifecycle refuses is answered.
pub proof fn refusals_say_why(e: LifecycleError)
    ensures
        e == LifecycleError::MissingTenant ==> says(
            refusal(e),
            400,
            "INVALID_REQUEST"@,
            "tenant is required"@,
        ),
        e == LifecycleError::MissingBookingReference ==> says(
            refusal(e),
            400,
            "INVALID_REQUEST"@,
            "booking reference is required"@,
        ),
        e == LifecycleError::MissingIdempotencyKey ==> says(
            refusal(e),
            400,
            "INVALID_REQUEST"@,
            "idempotency key is required"@,
        ),
        e == LifecycleError::InvalidAmount ==> says(
            refusal(e),
            400,
            "INVALID_REQUEST"@,
            "amount must be positive"@,
        ),
        e == LifecycleError::InvalidCurrency ==> says(
            refusal(e),
            400,
            "INVALID_REQUEST"@,
            "currency must be a three-letter ISO code"@,
        ),
        e == LifecycleError::AlreadyCaptured ==> says(
            refusal(e),
            409,
            "ALREADY_CAPTURED"@,
            "payment hold has already been captured"@,
        ),
        e == LifecycleError::AlreadyReleased ==> says(
            refusal(e),
            409,
            "ALREADY_RELEASED"@,
            "payment hold has already been released"@,
        ),
        e == LifecycleError::AlreadyRefunded ==> says(
            refusal(e),
            409,
            "ALREADY_REFUNDED"@,
            "payment hold has already been fully refunded"@,
        ),
        e == LifecycleError::Declined ==> says(
            refusal(e),
            402,
            "PAYMENT_DECLINED"@,
            "payment authorization was declined"@,
        ),
        e == LifecycleError::Expired ==> says(
            refusal(e),
            410,
            "PAYMENT_EXPIRED"@,
            "payment authorization has expired"@,
        ),
        e == LifecycleError::RefundExceedsCaptured ==> says(
            refusal(e),
            409,
            "REFUND_EXCEEDS_CAPTURED"@,
            "refund exceeds captured balance"@,
        ),
        e == LifecycleError::InvalidState ==> says(
            refusal(e),
            409,
            "INVALID_PAYMENT_STATE"@,
            "operation is not valid in the current payment state"@,
        ),
        e == LifecycleError::IdempotencyConflict ==> says(
            refusal(e),
            409,
            "IDEMPOTENCY_CONFLICT"@,
            "idempotency key was reused with a different operation or payload"@,
        ),
        error_message(e) == refusal(e).message,
{
}

/// A hold that could not be inserted is a conflict exactly where the database says that
/// its booking has one already.
pub proof fn insertions_fail_by_their_code(code: Option<Seq<char>>)
    ensures
        code == Some("23505"@) ==> says(
            insert_failure(code),
            409,
            "BOOKING_PAYMENT_ALREADY_EXISTS"@,
            "A payment hold already exists for this booking"@,
        ),
        code != Some("23505"@) ==> says(
            insert_failure(code),
            503,
            "PAYMENTS_UNAVAILABLE"@,
            "Payments persistence unavailable"@,
        ),
{
}

/// A request is answered from the record where operation and fingerprint are the same:
/// with each field of the stored response, and marked as replayed. It is refused where
/// one of them differs, whatever is stored.
pub proof fn records_are_replayed_as_stored(
    prior: PriorModel,
    operation: Seq<char>,
    fingerprint: Seq<char>,
)
    ensures
        ({
            let r = replay_outcome(Some(prior), operation, fingerprint);
            let same = prior.operation == operation && prior.fingerprint == fingerprint;
            let stored = prior.response->0;
            let answer = r->Ok_0->0;
            &&& replay_outcome(None, operation, fingerprint) == Ok::<
                Option<ResponseModel>,
                ErrorModel,
            >(None)
            &&& r is Ok <==> same && prior.response is Some
            &&& r is Ok ==> {
                &&& r->Ok_0 is Some
                &&& answer.replayed
                &&& answer.contract_version == stored.contract_version
                &&& answer.external_reference == stored.external_reference
                &&& answer.booking_reference == stored.booking_reference
                &&& answer.amount == stored.amount
                &&& answer.currency == stored.currency
                &&& answer.captured_amount == stored.captured_amount
                &&& answer.refunded_amount == stored.refunded_amount
                &&& answer.state == stored.state
            }
            &&& !same ==> says(
                r->Err_0,
                409,
                "IDEMPOTENCY_CONFLICT"@,
                "idempotency key was reused with a different operation or payload"@,
            )
            &&& same && prior.response is None ==> says(
                r->Err_0,
                500,
                "CORRUPT_IDEMPOTENCY_RECORD"@,
                "Stored idempotency response is invalid"@,
            )
        }),
{
}

/// What identifies a request to open a hold is made of the trimmed booking reference, the
/// amount as text and the trimmed currency in capitals, with bars between them.
pub proof fn authorize_fingerprints_are_made_of_the_request(request: AuthorizeModel)
    ensures
        ({
            let booking = text::trimmed(request.booking_reference);
            let amount = request.amount.text();
            let given = text::trimmed(request.currency);
            let n = booking.len() as int;
            let m = n + 1 + amount.len();
            let f = fingerprint_of_authorize(request);
            &&& f.len() == booking.len() + amount.len() + given.len() + 2
            &&& f.take(n) == booking
            &&& f[n] == '|'
            &&& f.subrange(n + 1, m) == amount
            &&& f[m] == '|'
            &&& forall|i: int|
                0 <= i < given.len() ==> {
                    &&& 97 <= given[i] as u32 <= 122 ==> #[trigger] f.skip(m + 1)[i] as u32 + 32
                        == given[i] as u32
                    &&& !(97 <= given[i] as u32 <= 122) ==> f.skip(m + 1)[i] == given[i]
                }
        }),
{
    reveal_strlit("|");
    let booking = text::trimmed(request.booking_reference);
    let amount = request.amount.text();
    let given = text::trimmed(request.currency);
    let n = booking.len() as int;
    let m = n + 1 + amount.len();
    let f = fingerprint_of_authorize(request);
    let code = text::ascii_upper(given);
    assert(f.take(n) =~= booking);
    assert(f.subrange(n + 1, m) =~= amount);
    assert(f.skip(m + 1) =~= code);
    assert forall|i: int| 0 <= i < given.len() implies {
        &&& 97 <= given[i] as u32 <= 122 ==> #[trigger] f.skip(m + 1)[i] as u32 + 32
            == given[i] as u32
        &&& !(97 <= given[i] as u32 <= 122) ==> f.skip(m + 1)[i] == given[i]
    } by {
        text::cases_keep_places(given, i);
        assert(f.skip(m + 1)[i] == code[i]);
    }
}

/// What identifies a request on a hold is its reference, as it is, and, exactly where it
/// names an amount, a bar and the amount as text.
pub proof fn mutation_fingerprints_are_made_of_the_request(
    reference: Seq<char>,
    amount: DecimalModel,
)
    ensures
        fingerprint_of_mutation(reference, None) == reference,
        ({
            let f = fingerprint_of_mutation(reference, Some(amount));
            &&& f.take(reference.len() as int) == reference
            &&& f[reference.len() as int] == '|'
            &&& f.skip(reference.len() as int + 1) == amount.text()
        }),
{
    reveal_strlit("|");
    let f = fingerprint_of_mutation(reference, Some(amount));
    assert(f.take(reference.len() as int) =~= reference);
    assert(f.skip(reference.len() as int + 1) =~= amount.text());
}

proof fn lemma_operations_differ()
    ensures
        "capture"@ != "release"@,
        "capture"@ != "refund"@,
        "release"@ != "refund"@,
{
    reveal_strlit("capture");
    reveal_strlit("release");
    reveal_strlit("refund");
    assert("capture"@[0] == 'c' && "release"@[0] == 'r');
    assert("capture"@.len() == 7 && "release"@.len() == 7 && "refund"@.len() == 6);
}

/// Each operation does what its name says, and an operation of any other name, or a refund
/// without an amount, does nothing. A receipt is for what is refunded, or else for the
/// whole amount.
pub proof fn operations_do_what_they_are_called(
    hold: HoldModel,
    operation: Seq<char>,
    amount: Option<DecimalModel>,
    now: Timestamp,
)
    ensures
        ({
            let r = operation_outcome(hold, operation, amount, now);
            &&& operation == "capture"@ ==> r == Some(hold.capture(now)) && operation_amount(
                hold,
                operation,
                amount,
            ) == hold.amount
            &&& operation == "release"@ ==> r == Some(hold.release(now)) && operation_amount(
                hold,
                operation,
                amount,
            ) == hold.amount
            &&& operation == "refund"@ && amount is Some ==> r == hold.refund(amount->0, now)
                && operation_amount(hold, operation, amount) == amount->0
            &&& operation == "refund"@ && amount is None ==> r == Some(
                Err::<HoldModel, LifecycleError>(LifecycleError::InvalidAmount),
            )
            &&& operation != "capture"@ && operation != "release"@ && operation != "refund"@
                ==> r == Some(Err::<HoldModel, LifecycleError>(LifecycleError::InvalidState))
        }),
{
    lemma_operations_differ();
}

/// The type of an event names the operation and, for a refund, whether it left something
/// to refund.
pub proof fn event_types_name_the_operation(operation: Seq<char>, state: HoldState)
    ensures
        event_type_of("capture"@, state) == "nvuto.payments.booking.hold.captured.v1"@,
        event_type_of("release"@, state) == "nvuto.payments.booking.hold.released.v1"@,
        state == HoldState::Refunded ==> event_type_of("refund"@, state)
            == "nvuto.payments.booking.payment.refunded.v1"@,
        state != HoldState::Refunded ==> event_type_of("refund"@, state)
            == "nvuto.payments.booking.payment.partially_refunded.v1"@,
        operation != "capture"@ && operation != "release"@ && operation != "refund"@
            ==> event_type_of(operation, state) == "nvuto.payments.booking.payment.changed.v1"@,
{
    lemma_operations_differ();
}

/// The bytes of a header value are read as text exactly where each is a tab or printable
/// ASCII, and each byte is then the character with its number.
pub proof fn visible_bytes_are_their_characters(bytes: Seq<u8>)
    ensures
        visible_chars(bytes) is Some <==> forall|i: int|
            0 <= i < bytes.len() ==> (#[trigger] bytes[i] == 9 || 32 <= bytes[i] <= 126),
        visible_chars(bytes) is Some ==> {
            &&& visible_chars(bytes)->0.len() == bytes.len()
            &&& forall|i: int|
                0 <= i < bytes.len() ==> #[trigger] visible_chars(bytes)->0[i] as u32 == bytes[i]
        },
{
    if visible_chars(bytes) is Some {
        assert forall|i: int| 0 <= i < bytes.len() implies (#[trigger] bytes[i] == 9 || 32
            <= bytes[i] <= 126) by {
            assert(is_visible(bytes[i]));
        }
    }
}

/// A header is read under its name in small letters, and trimmed; one that is missing, or
/// that cannot be read, counts as empty.
pub proof fn headers_are_read_by_name(headers: axum::http::HeaderMap, name: Seq<char>)
    ensures
        ({
            let key = text::ascii_lower(name);
            let fields = header_fields(headers);
            &&& fields.contains_key(key) && visible_chars(fields[key]) is Some ==> {
                &&& header_chars(headers, name) == visible_chars(fields[key])
                &&& trimmed_header(headers, name) == text::trimmed(visible_chars(fields[key])->0)
            }
            &&& !fields.contains_key(key) || visible_chars(fields[key]) is None ==> {
                &&& header_chars(headers, name) is None
                &&& trimmed_header(headers, name).len() == 0
            }
        }),
{
}

/// A token follows `Bearer` or `bearer` and a space, with white space around either of
/// them dropped. There is none where the text starts otherwise, or where nothing but
/// white space follows.
pub proof fn tokens_follow_the_word(raw: Seq<char>, rest: Seq<char>)
    ensures
        text::trimmed(raw) == "Bearer "@ + rest || text::trimmed(raw) == "bearer "@ + rest ==> {
            &&& token_in(raw) is Some <==> !text::is_blank(rest)
            &&& token_in(raw) is Some ==> token_in(raw)->0 == text::trimmed(rest)
        },
        token_in(raw) is Some ==> {
            let t = text::trimmed(raw);
            &&& t.len() > 7
            &&& t[0] == 'B' || t[0] == 'b'
            &&& t[1] == 'e' && t[2] == 'a' && t[3] == 'r' && t[4] == 'e' && t[5] == 'r' && t[6]
                == ' '
            &&& token_in(raw)->0 == text::trimmed(t.skip(7))
            &&& token_in(raw)->0.len() > 0
        },
{
    reveal_strlit("Bearer ");
    reveal_strlit("bearer ");
    let t = text::trimmed(raw);
    text::prefixes_are_split_off(t, "Bearer "@, rest);
    text::prefixes_are_split_off(t, "bearer "@, rest);
    text::blank_texts_trim_to_nothing(rest);
    assert(("Bearer "@ + rest)[0] == 'B');
    assert(("bearer "@ + rest)[0] == 'b');
    if token_in(raw) is Some {
        if text::after_prefix(t, "Bearer "@) is Some {
            let r = text::after_prefix(t, "Bearer "@)->0;
            text::prefixes_are_split_off(t, "Bearer "@, r);
            assert(r =~= t.skip(7));
            text::blank_texts_trim_to_nothing(r);
            assert(r.len() > 0) by {
                if r.len() == 0 {
                    assert(text::is_blank(r));
                }
            }
        } else {
            let r = text::after_prefix(t, "bearer "@)->0;
            text::prefixes_are_split_off(t, "bearer "@, r);
            assert(r =~= t.skip(7));
            text::blank_texts_trim_to_nothing(r);
            assert(r.len() > 0) by {
                if r.len() == 0 {
                    assert(text::is_blank(r));
                }
            }
        }
    }
}

/// The identity service is asked at its address without slashes at the end, under this
/// path.
pub proof fn the_identity_service_is_asked_under_its_path(base: Seq<char>, slashes: Seq<char>)
    requires
        base.len() > 0 ==> base.last() != '/',
        forall|i: int| 0 <= i < slashes.len() ==> #[trigger] slashes[i] == '/',
    ensures
        introspection_url(base + slashes) == base + "/api/v1/auth/introspect"@,
{
    let s = base + slashes;
    let k = text::trailing_characters_are_dropped(s, '/');
    let n = base.len() as int;
    if k < n {
        assert(s[n - 1] == base.last());
    }
    if k > n {
        assert(s[k - 1] == slashes[k - 1 - n]);
    }
    assert(s.take(n) =~= base);
}

/// What the identity service is asked: about the token of the request, with the
/// correlation of the request where it has one. A request without a token is refused.
pub proof fn the_identity_service_is_asked_about_the_token(
    headers: axum::http::HeaderMap,
    identity_url: Seq<char>,
)
    ensures
        ({
            let r = call_outcome(headers, identity_url);
            let raw = header_chars(headers, "authorization"@);
            let correlation = trimmed_header(headers, "x-correlation-id"@);
            &&& r is Ok <==> raw is Some && token_in(raw->0) is Some
            &&& bearer_of(headers) is Some <==> raw is Some && token_in(raw->0) is Some
            &&& r is Ok ==> {
                &&& bearer_of(headers) == token_in(raw->0)
                &&& r->Ok_0.token == token_in(raw->0)->0
                &&& r->Ok_0.url == introspection_url(identity_url)
                &&& r->Ok_0.correlation is Some <==> correlation.len() > 0
                &&& correlation.len() > 0 ==> r->Ok_0.correlation->0 == correlation
            }
            &&& r is Err ==> says(
                r->Err_0,
                401,
                "MISSING_WORKLOAD_TOKEN"@,
                "Bearer workload token required"@,
            )
        }),
{
}

/// A sender is known exactly where the identity service answers with an active identity
/// that names a subject and a tenant, and whose expiry, where it has one, is still to
/// come. The identity is then handed on as it is.
pub proof fn senders_are_known_by_their_identity(identity: IdentityModel, now: i64)
    ensures
        ({
            let r = identity_outcome(Some(identity), now);
            let good = identity.active && !text::is_blank(identity.subject) && !text::is_blank(
                identity.tenant,
            ) && (identity.exp <= 0 || now < identity.exp);
            &&& is_good(identity, now) <==> good
            &&& r is Ok <==> good
            &&& r is Ok ==> r->Ok_0 == identity
            &&& r is Err ==> says(
                r->Err_0,
                401,
                "INVALID_WORKLOAD_TOKEN"@,
                "Inactive or incomplete workload identity"@,
            )
            &&& identity_outcome(None, now) is Err
            &&& says(
                identity_outcome(None, now)->Err_0,
                503,
                "IDENTITY_UNAVAILABLE"@,
                "Malformed Platform identity response"@,
            )
        }),
{
    text::blank_texts_trim_to_nothing(identity.subject);
    text::blank_texts_trim_to_nothing(identity.tenant);
}

/// The models of answers show each of their fields.
pub proof fn answers_are_seen_as_they_are(response: HoldResponse, e: ApiError)
    ensures
        response@.contract_version == response.contract_version@,
        response@.external_reference == response.external_reference@,
        response@.booking_reference == response.booking_reference@,
        response@.amount == response.amount@,
        response@.currency == response.currency@,
        response@.captured_amount == response.captured_amount@,
        response@.refunded_amount == response.refunded_amount@,
        response@.state == response.state,
        response@.replayed == response.replayed,
        e@.status == e.status,
        e@.code == e.code@,
        e@.message == e.message@,
{
}

/// The models of rows show each of their fields.
pub proof fn rows_are_seen_as_they_are(row: HoldRow, prior: PriorRow, name: Option<String>)
    ensures
        row@.id == row.id,
        row@.tenant_id == row.tenant_id@,
        row@.external_reference == row.external_reference@,
        row@.booking_reference == row.booking_reference@,
        row@.amount == row.amount@,
        row@.currency == row.currency@,
        row@.captured_amount == row.captured_amount@,
        row@.refunded_amount == row.refunded_amount@,
        row@.state == row.state@,
        row@.created_at == row.created_at,
        row@.updated_at == row.updated_at,
        prior@.operation == prior.operation@,
        prior@.fingerprint == prior.fingerprint@,
        prior@.response is Some <==> prior.response is Some,
        prior.response is Some ==> prior@.response->0 == prior.response->0@,
        optional_row(Some(row)) == Some(row@),
        optional_row(None) is None,
        optional_prior(Some(prior)) == Some(prior@),
        optional_prior(None) is None,
        optional_text(name) is Some <==> name is Some,
        name is Some ==> optional_text(name)->0 == name->0@,
{
}

/// The models of events show each of their fields.
pub proof fn events_are_seen_as_they_are(event: OutboxEvent, payload: EventPayload)
    ensures
        event@.id == event.id,
        event@.tenant_id == event.tenant_id@,
        event@.aggregate_reference == event.aggregate_reference@,
        event@.event_type == event.event_type@,
        event@.payload == event.payload@,
        event@.correlation_id == event.correlation_id@,
        event@.causation_id == event.causation_id@,
        payload@.contract_version == payload.contract_version@,
        payload@.external_reference == payload.external_reference@,
        payload@.booking_reference == payload.booking_reference@,
        payload@.state == payload.state,
        payload@.amount == payload.amount@,
        payload@.currency == payload.currency@,
        payload@.captured_amount == payload.captured_amount@,
        payload@.refunded_amount == payload.refunded_amount@,
        payload@.occurred_at == payload.occurred_at,
{
}

/// The models of what a request asks and of who sends it show each of their fields.
pub proof fn senders_and_requests_are_seen_as_they_are(
    request: AuthorizeRequest,
    identity: Introspection,
    call: IntrospectionCall,
)
    ensures
        request@.booking_reference == request.booking_reference@,
        request@.amount == request.amount@,
        request@.currency == request.currency@,
        identity@.active == identity.active,
        identity@.subject == identity.subject@,
        identity@.tenant == identity.tenant@,
        identity@.exp == identity.exp,
        optional_identity(Some(identity)) == Some(identity@),
        optional_identity(None) is None,
        call@.url == call.url@,
        call@.token == call.token@,
        call@.correlation is Some <==> call.correlation is Some,
        call.correlation is Some ==> call@.correlation->0 == call.correlation->0@,
{
}

} // verus!
