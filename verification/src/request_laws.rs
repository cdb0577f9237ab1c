//! What becomes of a request at each stage, told by what the service was told and what it
//! then does.

use vstd::prelude::*;

use crate::bookings_contract::{HoldState, LifecycleError};
use crate::clock::Timestamp;
use crate::decimal::{decimal_difference, decimal_sum, optional, DecimalModel};
use crate::flow::{
    Action, ActionModel, Claim, ClaimModel, Event, EventModel, Flow, FlowModel, Request,
    RequestModel, Stage, StageModel, Step, StepModel,
};
use crate::headers::{header_chars, token_in, trimmed_header};
use crate::hold_laws;
use crate::identity::{introspection_url, optional_identity, IdentityModel};
use crate::operations::{AuthorizeModel, AuthorizeRequest};
use crate::replies::{ErrorModel, ResponseModel};
use crate::runs::written_row;
use crate::service_laws;
use crate::service_laws::{is_named, says, shows, tells};
use crate::storage::{
    hold_of, optional_prior, optional_row, optional_text, row_of, state_of_text, PriorModel,
    RowModel,
};
use crate::text;

verus! {

/// Whether a request ends by being refused, with this status, code and sentence.
pub open spec fn is_refused(
    step: StepModel,
    status: u16,
    code: Seq<char>,
    message: Seq<char>,
) -> bool {
    &&& step.flow.stage is Finished
    &&& step.action is Refuse
    &&& says(step.action->Refuse_0, status, code, message)
}

/// Whether two rows are of the same hold: all that an operation leaves as it is agrees.
pub open spec fn same_terms(written: RowModel, found: RowModel) -> bool {
    &&& written.id == found.id
    &&& written.tenant_id == found.tenant_id
    &&& written.external_reference == found.external_reference
    &&& written.booking_reference == found.booking_reference
    &&& written.amount == found.amount
    &&& written.currency == found.currency
    &&& written.created_at == found.created_at
}

/// A request starts by asking the identity service about its token, under the key,
/// correlation and causation that its headers carry. Without a token it is refused.
pub proof fn requests_start_with_their_token(
    request: RequestModel,
    headers: axum::http::HeaderMap,
    identity_url: Seq<char>,
)
    ensures
        ({
            let step = FlowModel::start(request, headers, identity_url);
            let raw = header_chars(headers, "authorization"@);
            let key = trimmed_header(headers, "idempotency-key"@);
            let correlation = trimmed_header(headers, "x-correlation-id"@);
            let call = step.action->Introspect_0;
            &&& step.flow.request == request
            &&& step.flow.correlation == correlation
            &&& step.flow.causation == trimmed_header(headers, "x-causation-id"@)
            &&& key.len() > 0 ==> step.flow.key == Ok::<Seq<char>, ErrorModel>(key)
            &&& key.len() == 0 ==> step.flow.key is Err && says(
                step.flow.key->Err_0,
                400,
                "INVALID_REQUEST"@,
                "idempotency key is required"@,
            )
            &&& raw is Some && token_in(raw->0) is Some ==> {
                &&& step.flow.stage is Introspecting
                &&& step.action is Introspect
                &&& call.token == token_in(raw->0)->0
                &&& call.url == introspection_url(identity_url)
                &&& call.correlation is Some <==> correlation.len() > 0
                &&& correlation.len() > 0 ==> call.correlation->0 == correlation
            }
            &&& raw is None || token_in(raw->0) is None ==> is_refused(
                step,
                401,
                "MISSING_WORKLOAD_TOKEN"@,
                "Bearer workload token required"@,
            )
        }),
{
    service_laws::the_identity_service_is_asked_about_the_token(headers, identity_url);
    service_laws::refusals_say_why(LifecycleError::MissingIdempotencyKey);
}

/// The identity service's answer is read exactly where it has the status of success; any
/// other status, and no answer at all, end the request as a failure of that service.
pub proof fn only_successful_answers_are_read(
    flow: FlowModel,
    status: u16,
    now: Timestamp,
    fresh: u128,
)
    requires
        flow.stage is Introspecting,
    ensures
        is_refused(
            flow.step(EventModel::Unreachable, now, fresh),
            503,
            "IDENTITY_UNAVAILABLE"@,
            "Platform identity service unavailable"@,
        ),
        ({
            let step = flow.step(EventModel::IdentityStatus(status), now, fresh);
            &&& status == 200 ==> step.action is ReadIdentity && step.flow.stage is ReadingIdentity
            &&& status != 200 ==> is_refused(
                step,
                503,
                "IDENTITY_UNAVAILABLE"@,
                "Platform identity service rejected introspection"@,
            )
        }),
{
}

/// A sender is let in exactly where its identity is active, names a subject and a tenant,
/// and is not past its expiry.
pub proof fn senders_are_let_in_by_their_identity(
    flow: FlowModel,
    identity: IdentityModel,
    now: Timestamp,
    fresh: u128,
)
    requires
        flow.stage is ReadingIdentity,
    ensures
        is_refused(
            flow.step(EventModel::Identity(None), now, fresh),
            503,
            "IDENTITY_UNAVAILABLE"@,
            "Malformed Platform identity response"@,
        ),
        ({
            let step = flow.step(EventModel::Identity(Some(identity)), now, fresh);
            let good = identity.active && !text::is_blank(identity.subject) && !text::is_blank(
                identity.tenant,
            ) && (identity.exp <= 0 || now.seconds < identity.exp);
            &&& !good ==> is_refused(
                step,
                401,
                "INVALID_WORKLOAD_TOKEN"@,
                "Inactive or incomplete workload identity"@,
            )
            &&& good && flow.request is Status ==> {
                &&& step.flow.stage is Finding
                &&& step.action == (ActionModel::FindHold {
                    tenant: identity.tenant,
                    reference: flow.request->Status_reference,
                })
            }
            &&& good && flow.request !is Status && flow.key is Err ==> {
                &&& step.flow.stage is Finished
                &&& step.action == ActionModel::Refuse(flow.key->Err_0)
            }
            &&& good && flow.request !is Status && flow.key is Ok ==> {
                let claim = step.flow.stage->Beginning_claim;
                &&& step.action is Begin
                &&& step.flow.stage is Beginning
                &&& claim.tenant == identity.tenant
                &&& claim.record.key == flow.key->Ok_0
            }
        }),
{
    service_laws::senders_are_known_by_their_identity(identity, now.seconds);
}

/// An authorization is claimed as one, under what it is made of: the trimmed booking
/// reference, the amount as text and the trimmed currency in capitals, with bars between
/// them.
pub proof fn authorizations_claim_what_they_ask_for(
    flow: FlowModel,
    request: AuthorizeModel,
    event: EventModel,
    now: Timestamp,
    fresh: u128,
)
    requires
        flow.stage is ReadingIdentity,
        flow.request == RequestModel::Authorize(request),
        flow.step(event, now, fresh).flow.stage is Beginning,
    ensures
        ({
            let record = flow.step(event, now, fresh).flow.stage->Beginning_claim.record;
            let booking = text::trimmed(request.booking_reference);
            let amount = request.amount.text();
            let given = text::trimmed(request.currency);
            let n = booking.len() as int;
            let m = n + 1 + amount.len();
            let f = record.fingerprint;
            &&& record.operation == "authorize"@
            &&& f.len() == booking.len() + amount.len() + given.len() + 2
            &&& f.take(n) == booking
            &&& f[n] == '|'
            &&& f.subrange(n + 1, m) == amount
            &&& f[m] == '|'
            &&& forall|i: int|
                0 <= i < given.len() ==> {
                    &&& 97 <= given[i] as u32 <= 122 ==> #[trigger] f.skip(m + 1)[i] as u32 + 32
                        == given[i] as u32
                    &&& !(97 <= given[i] as u32 <= 122) ==> f.skip(m + 1)[i] == given[i]
                }
        }),
{
    service_laws::authorize_fingerprints_are_made_of_the_request(request);
}

/// A request on a hold is claimed under its operation and its reference, and, exactly
/// where it names an amount, a bar and the amount as text.
pub proof fn operations_claim_what_they_ask_for(
    flow: FlowModel,
    event: EventModel,
    now: Timestamp,
    fresh: u128,
)
    requires
        flow.stage is ReadingIdentity,
        flow.request is Mutate,
        flow.step(event, now, fresh).flow.stage is Beginning,
    ensures
        ({
            let record = flow.step(event, now, fresh).flow.stage->Beginning_claim.record;
            let reference = flow.request->Mutate_reference;
            let amount = flow.request->Mutate_refund_amount;
            let f = record.fingerprint;
            &&& record.operation == flow.request->Mutate_operation
            &&& amount is None ==> f == reference
            &&& amount is Some ==> {
                &&& f.take(reference.len() as int) == reference
                &&& f[reference.len() as int] == '|'
                &&& f.skip(reference.len() as int + 1) == amount->0.text()
            }
        }),
{
    let reference = flow.request->Mutate_reference;
    if flow.request->Mutate_refund_amount is Some {
        service_laws::mutation_fingerprints_are_made_of_the_request(
            reference,
            flow.request->Mutate_refund_amount->0,
        );
    }
}

/// A claim is handed on as it is from stage to stage, until the request is put on record
/// under it.
pub proof fn claims_are_handed_on(
    flow: FlowModel,
    event: EventModel,
    now: Timestamp,
    fresh: u128,
)
    ensures
        ({
            let step = flow.step(event, now, fresh);
            let next = step.flow.stage;
            &&& flow.stage is Beginning && event is Done ==> {
                let claim = flow.stage->Beginning_claim;
                &&& next == (StageModel::Matching { claim })
                &&& step.action == (ActionModel::FindPrior {
                    tenant: claim.tenant,
                    key: claim.record.key,
                })
            }
            &&& flow.stage is Matching && next is Loading ==> next->Loading_claim
                == flow.stage->Matching_claim
            &&& flow.stage is Matching && next is Writing ==> next->Writing_claim
                == flow.stage->Matching_claim
            &&& flow.stage is Loading && next is Writing ==> next->Writing_claim
                == flow.stage->Loading_claim
            &&& flow.stage is Writing && next is Emitting ==> next->Emitting_claim
                == flow.stage->Writing_claim
            &&& flow.stage is Emitting && event is Done ==> step.action == (ActionModel::Store {
                tenant: flow.stage->Emitting_claim.tenant,
                record: flow.stage->Emitting_claim.record,
                response: flow.stage->Emitting_response,
            })
        }),
{
}

/// A request under a key that is on record is answered from the record where operation and
/// fingerprint are the same: first the transaction is committed, and then the answer has
/// the status of success and each field of the stored response, marked as replayed. Where
/// one of them differs it is refused as a conflict.
pub proof fn requests_on_record_are_answered_from_it(
    flow: FlowModel,
    claim: ClaimModel,
    prior: PriorModel,
    now: Timestamp,
    fresh: u128,
    later: Timestamp,
    other: u128,
)
    requires
        flow.stage == (StageModel::Matching { claim }),
    ensures
        ({
            let step = flow.step(EventModel::Prior(Some(prior)), now, fresh);
            let last = step.flow.step(EventModel::Done, later, other);
            let same = prior.operation == claim.record.operation && prior.fingerprint
                == claim.record.fingerprint;
            let stored = prior.response->0;
            let answer = last.action->Answer_response;
            &&& same && prior.response is Some ==> {
                &&& step.action is Commit
                &&& step.flow.stage is Replaying
                &&& last.flow.stage is Finished
                &&& last.action is Answer
                &&& last.action->Answer_status == 200
                &&& answer.replayed
                &&& answer.contract_version == stored.contract_version
                &&& answer.external_reference == stored.external_reference
                &&& answer.booking_reference == stored.booking_reference
                &&& answer.amount == stored.amount
                &&& answer.currency == stored.currency
                &&& answer.captured_amount == stored.captured_amount
                &&& answer.refunded_amount == stored.refunded_amount
                &&& answer.state == stored.state
            }
            &&& !same ==> is_refused(
                step,
                409,
                "IDEMPOTENCY_CONFLICT"@,
                "idempotency key was reused with a different operation or payload"@,
            )
            &&& same && prior.response is None ==> is_refused(
                step,
                500,
                "CORRUPT_IDEMPOTENCY_RECORD"@,
                "Stored idempotency response is invalid"@,
            )
        }),
{
    service_laws::records_are_replayed_as_stored(
        prior,
        claim.record.operation,
        claim.record.fingerprint,
    );
}

/// An authorization under a new key inserts a hold exactly where it has the right form.
/// The row carries what was asked for, for the tenant of the sender, under the fresh
/// identifier, with nothing captured or refunded.
pub proof fn authorizations_insert_what_they_ask_for(
    flow: FlowModel,
    claim: ClaimModel,
    request: AuthorizeModel,
    now: Timestamp,
    fresh: u128,
)
    requires
        flow.stage == (StageModel::Matching { claim }),
        flow.request == RequestModel::Authorize(request),
    ensures
        ({
            let step = flow.step(EventModel::Prior(None), now, fresh);
            let row = step.action->InsertHold_0;
            let given = text::trimmed(request.currency);
            let form = {
                &&& given.len() == 3
                &&& forall|i: int|
                    0 <= i < 3 ==> (65 <= #[trigger] given[i] as u32 <= 90 || 97 <= given[i] as u32
                        <= 122)
            };
            let tenant_given = !text::is_blank(claim.tenant);
            let booking_given = !text::is_blank(request.booking_reference);
            &&& step.action is InsertHold <==> tenant_given && booking_given && 0
                < request.amount.value() && form
            &&& step.action is InsertHold ==> {
                &&& step.flow.stage is Writing
                &&& row.id == fresh
                &&& row.tenant_id == text::trimmed(claim.tenant)
                &&& row.booking_reference == text::trimmed(request.booking_reference)
                &&& row.amount == request.amount
                &&& row.currency == text::ascii_upper(given)
                &&& row.captured_amount.value() == 0
                &&& row.refunded_amount.value() == 0
                &&& row.state == "AUTHORIZED"@
                &&& row.created_at == now
                &&& row.updated_at == now
            }
            &&& !tenant_given ==> is_refused(
                step,
                400,
                "INVALID_REQUEST"@,
                "tenant is required"@,
            )
            &&& tenant_given && !booking_given ==> is_refused(
                step,
                400,
                "INVALID_REQUEST"@,
                "booking reference is required"@,
            )
            &&& tenant_given && booking_given && request.amount.value() <= 0 ==> is_refused(
                step,
                400,
                "INVALID_REQUEST"@,
                "amount must be positive"@,
            )
            &&& tenant_given && booking_given && 0 < request.amount.value() && !form
                ==> is_refused(
                step,
                400,
                "INVALID_REQUEST"@,
                "currency must be a three-letter ISO code"@,
            )
        }),
{
    hold_laws::authorizations_are_accepted_by_form(
        claim.tenant,
        request.booking_reference,
        request.amount,
        request.currency,
    );
    hold_laws::authorizations_are_refused_in_order(
        claim.tenant,
        request.booking_reference,
        request.amount,
        request.currency,
    );
    hold_laws::opened_holds_carry_the_request(
        fresh,
        claim.tenant,
        request.booking_reference,
        request.amount,
        request.currency,
        now,
    );
}

/// A request on a hold under a new key looks up the hold that it names, of the tenant of
/// its sender.
pub proof fn operations_look_up_the_hold_they_name(
    flow: FlowModel,
    claim: ClaimModel,
    now: Timestamp,
    fresh: u128,
)
    requires
        flow.stage == (StageModel::Matching { claim }),
        flow.request is Mutate,
    ensures
        flow.step(EventModel::Prior(None), now, fresh).action == (ActionModel::LoadHold {
            tenant: claim.tenant,
            reference: flow.request->Mutate_reference,
        }),
        flow.step(EventModel::Prior(None), now, fresh).flow.stage is Loading,
{
}

/// A lookup that finds no hold, or one whose state goes by no name, ends the request.
pub proof fn unreadable_holds_end_the_request(
    flow: FlowModel,
    row: RowModel,
    now: Timestamp,
    fresh: u128,
)
    requires
        flow.stage is Finding || flow.stage is Loading,
    ensures
        is_refused(
            flow.step(EventModel::Row(None), now, fresh),
            404,
            "PAYMENT_NOT_FOUND"@,
            "Payment reference not found"@,
        ),
        (forall|s: HoldState| !#[trigger] is_named(s, row.state))
            ==> is_refused(
            flow.step(EventModel::Row(Some(row)), now, fresh),
            409,
            "INVALID_PAYMENT_STATE"@,
            "operation is not valid in the current payment state"@,
        ),
{
    service_laws::other_names_are_refused(row.state);
}

/// A request for the status of a hold is answered with each field of the row that was
/// found: what was captured as captured, what was refunded as refunded, and so on.
pub proof fn shown_holds_are_the_ones_found(
    flow: FlowModel,
    row: RowModel,
    now: Timestamp,
    fresh: u128,
)
    requires
        flow.stage is Finding,
        exists|s: HoldState| #[trigger] is_named(s, row.state),
    ensures
        ({
            let step = flow.step(EventModel::Row(Some(row)), now, fresh);
            &&& step.flow.stage is Finished
            &&& step.action is Answer
            &&& step.action->Answer_status == 200
            &&& shows(step.action->Answer_response, row)
            &&& !step.action->Answer_response.replayed
        }),
{
    let s = choose|s: HoldState| #[trigger] is_named(s, row.state);
    service_laws::names_tell_states_apart(s, s, row.state);
}

/// A request to capture a hold writes it exactly where it was found as authorized, at
/// whatever time: with its whole amount captured, and nothing else changed. In any other
/// state it is refused with that state's reason.
pub proof fn captures_write_the_whole_amount(
    flow: FlowModel,
    row: RowModel,
    now: Timestamp,
    fresh: u128,
)
    requires
        flow.stage is Loading,
        flow.request is Mutate,
        flow.request->Mutate_operation == "capture"@,
    ensures
        ({
            let step = flow.step(EventModel::Row(Some(row)), now, fresh);
            let written = step.action->UpdateHold_0;
            &&& step.action is UpdateHold <==> row.state == "AUTHORIZED"@
            &&& step.action is UpdateHold ==> {
                &&& step.flow.stage is Writing
                &&& same_terms(written, row)
                &&& written.captured_amount == row.amount
                &&& written.refunded_amount == row.refunded_amount
                &&& written.state == "CAPTURED"@
                &&& written.updated_at == now
            }
            &&& row.state == "CAPTURED"@ || row.state == "PARTIALLY_REFUNDED"@ || row.state
                == "REFUNDED"@ ==> is_refused(
                step,
                409,
                "ALREADY_CAPTURED"@,
                "payment hold has already been captured"@,
            )
            &&& row.state == "RELEASED"@ ==> is_refused(
                step,
                409,
                "ALREADY_RELEASED"@,
                "payment hold has already been released"@,
            )
            &&& row.state == "DECLINED"@ ==> is_refused(
                step,
                402,
                "PAYMENT_DECLINED"@,
                "payment authorization was declined"@,
            )
            &&& row.state == "EXPIRED"@ ==> is_refused(
                step,
                410,
                "PAYMENT_EXPIRED"@,
                "payment authorization has expired"@,
            )
        }),
{
    lemma_read_states(row.state);
}

/// A request to release a hold writes it exactly where it was found as authorized, at
/// whatever time: as released, and with nothing else changed. In any other state it is
/// refused with that state's reason.
pub proof fn releases_write_no_amount(
    flow: FlowModel,
    row: RowModel,
    now: Timestamp,
    fresh: u128,
)
    requires
        flow.stage is Loading,
        flow.request is Mutate,
        flow.request->Mutate_operation == "release"@,
    ensures
        ({
            let step = flow.step(EventModel::Row(Some(row)), now, fresh);
            let written = step.action->UpdateHold_0;
            &&& step.action is UpdateHold <==> row.state == "AUTHORIZED"@
            &&& step.action is UpdateHold ==> {
                &&& step.flow.stage is Writing
                &&& same_terms(written, row)
                &&& written.captured_amount == row.captured_amount
                &&& written.refunded_amount == row.refunded_amount
                &&& written.state == "RELEASED"@
                &&& written.updated_at == now
            }
            &&& row.state == "CAPTURED"@ || row.state == "PARTIALLY_REFUNDED"@ || row.state
                == "REFUNDED"@ ==> is_refused(
                step,
                409,
                "ALREADY_CAPTURED"@,
                "payment hold has already been captured"@,
            )
            &&& row.state == "RELEASED"@ ==> is_refused(
                step,
                409,
                "ALREADY_RELEASED"@,
                "payment hold has already been released"@,
            )
            &&& row.state == "DECLINED"@ ==> is_refused(
                step,
                402,
                "PAYMENT_DECLINED"@,
                "payment authorization was declined"@,
            )
            &&& row.state == "EXPIRED"@ ==> is_refused(
                step,
                410,
                "PAYMENT_EXPIRED"@,
                "payment authorization has expired"@,
            )
        }),
{
    lemma_read_states(row.state);
    service_laws::operations_do_what_they_are_called(
        hold_of(row)->Ok_0,
        "release"@,
        flow.request->Mutate_refund_amount,
        now,
    );
}

/// A request to refund an amount writes the hold exactly where the amount is positive, the
/// hold was found as captured or refunded in part, and the amount is no more than what was
/// captured less what was refunded: with the amount added to what is refunded, and nothing
/// else changed but the state, which is that of a full refund exactly where all that was
/// captured is refunded. Otherwise it is refused for the first thing that is wrong, and
/// ends without an answer only where it comes to a sum or a difference that is out of
/// range.
pub proof fn refunds_write_the_sum(
    flow: FlowModel,
    row: RowModel,
    amount: DecimalModel,
    now: Timestamp,
    fresh: u128,
)
    requires
        flow.stage is Loading,
        flow.request is Mutate,
        flow.request->Mutate_operation == "refund"@,
        flow.request->Mutate_refund_amount == Some(amount),
    ensures
        ({
            let step = flow.step(EventModel::Row(Some(row)), now, fresh);
            let written = step.action->UpdateHold_0;
            let left = decimal_difference(row.captured_amount, row.refunded_amount);
            let sum = decimal_sum(row.refunded_amount, amount);
            let rest = left->0;
            let total = sum->0;
            let open = row.state == "CAPTURED"@ || row.state == "PARTIALLY_REFUNDED"@;
            &&& step.action is UpdateHold <==> 0 < amount.value() && open && left is Some
                && amount.value() <= rest.value() && sum is Some
            &&& step.action is Abandon <==> 0 < amount.value() && open && (left is None || (
            amount.value() <= rest.value() && sum is None))
            &&& step.action is UpdateHold ==> {
                &&& step.flow.stage is Writing
                &&& same_terms(written, row)
                &&& written.captured_amount == row.captured_amount
                &&& written.refunded_amount == total
                &&& total.value() == row.captured_amount.value() ==> written.state == "REFUNDED"@
                &&& total.value() != row.captured_amount.value() ==> written.state
                    == "PARTIALLY_REFUNDED"@
                &&& written.updated_at == now
            }
            &&& amount.value() <= 0 && (exists|s: HoldState| #[trigger]
                is_named(s, row.state)) ==> is_refused(
                step,
                400,
                "INVALID_REQUEST"@,
                "amount must be positive"@,
            )
            &&& 0 < amount.value() ==> {
                &&& row.state == "REFUNDED"@ ==> is_refused(
                    step,
                    409,
                    "ALREADY_REFUNDED"@,
                    "payment hold has already been fully refunded"@,
                )
                &&& row.state == "DECLINED"@ ==> is_refused(
                    step,
                    402,
                    "PAYMENT_DECLINED"@,
                    "payment authorization was declined"@,
                )
                &&& row.state == "EXPIRED"@ ==> is_refused(
                    step,
                    410,
                    "PAYMENT_EXPIRED"@,
                    "payment authorization has expired"@,
                )
                &&& row.state == "AUTHORIZED"@ || row.state == "RELEASED"@ ==> is_refused(
                    step,
                    409,
                    "INVALID_PAYMENT_STATE"@,
                    "operation is not valid in the current payment state"@,
                )
                &&& open && left is Some && amount.value() > rest.value() ==> is_refused(
                    step,
                    409,
                    "REFUND_EXCEEDS_CAPTURED"@,
                    "refund exceeds captured balance"@,
                )
            }
        }),
{
    lemma_read_states(row.state);
    service_laws::operations_do_what_they_are_called(
        hold_of(row)->Ok_0,
        "refund"@,
        Some(amount),
        now,
    );
    if exists|s: HoldState| #[trigger] is_named(s, row.state) {
        let s = choose|s: HoldState| #[trigger] is_named(s, row.state);
        service_laws::names_tell_states_apart(s, s, row.state);
    }
}

/// An operation of another name, and a refund without an amount, write nothing.
pub proof fn other_operations_are_refused(
    flow: FlowModel,
    row: RowModel,
    now: Timestamp,
    fresh: u128,
)
    requires
        flow.stage is Loading,
        flow.request is Mutate,
        exists|s: HoldState| #[trigger] is_named(s, row.state),
    ensures
        ({
            let step = flow.step(EventModel::Row(Some(row)), now, fresh);
            let operation = flow.request->Mutate_operation;
            &&& operation == "refund"@ && flow.request->Mutate_refund_amount is None
                ==> is_refused(step, 400, "INVALID_REQUEST"@, "amount must be positive"@)
            &&& operation != "capture"@ && operation != "release"@ && operation != "refund"@
                ==> is_refused(
                step,
                409,
                "INVALID_PAYMENT_STATE"@,
                "operation is not valid in the current payment state"@,
            )
        }),
{
    let s = choose|s: HoldState| #[trigger] is_named(s, row.state);
    service_laws::names_tell_states_apart(s, s, row.state);
    service_laws::operations_do_what_they_are_called(
        hold_of(row)->Ok_0,
        flow.request->Mutate_operation,
        flow.request->Mutate_refund_amount,
        now,
    );
}

proof fn lemma_read_states(name: Seq<char>)
    ensures
        forall|s: HoldState|
            #![trigger is_named(s, name)]
            is_named(s, name) <==> state_of_text(name) == Ok::<
                HoldState,
                LifecycleError,
            >(s),
        name == "AUTHORIZED"@ <==> is_named(
            HoldState::Authorized,
            name,
        ),
        name == "CAPTURED"@ <==> is_named(HoldState::Captured, name),
        name == "RELEASED"@ <==> is_named(HoldState::Released, name),
        name == "PARTIALLY_REFUNDED"@ <==> is_named(
            HoldState::PartiallyRefunded,
            name,
        ),
        name == "REFUNDED"@ <==> is_named(HoldState::Refunded, name),
        name == "DECLINED"@ <==> is_named(HoldState::Declined, name),
        name == "EXPIRED"@ <==> is_named(HoldState::Expired, name),
{
    assert forall|s: HoldState|
        #![trigger is_named(s, name)]
        is_named(s, name) <==> state_of_text(name) == Ok::<
            HoldState,
            LifecycleError,
        >(s) by {
        service_laws::names_tell_states_apart(s, s, name);
    }
}

/// What is written is what is reported, put on record and answered. Once a hold is written,
/// the event that is queued tells each field of the row, under a fresh identifier and with
/// the correlation and causation of the request. Then the request is put on record with a
/// response that shows each field of the row, the transaction is committed, and that very
/// response is the answer, as created where the request opened the hold.
pub proof fn what_is_written_is_reported_recorded_and_answered(
    flow: FlowModel,
    event: EventModel,
    row: RowModel,
    now: Timestamp,
    fresh: u128,
    times: Seq<Timestamp>,
    ids: Seq<u128>,
)
    requires
        written_row(flow.step(event, now, fresh).action) == Some(row),
        times.len() == 4,
        ids.len() == 4,
    ensures
        ({
            let written = flow.step(event, now, fresh);
            let queued = written.flow.step(EventModel::Done, times[0], ids[0]);
            let stored = queued.flow.step(EventModel::Done, times[1], ids[1]);
            let committed = stored.flow.step(EventModel::Done, times[2], ids[2]);
            let answered = committed.flow.step(EventModel::Done, times[3], ids[3]);
            let told = queued.action->Emit_0;
            let response = answered.action->Answer_response;
            let operation = flow.request->Mutate_operation;
            &&& written.flow.stage is Writing
            &&& queued.action is Emit
            &&& tells(told, row)
            &&& told.id == ids[0]
            &&& told.correlation_id == flow.correlation
            &&& told.causation_id == flow.causation
            &&& flow.request is Authorize ==> told.event_type
                == "nvuto.payments.booking.hold.authorized.v1"@
            &&& flow.request is Mutate ==> {
                &&& operation == "capture"@ ==> told.event_type
                    == "nvuto.payments.booking.hold.captured.v1"@
                &&& operation == "release"@ ==> told.event_type
                    == "nvuto.payments.booking.hold.released.v1"@
                &&& operation == "refund"@ && row.state == "REFUNDED"@ ==> told.event_type
                    == "nvuto.payments.booking.payment.refunded.v1"@
                &&& operation == "refund"@ && row.state != "REFUNDED"@ ==> told.event_type
                    == "nvuto.payments.booking.payment.partially_refunded.v1"@
            }
            &&& stored.action is Store
            &&& stored.action->Store_response == response
            &&& committed.action is Commit
            &&& answered.action is Answer
            &&& answered.flow.stage is Finished
            &&& shows(response, row)
            &&& !response.replayed
            &&& flow.request is Authorize ==> answered.action->Answer_status == 201
            &&& flow.request !is Authorize ==> answered.action->Answer_status == 200
        }),
{
    let hold = flow.step(event, now, fresh).flow.stage->Writing_hold;
    lemma_written_hold(flow, event, row, now, fresh);
    service_laws::names_tell_states_apart(hold.state, hold.state, row.state);
    service_laws::names_tell_states_apart(
        hold.state,
        HoldState::Refunded,
        row.state,
    );
    service_laws::event_types_name_the_operation("capture"@, hold.state);
}

proof fn lemma_written_hold(
    flow: FlowModel,
    event: EventModel,
    row: RowModel,
    now: Timestamp,
    fresh: u128,
)
    requires
        written_row(flow.step(event, now, fresh).action) == Some(row),
    ensures
        flow.step(event, now, fresh).flow.stage is Writing,
        row == row_of(flow.step(event, now, fresh).flow.stage->Writing_hold),
{
}

/// A response is handed on as it is from the record to the answer.
pub proof fn responses_are_handed_on(
    flow: FlowModel,
    response: ResponseModel,
    now: Timestamp,
    fresh: u128,
)
    ensures
        ({
            let step = flow.step(EventModel::Done, now, fresh);
            &&& flow.stage == (StageModel::Storing { response }) ==> step.action is Commit
                && step.flow.stage == (StageModel::Committing { response })
            &&& flow.stage == (StageModel::Replaying { response }) ==> step.action == (
            ActionModel::Answer { status: 200, response })
            &&& flow.stage == (StageModel::Committing { response }) && flow.request is Authorize
                ==> step.action == (ActionModel::Answer { status: 201, response })
            &&& flow.stage == (StageModel::Committing { response }) && flow.request !is Authorize
                ==> step.action == (ActionModel::Answer { status: 200, response })
        }),
{
}

/// A failure of the database is answered as one of the service at every stage that waits
/// for the database; only where a new hold is being inserted, and the database says that
/// its booking has one already, is it a conflict.
pub proof fn database_failures_are_answered(
    flow: FlowModel,
    code: Option<Seq<char>>,
    now: Timestamp,
    fresh: u128,
)
    ensures
        ({
            let step = flow.step(EventModel::Failed(code), now, fresh);
            let inserting = flow.stage is Writing && flow.request is Authorize;
            let waits = flow.stage is Finding || flow.stage is Beginning || flow.stage is Matching
                || flow.stage is Replaying || flow.stage is Loading || flow.stage is Writing
                || flow.stage is Emitting || flow.stage is Storing || flow.stage is Committing;
            &&& inserting && code == Some("23505"@) ==> is_refused(
                step,
                409,
                "BOOKING_PAYMENT_ALREADY_EXISTS"@,
                "A payment hold already exists for this booking"@,
            )
            &&& waits && !(inserting && code == Some("23505"@)) ==> is_refused(
                step,
                503,
                "PAYMENTS_UNAVAILABLE"@,
                "Payments persistence unavailable"@,
            )
            &&& !waits ==> step.action is Abandon && step.flow.stage is Finished
        }),
{
}

/// Whether a stage waits for an event of this kind, failures of the database aside.
pub open spec fn awaits(stage: StageModel, event: EventModel) -> bool {
    match stage {
        StageModel::Introspecting => event is Unreachable || event is IdentityStatus,
        StageModel::ReadingIdentity => event is Identity,
        StageModel::Finding => event is Row,
        StageModel::Matching { .. } => event is Prior,
        StageModel::Loading { .. } => event is Row,
        StageModel::Finished => false,
        _ => event is Done,
    }
}

/// An event that a stage does not wait for ends the request. One that it waits for does
/// not, but where the amounts of a refund leave the range of decimals, or the request does
/// not belong to the stage.
pub proof fn events_out_of_turn_end_the_request(
    flow: FlowModel,
    event: EventModel,
    now: Timestamp,
    fresh: u128,
)
    ensures
        ({
            let step = flow.step(event, now, fresh);
            &&& event !is Failed && !awaits(flow.stage, event) ==> step.action is Abandon
                && step.flow.stage is Finished
            &&& awaits(flow.stage, event) && step.action is Abandon ==> {
                ||| flow.stage is Matching && flow.request is Status
                ||| flow.stage is Loading && flow.request !is Mutate
                ||| flow.stage is Loading && flow.request->Mutate_operation == "refund"@
            }
        }),
{
}

/// The model of a request shows each of its fields.
pub proof fn requests_are_seen_as_they_are(request: AuthorizeRequest, asked: Request)
    ensures
        Request::Authorize(request)@ == RequestModel::Authorize(request@),
        asked is Mutate ==> {
            &&& asked@ is Mutate
            &&& asked@->Mutate_operation == asked->Mutate_operation@
            &&& asked@->Mutate_reference == asked->Mutate_reference@
            &&& asked@->Mutate_refund_amount == optional(asked->Mutate_refund_amount)
        },
        asked is Status ==> asked@ is Status && asked@->Status_reference
            == asked->Status_reference@,
{
}

/// The model of a claim shows each of its fields.
pub proof fn claims_are_seen_as_they_are(claim: Claim)
    ensures
        claim@.tenant == claim.tenant@,
        claim@.record == claim.record@,
{
}

/// The model of an event shows what it carries.
pub proof fn happenings_are_seen_as_they_are(event: Event)
    ensures
        event is Unreachable <==> event@ is Unreachable,
        event is Done <==> event@ is Done,
        event is IdentityStatus ==> event@ == EventModel::IdentityStatus(event->IdentityStatus_0),
        event is Identity ==> event@ == EventModel::Identity(
            optional_identity(event->Identity_0),
        ),
        event is Failed ==> event@ == EventModel::Failed(optional_text(event->Failed_0)),
        event is Prior ==> event@ == EventModel::Prior(optional_prior(event->Prior_0)),
        event is Row ==> event@ == EventModel::Row(optional_row(event->Row_0)),
{
}

/// The model of an action shows what it carries.
pub proof fn actions_are_seen_as_they_are(action: Action)
    ensures
        action is ReadIdentity <==> action@ is ReadIdentity,
        action is Begin <==> action@ is Begin,
        action is Commit <==> action@ is Commit,
        action is Abandon <==> action@ is Abandon,
        action is Introspect ==> action@ == ActionModel::Introspect(action->Introspect_0@),
        action is FindPrior ==> action@ == (ActionModel::FindPrior {
            tenant: action->FindPrior_tenant@,
            key: action->key@,
        }),
        action is LoadHold ==> action@ == (ActionModel::LoadHold {
            tenant: action->LoadHold_tenant@,
            reference: action->LoadHold_reference@,
        }),
        action is FindHold ==> action@ == (ActionModel::FindHold {
            tenant: action->FindHold_tenant@,
            reference: action->FindHold_reference@,
        }),
        action is InsertHold ==> action@ == ActionModel::InsertHold(action->InsertHold_0@),
        action is UpdateHold ==> action@ == ActionModel::UpdateHold(action->UpdateHold_0@),
        action is Emit ==> action@ == ActionModel::Emit(action->Emit_0@),
        action is Store ==> action@ == (ActionModel::Store {
            tenant: action->Store_tenant@,
            record: action->record@,
            response: action->Store_response@,
        }),
        action is Answer ==> action@ == (ActionModel::Answer {
            status: action->status,
            response: action->Answer_response@,
        }),
        action is Refuse ==> action@ == ActionModel::Refuse(action->Refuse_0@),
{
}

/// The model of a stage shows what it carries.
pub proof fn stages_are_seen_as_they_are(stage: Stage)
    ensures
        stage is Introspecting <==> stage@ is Introspecting,
        stage is ReadingIdentity <==> stage@ is ReadingIdentity,
        stage is Finding <==> stage@ is Finding,
        stage is Finished <==> stage@ is Finished,
        stage is Beginning ==> stage@ == (StageModel::Beginning {
            claim: stage->Beginning_claim@,
        }),
        stage is Matching ==> stage@ == (StageModel::Matching { claim: stage->Matching_claim@ }),
        stage is Replaying ==> stage@ == (StageModel::Replaying {
            response: stage->Replaying_response@,
        }),
        stage is Loading ==> stage@ == (StageModel::Loading { claim: stage->Loading_claim@ }),
        stage is Writing ==> stage@ == (StageModel::Writing {
            claim: stage->Writing_claim@,
            hold: stage->hold@,
        }),
        stage is Emitting ==> stage@ == (StageModel::Emitting {
            claim: stage->Emitting_claim@,
            response: stage->Emitting_response@,
        }),
        stage is Storing ==> stage@ == (StageModel::Storing {
            response: stage->Storing_response@,
        }),
        stage is Committing ==> stage@ == (StageModel::Committing {
            response: stage->Committing_response@,
        }),
{
}

/// The models of a flow and of a step show each of their fields.
pub proof fn flows_are_seen_as_they_are(flow: Flow, step: Step)
    ensures
        flow@.request == flow.request@,
        flow.key is Ok ==> flow@.key == Ok::<Seq<char>, ErrorModel>(flow.key->Ok_0@),
        flow.key is Err ==> flow@.key == Err::<Seq<char>, ErrorModel>(flow.key->Err_0@),
        flow@.correlation == flow.correlation@,
        flow@.causation == flow.causation@,
        flow@.stage == flow.stage@,
        step@.flow == step.flow@,
        step@.action == step.action@,
{
}

} // verus!
