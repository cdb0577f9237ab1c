//! What holds of the way requests are served.

use vstd::prelude::*;

use crate::bookings_contract::{
    authorize_refusal, idempotency_outcome, HoldModel, LifecycleError, RecordModel,
};
use crate::clock::Timestamp;
use crate::decimal::DecimalModel;
use crate::flow::{
    ActionModel, ClaimModel, EventModel, FlowModel, RequestModel, StageModel, AUTHORIZED_EVENT,
};
use crate::identity::is_good;
use crate::operations::{event_type_of, operation_outcome, AuthorizeModel};
use crate::outbox::event_about;
use crate::replies::{
    refusal, response_of, ResponseModel, CONFLICT, CREATED, OK, SERVICE_UNAVAILABLE,
};
use crate::storage::{
    hold_of, no_such_hold, replay_outcome, row_of, stored_holds_read_back, PriorModel, RowModel,
};
use crate::text;

verus! {

/// A step keeps the request as it came.
pub proof fn steps_keep_the_request(
    flow: FlowModel,
    event: EventModel,
    now: Timestamp,
    fresh: u128,
)
    ensures
        flow.step(event, now, fresh).flow.request == flow.request,
        flow.step(event, now, fresh).flow.key == flow.key,
        flow.step(event, now, fresh).flow.correlation == flow.correlation,
        flow.step(event, now, fresh).flow.causation == flow.causation,
{
}

/// A request is finished exactly when it is answered or ends without an answer.
pub proof fn requests_end_with_their_answer(
    flow: FlowModel,
    event: EventModel,
    now: Timestamp,
    fresh: u128,
)
    ensures
        ({
            let step = flow.step(event, now, fresh);
            step.flow.stage is Finished <==> step.action is Answer || step.action is Refuse
                || step.action is Abandon
        }),
{
}

/// A finished request takes no further action.
pub proof fn finished_requests_stay_finished(
    flow: FlowModel,
    event: EventModel,
    now: Timestamp,
    fresh: u128,
)
    requires
        flow.stage is Finished,
    ensures
        flow.step(event, now, fresh).action is Abandon,
        flow.step(event, now, fresh).flow.stage is Finished,
{
}

/// A request is answered with a hold only once the transaction is committed, or, where
/// the hold is only shown, once it is found.
pub proof fn answers_follow_commits(
    flow: FlowModel,
    event: EventModel,
    now: Timestamp,
    fresh: u128,
)
    requires
        flow.step(event, now, fresh).action is Answer,
    ensures
        ({
            ||| flow.stage is Committing && event is Done
            ||| flow.stage is Replaying && event is Done
            ||| flow.stage is Finding && event is Row
        }),
{
}

/// What a request changes is committed only once the hold is written, the event is
/// queued and the request is on record, each of them after the one before. The only
/// other commit is that of a replay.
pub proof fn commits_follow_the_record(
    flow: FlowModel,
    event: EventModel,
    now: Timestamp,
    fresh: u128,
)
    ensures
        ({
            let step = flow.step(event, now, fresh);
            &&& step.action is Commit ==> step.flow.stage is Committing
                || step.flow.stage is Replaying
            &&& step.flow.stage is Committing ==> flow.stage is Storing && event is Done
            &&& step.flow.stage is Storing ==> flow.stage is Emitting && event is Done
            &&& step.flow.stage is Emitting ==> flow.stage is Writing && event is Done
            &&& step.flow.stage is Writing ==> flow.stage is Loading || flow.stage is Matching
            &&& step.flow.stage is Replaying ==> flow.stage is Matching
        }),
{
}

/// A failure of the database ends the request, with nothing committed. While the flow
/// waits for the database, the failure is answered as one of the service, or, where
/// the booking already has a hold, as a conflict.
pub proof fn failures_commit_nothing(
    flow: FlowModel,
    code: Option<Seq<char>>,
    now: Timestamp,
    fresh: u128,
)
    ensures
        ({
            let step = flow.step(EventModel::Failed(code), now, fresh);
            &&& step.flow.stage is Finished
            &&& !(step.action is Commit)
            &&& flow.waits_for_database() ==> {
                &&& step.action is Refuse
                &&& step.action->Refuse_0.status == SERVICE_UNAVAILABLE
                    || step.action->Refuse_0.status == CONFLICT
            }
        }),
{
}

/// Nothing is done for a sender that the identity service does not vouch for: only a
/// good identity leads past the identity service.
pub proof fn only_known_senders_are_served(
    flow: FlowModel,
    event: EventModel,
    now: Timestamp,
    fresh: u128,
)
    requires
        flow.stage is Introspecting || flow.stage is ReadingIdentity,
    ensures
        ({
            let step = flow.step(event, now, fresh);
            {
                ||| step.flow.stage is Finished
                ||| step.action is ReadIdentity
                ||| {
                    &&& event matches EventModel::Identity(Some(identity))
                    &&& is_good(identity, now.seconds)
                }
            }
        }),
{
}

/// A sender acts for its own tenant: what the database is asked for is of the tenant
/// that the identity service names, and so is a hold that is opened.
pub proof fn senders_act_for_their_own_tenant(
    flow: FlowModel,
    event: EventModel,
    now: Timestamp,
    fresh: u128,
    tenant: Seq<char>,
)
    requires
        match flow.stage {
            StageModel::ReadingIdentity => event matches EventModel::Identity(Some(identity)) ==>
                identity.tenant == tenant,
            StageModel::Beginning { claim }
            | StageModel::Matching { claim }
            | StageModel::Loading { claim }
            | StageModel::Emitting { claim, .. } => claim.tenant == tenant,
            StageModel::Writing { claim, .. } => claim.tenant == tenant,
            _ => true,
        },
    ensures
        ({
            let step = flow.step(event, now, fresh);
            &&& match step.action {
                ActionModel::FindPrior { tenant: t, .. }
                | ActionModel::LoadHold { tenant: t, .. }
                | ActionModel::FindHold { tenant: t, .. }
                | ActionModel::Store { tenant: t, .. } => t == tenant,
                ActionModel::InsertHold(row) => row.tenant_id == text::trimmed(tenant),
                _ => true,
            }
            &&& match step.flow.stage {
                StageModel::Beginning { claim }
                | StageModel::Matching { claim }
                | StageModel::Loading { claim }
                | StageModel::Emitting { claim, .. } => claim.tenant == tenant,
                StageModel::Writing { claim, .. } => claim.tenant == tenant,
                _ => true,
            }
        }),
{
}

/// The claim under which a request is matched and put on record is that of the request
/// itself.
pub proof fn claims_name_the_request(
    flow: FlowModel,
    event: EventModel,
    now: Timestamp,
    fresh: u128,
)
    requires
        flow.stage is ReadingIdentity,
        flow.step(event, now, fresh).flow.stage is Beginning,
    ensures
        ({
            let claim = flow.step(event, now, fresh).flow.stage->Beginning_claim;
            &&& flow.key == Ok::<Seq<char>, crate::replies::ErrorModel>(claim.record.key)
            &&& claim.record.operation == flow.operation()
            &&& claim.record.fingerprint == flow.fingerprint()
        }),
{
}

/// A request under a key that is on record writes nothing: it is answered from the
/// record, or refused.
pub proof fn replays_write_nothing(
    flow: FlowModel,
    prior: PriorModel,
    now: Timestamp,
    fresh: u128,
    event: EventModel,
    later: Timestamp,
    other: u128,
)
    requires
        flow.stage is Matching,
    ensures
        ({
            let step = flow.step(EventModel::Prior(Some(prior)), now, fresh);
            let last = step.flow.step(event, later, other);
            &&& step.action is Commit || step.action is Refuse
            &&& last.flow.stage is Finished
            &&& last.action is Answer || last.action is Refuse || last.action is Abandon
        }),
{
}

/// What the database finds under a key, once a request was put on record there.
pub open spec fn prior_of(record: RecordModel, response: ResponseModel) -> PriorModel {
    PriorModel {
        operation: record.operation,
        fingerprint: record.fingerprint,
        response: Some(response),
    }
}

/// A request that repeats one on record, with the same operation and fingerprint, is
/// answered with the response of that one, marked as replayed.
pub proof fn repeated_requests_are_replayed(
    served: FlowModel,
    claim: ClaimModel,
    response: ResponseModel,
    repeat: FlowModel,
    repeated: ClaimModel,
    times: Seq<Timestamp>,
    ids: Seq<u128>,
)
    requires
        times.len() == 3,
        ids.len() == 3,
        served.stage == (StageModel::Emitting { claim, response }),
        repeat.stage == (StageModel::Matching { claim: repeated }),
        repeated.record.operation == claim.record.operation,
        repeated.record.fingerprint == claim.record.fingerprint,
    ensures
        ({
            let stored = served.step(EventModel::Done, times[0], ids[0]).action;
            let found = EventModel::Prior(Some(prior_of(claim.record, response)));
            let step = repeat.step(found, times[1], ids[1]);
            let last = step.flow.step(EventModel::Done, times[2], ids[2]);
            &&& stored == (ActionModel::Store {
                tenant: claim.tenant,
                record: claim.record,
                response,
            })
            &&& step.action is Commit
            &&& last.action == (ActionModel::Answer {
                status: OK,
                response: ResponseModel { replayed: true, ..response },
            })
        }),
{
}

/// A request under the key of one on record, with another operation or fingerprint, is
/// refused as a conflict.
pub proof fn reused_keys_are_refused(
    flow: FlowModel,
    claim: ClaimModel,
    record: RecordModel,
    response: ResponseModel,
    now: Timestamp,
    fresh: u128,
)
    requires
        flow.stage == (StageModel::Matching { claim }),
        claim.record.operation != record.operation || claim.record.fingerprint
            != record.fingerprint,
    ensures
        ({
            let found = EventModel::Prior(Some(prior_of(record, response)));
            &&& flow.step(found, now, fresh).action == ActionModel::Refuse(
                refusal(LifecycleError::IdempotencyConflict),
            )
            &&& refusal(LifecycleError::IdempotencyConflict).status == CONFLICT
        }),
{
}

/// The service matches requests as the contract of holds says: it replays where that
/// finds a repetition, and refuses where that finds a conflict.
pub proof fn requests_are_matched_by_the_contract(
    key: Seq<char>,
    operation: Seq<char>,
    fingerprint: Seq<char>,
    record: RecordModel,
    response: ResponseModel,
)
    requires
        text::trimmed(key).len() > 0,
        record.key == text::trimmed(key),
    ensures
        idempotency_outcome(key, operation, fingerprint, Some(record)) == Ok::<
            bool,
            LifecycleError,
        >(true) <==> replay_outcome(Some(prior_of(record, response)), operation, fingerprint)
            is Ok,
        idempotency_outcome(key, operation, fingerprint, Some(record)) == Err::<
            bool,
            LifecycleError,
        >(LifecycleError::IdempotencyConflict) <==> replay_outcome(
            Some(prior_of(record, response)),
            operation,
            fingerprint,
        ) == Err::<Option<ResponseModel>, crate::replies::ErrorModel>(
            refusal(LifecycleError::IdempotencyConflict),
        ),
{
}

/// An operation that the lifecycle accepts is served in full: the hold is written, the
/// event about it is queued, the request is put on record with its response, the
/// transaction is committed, and the response is the answer. Each step has a time and a
/// fresh identifier of its own.
pub proof fn accepted_operations_are_served(
    flow: FlowModel,
    claim: ClaimModel,
    operation: Seq<char>,
    reference: Seq<char>,
    refund_amount: Option<DecimalModel>,
    row: RowModel,
    hold: HoldModel,
    next: HoldModel,
    times: Seq<Timestamp>,
    ids: Seq<u128>,
)
    requires
        times.len() == 5,
        ids.len() == 5,
        flow.request == (RequestModel::Mutate { operation, reference, refund_amount }),
        flow.stage == (StageModel::Loading { claim }),
        hold_of(row) == Ok::<HoldModel, LifecycleError>(hold),
        operation_outcome(hold, operation, refund_amount, times[0]) == Some(
            Ok::<HoldModel, LifecycleError>(next),
        ),
    ensures
        ({
            let written = flow.step(EventModel::Row(Some(row)), times[0], ids[0]);
            let queued = written.flow.step(EventModel::Done, times[1], ids[1]);
            let stored = queued.flow.step(EventModel::Done, times[2], ids[2]);
            let committed = stored.flow.step(EventModel::Done, times[3], ids[3]);
            let answered = committed.flow.step(EventModel::Done, times[4], ids[4]);
            &&& written.action == ActionModel::UpdateHold(row_of(next))
            &&& queued.action == ActionModel::Emit(
                event_about(
                    next,
                    ids[1],
                    event_type_of(operation, next.state),
                    flow.correlation,
                    flow.causation,
                ),
            )
            &&& stored.action == (ActionModel::Store {
                tenant: claim.tenant,
                record: claim.record,
                response: response_of(next, false),
            })
            &&& committed.action is Commit
            &&& answered.action == (ActionModel::Answer {
                status: OK,
                response: response_of(next, false),
            })
        }),
{
}

/// An operation that the lifecycle refuses is answered with its error, and nothing is
/// written.
pub proof fn refused_operations_are_answered(
    flow: FlowModel,
    claim: ClaimModel,
    operation: Seq<char>,
    reference: Seq<char>,
    refund_amount: Option<DecimalModel>,
    row: RowModel,
    hold: HoldModel,
    e: LifecycleError,
    now: Timestamp,
    fresh: u128,
)
    requires
        flow.request == (RequestModel::Mutate { operation, reference, refund_amount }),
        flow.stage == (StageModel::Loading { claim }),
        hold_of(row) == Ok::<HoldModel, LifecycleError>(hold),
        operation_outcome(hold, operation, refund_amount, now) == Some(
            Err::<HoldModel, LifecycleError>(e),
        ),
    ensures
        flow.step(EventModel::Row(Some(row)), now, fresh) == flow.refuse(refusal(e)),
{
}

/// An authorization that the lifecycle accepts, under a key that is not on record, is
/// served in full: the hold is inserted, the event about it is queued, the request is
/// put on record with its response, the transaction is committed, and the response is
/// the answer. One that the lifecycle refuses is answered with its error.
pub proof fn authorizations_are_served(
    flow: FlowModel,
    claim: ClaimModel,
    request: AuthorizeModel,
    times: Seq<Timestamp>,
    ids: Seq<u128>,
)
    requires
        times.len() == 5,
        ids.len() == 5,
        flow.request == RequestModel::Authorize(request),
        flow.stage == (StageModel::Matching { claim }),
    ensures
        ({
            let hold = HoldModel::authorized(
                ids[0],
                claim.tenant,
                request.booking_reference,
                request.amount,
                request.currency,
                times[0],
            );
            let written = flow.step(EventModel::Prior(None), times[0], ids[0]);
            let queued = written.flow.step(EventModel::Done, times[1], ids[1]);
            let stored = queued.flow.step(EventModel::Done, times[2], ids[2]);
            let committed = stored.flow.step(EventModel::Done, times[3], ids[3]);
            let answered = committed.flow.step(EventModel::Done, times[4], ids[4]);
            match authorize_refusal(
                claim.tenant,
                request.booking_reference,
                request.amount,
                request.currency,
            ) {
                Some(e) => written == flow.refuse(refusal(e)),
                None => {
                    &&& written.action == ActionModel::InsertHold(row_of(hold))
                    &&& queued.action == ActionModel::Emit(
                        event_about(
                            hold,
                            ids[1],
                            AUTHORIZED_EVENT@,
                            flow.correlation,
                            flow.causation,
                        ),
                    )
                    &&& stored.action == (ActionModel::Store {
                        tenant: claim.tenant,
                        record: claim.record,
                        response: response_of(hold, false),
                    })
                    &&& committed.action is Commit
                    &&& answered.action == (ActionModel::Answer {
                        status: CREATED,
                        response: response_of(hold, false),
                    })
                },
            }
        }),
{
}

/// A request for the status of a hold shows the hold as it was last written, or says
/// that there is none.
pub proof fn status_shows_the_stored_hold(
    flow: FlowModel,
    hold: HoldModel,
    now: Timestamp,
    fresh: u128,
)
    requires
        flow.stage is Finding,
    ensures
        flow.step(EventModel::Row(Some(row_of(hold))), now, fresh) == flow.answer(
            OK,
            response_of(hold, false),
        ),
        flow.step(EventModel::Row(None), now, fresh) == flow.refuse(no_such_hold()),
{
    stored_holds_read_back(hold);
}

} // verus!
