//! What holds of a request from its first step to its last.

use vstd::prelude::*;

use crate::bookings_contract::{LifecycleError, RecordModel};
use crate::clock::Timestamp;
use crate::flow::{
    ActionModel, ClaimModel, EventModel, FlowModel, RequestModel, StageModel, StepModel,
};
use crate::flow_laws::{prior_of, senders_act_for_their_own_tenant};
use crate::headers::{bearer_of, trimmed_header};
use crate::identity::{is_good, IdentityModel};
use crate::replies::{refusal, ResponseModel, OK};
use crate::storage::RowModel;
use crate::text;

verus! {

/// The steps of a request, the events that led from each step to the next, and the
/// times and fresh identifiers at which they did.
pub struct RunModel {
    pub steps: Seq<StepModel>,
    pub events: Seq<EventModel>,
    pub times: Seq<Timestamp>,
    pub fresh: Seq<u128>,
}

/// The claim that is in force at a stage, if there is one.
pub open spec fn claim_at(stage: StageModel) -> Option<ClaimModel> {
    match stage {
        StageModel::Beginning { claim } => Some(claim),
        StageModel::Matching { claim } => Some(claim),
        StageModel::Loading { claim } => Some(claim),
        StageModel::Writing { claim, .. } => Some(claim),
        StageModel::Emitting { claim, .. } => Some(claim),
        _ => None,
    }
}

/// How far a stage is from the start of a request.
pub open spec fn rank(stage: StageModel) -> int {
    match stage {
        StageModel::Introspecting => 0,
        StageModel::ReadingIdentity => 1,
        StageModel::Finding => 2,
        StageModel::Beginning { .. } => 2,
        StageModel::Matching { .. } => 3,
        StageModel::Replaying { .. } => 4,
        StageModel::Loading { .. } => 4,
        StageModel::Writing { .. } => 5,
        StageModel::Emitting { .. } => 6,
        StageModel::Storing { .. } => 7,
        StageModel::Committing { .. } => 8,
        StageModel::Finished => 9,
    }
}

/// Whether an action shows or touches what the service keeps.
pub open spec fn reaches_holds(action: ActionModel) -> bool {
    match action {
        ActionModel::Introspect(_) => false,
        ActionModel::ReadIdentity => false,
        ActionModel::Refuse(_) => false,
        ActionModel::Abandon => false,
        _ => true,
    }
}

/// Whether what an action asks the database for, puts on record or opens is of a tenant.
pub open spec fn stays_with(action: ActionModel, tenant: Seq<char>) -> bool {
    match action {
        ActionModel::FindPrior { tenant: t, .. } => t == tenant,
        ActionModel::LoadHold { tenant: t, .. } => t == tenant,
        ActionModel::FindHold { tenant: t, .. } => t == tenant,
        ActionModel::Store { tenant: t, .. } => t == tenant,
        ActionModel::InsertHold(row) => row.tenant_id == text::trimmed(tenant),
        _ => true,
    }
}

/// Whether an action stays with a tenant in all that it does: in what it asks the
/// database for, puts on record or opens, in the hold that it writes, and in the event
/// that it queues. A hold that is opened, and the event about it, carry the tenant's name
/// trimmed.
pub open spec fn stays_wholly_with(
    action: ActionModel,
    request: RequestModel,
    tenant: Seq<char>,
) -> bool {
    &&& stays_with(action, tenant)
    &&& action is UpdateHold ==> action->UpdateHold_0.tenant_id == tenant
    &&& action is Emit ==> action->Emit_0.tenant_id == (if request is Authorize {
        text::trimmed(tenant)
    } else {
        tenant
    })
}

/// The row that an action writes, where it writes one.
pub open spec fn written_row(action: ActionModel) -> Option<RowModel> {
    match action {
        ActionModel::InsertHold(row) => Some(row),
        ActionModel::UpdateHold(row) => Some(row),
        _ => None,
    }
}

impl RunModel {
    /// Whether this is how a request was served.
    pub open spec fn serves(
        self,
        request: RequestModel,
        headers: axum::http::HeaderMap,
        identity_url: Seq<char>,
    ) -> bool {
        &&& self.steps.len() == self.events.len() + 1
        &&& self.times.len() == self.events.len()
        &&& self.fresh.len() == self.events.len()
        &&& self.steps[0] == FlowModel::start(request, headers, identity_url)
        &&& forall|i: int|
            0 <= i < self.events.len() ==> self.steps[i + 1] == self.steps[i].flow.step(
                #[trigger] self.events[i],
                self.times[i],
                self.fresh[i],
            )
    }

    /// Whether the identity service was asked and vouched for this sender.
    pub open spec fn sent_by(self, identity: IdentityModel) -> bool {
        &&& self.events.len() >= 2
        &&& self.steps[0].action is Introspect
        &&& self.events[0] == EventModel::IdentityStatus(OK)
        &&& self.events[1] == EventModel::Identity(Some(identity))
        &&& is_good(identity, self.times[1].seconds)
    }

    /// The sender that the identity service named.
    pub open spec fn sender(self) -> IdentityModel {
        self.events[1]->Identity_0->0
    }

    /// Whether every hold that the database found is of this tenant.
    pub open spec fn finds_holds_of(self, tenant: Seq<char>) -> bool {
        forall|i: int|
            0 <= i < self.events.len() && (#[trigger] self.events[i]) is Row
                && self.events[i]->Row_0 is Some ==> self.events[i]->Row_0->0.tenant_id == tenant
    }

    /// The claim of the request, made by its sender.
    pub open spec fn claim(self) -> ClaimModel {
        let flow = self.steps[0].flow;
        ClaimModel {
            tenant: self.sender().tenant,
            record: RecordModel {
                key: flow.key->Ok_0,
                fingerprint: flow.fingerprint(),
                operation: flow.operation(),
            },
        }
    }
}

/// What every step of a run keeps: the request, and, past the identity service, a
/// sender that it vouches for, and the claim that the sender made.
proof fn lemma_run(
    run: RunModel,
    request: RequestModel,
    headers: axum::http::HeaderMap,
    identity_url: Seq<char>,
    i: int,
)
    requires
        run.serves(request, headers, identity_url),
        0 <= i < run.steps.len(),
    ensures
        run.steps[i].flow.request == run.steps[0].flow.request,
        run.steps[i].flow.key == run.steps[0].flow.key,
        run.steps[i].flow.stage is Introspecting ==> i == 0,
        run.steps[i].flow.stage is ReadingIdentity ==> i == 1,
        run.steps[i].flow.stage is Introspecting ==> run.steps[i].action is Introspect,
        rank(run.steps[i].flow.stage) >= 1 && run.steps[i].flow.stage !is Finished ==> {
            &&& i >= 1
            &&& run.steps[0].action is Introspect
            &&& run.events[0] == EventModel::IdentityStatus(OK)
        },
        rank(run.steps[i].flow.stage) >= 2 && run.steps[i].flow.stage !is Finished ==> {
            &&& i >= 2
            &&& run.sent_by(run.sender())
        },
        claim_at(run.steps[i].flow.stage) is Some ==> {
            &&& run.steps[0].flow.key is Ok
            &&& claim_at(run.steps[i].flow.stage) == Some(run.claim())
        },
    decreases i,
{
    if i > 0 {
        let j = i - 1;
        lemma_run(run, request, headers, identity_url, j);
        assert(run.steps[j + 1] == run.steps[j].flow.step(
            run.events[j],
            run.times[j],
            run.fresh[j],
        ));
    }
}

/// Every step takes a request further, and nine steps after the first it is finished:
/// a request is answered, or ends, after at most nine events.
pub proof fn requests_are_finished_in_nine_steps(
    run: RunModel,
    request: RequestModel,
    headers: axum::http::HeaderMap,
    identity_url: Seq<char>,
    i: int,
)
    requires
        run.serves(request, headers, identity_url),
        0 <= i < run.steps.len(),
    ensures
        rank(run.steps[i].flow.stage) >= i || run.steps[i].flow.stage is Finished,
        i >= 9 ==> run.steps[i].flow.stage is Finished,
    decreases i,
{
    if i > 0 {
        let j = i - 1;
        requests_are_finished_in_nine_steps(run, request, headers, identity_url, j);
        assert(run.steps[j + 1] == run.steps[j].flow.step(
            run.events[j],
            run.times[j],
            run.fresh[j],
        ));
    }
}

/// A hold that is written after an operation is the one that the database found: it has
/// the same identifier, tenant, references, amount and currency. The event that is queued
/// is about the hold that was written just before: it carries its tenant and reference.
pub proof fn changes_stay_with_their_hold(
    run: RunModel,
    request: RequestModel,
    headers: axum::http::HeaderMap,
    identity_url: Seq<char>,
    i: int,
)
    requires
        run.serves(request, headers, identity_url),
        0 <= i < run.steps.len(),
    ensures
        run.steps[i].action is UpdateHold ==> {
            let found = run.events[i - 1]->Row_0->0;
            let written = run.steps[i].action->UpdateHold_0;
            &&& i >= 1
            &&& run.events[i - 1] is Row
            &&& run.events[i - 1]->Row_0 is Some
            &&& written.id == found.id
            &&& written.tenant_id == found.tenant_id
            &&& written.external_reference == found.external_reference
            &&& written.booking_reference == found.booking_reference
            &&& written.amount == found.amount
            &&& written.currency == found.currency
            &&& written.created_at == found.created_at
        },
        run.steps[i].action is Emit ==> {
            let written = written_row(run.steps[i - 1].action);
            let event = run.steps[i].action->Emit_0;
            &&& i >= 1
            &&& run.events[i - 1] == EventModel::Done
            &&& written is Some
            &&& event.tenant_id == written->0.tenant_id
            &&& event.aggregate_reference == written->0.external_reference
        },
{
    if i > 0 {
        assert(run.steps[(i - 1) + 1] == run.steps[i - 1].flow.step(
            run.events[i - 1],
            run.times[i - 1],
            run.fresh[i - 1],
        ));
    }
    if i > 1 {
        assert(run.steps[(i - 2) + 1] == run.steps[i - 2].flow.step(
            run.events[i - 2],
            run.times[i - 2],
            run.fresh[i - 2],
        ));
    }
}

/// Whatever a request shows or touches of what the service keeps, it does so after the
/// identity service has vouched for its sender, whose token it carries. What it asks the
/// database for, what it puts on record and what it opens is of the sender's tenant; and
/// where the database finds only holds of that tenant, as it is asked to, so is what it
/// writes, and the event that it queues.
pub proof fn tenants_are_kept_apart(
    run: RunModel,
    request: RequestModel,
    headers: axum::http::HeaderMap,
    identity_url: Seq<char>,
    i: int,
)
    requires
        run.serves(request, headers, identity_url),
        0 <= i < run.steps.len(),
        reaches_holds(run.steps[i].action),
    ensures
        i >= 2,
        bearer_of(headers) is Some,
        run.sent_by(run.sender()),
        stays_with(run.steps[i].action, run.sender().tenant),
        run.finds_holds_of(run.sender().tenant) ==> stays_wholly_with(
            run.steps[i].action,
            request,
            run.sender().tenant,
        ),
    decreases i,
{
    if i > 0 {
        let j = i - 1;
        lemma_run(run, request, headers, identity_url, j);
        lemma_run(run, request, headers, identity_url, i);
        assert(run.steps[j + 1] == run.steps[j].flow.step(
            run.events[j],
            run.times[j],
            run.fresh[j],
        ));
        senders_act_for_their_own_tenant(
            run.steps[j].flow,
            run.events[j],
            run.times[j],
            run.fresh[j],
            run.sender().tenant,
        );
        changes_stay_with_their_hold(run, request, headers, identity_url, i);
        if run.steps[i].action is Emit {
            tenants_are_kept_apart(run, request, headers, identity_url, j);
            assert(run.steps[(j - 1) + 1] == run.steps[j - 1].flow.step(
                run.events[j - 1],
                run.times[j - 1],
                run.fresh[j - 1],
            ));
            lemma_run(run, request, headers, identity_url, j - 1);
        }
    }
}

/// A request that changes a hold is committed only as a whole: the hold was written,
/// then the event about it was queued, then the request was put on record, and the
/// database did each of the three.
pub proof fn changes_are_committed_whole(
    run: RunModel,
    request: RequestModel,
    headers: axum::http::HeaderMap,
    identity_url: Seq<char>,
    i: int,
)
    requires
        run.serves(request, headers, identity_url),
        0 <= i < run.steps.len(),
        run.steps[i].flow.stage is Committing,
    ensures
        i >= 3,
        run.steps[i].action is Commit,
        run.steps[i - 1].action is Store,
        run.steps[i - 2].action is Emit,
        run.steps[i - 3].action is InsertHold || run.steps[i - 3].action is UpdateHold,
        forall|j: int| i - 3 <= j < i ==> #[trigger] run.events[j] == EventModel::Done,
{
    lemma_previous(run, request, headers, identity_url, i);
    lemma_previous(run, request, headers, identity_url, i - 1);
    lemma_previous(run, request, headers, identity_url, i - 2);
    lemma_previous(run, request, headers, identity_url, i - 3);
}

/// A step past the start of a request follows from the one before it.
proof fn lemma_previous(
    run: RunModel,
    request: RequestModel,
    headers: axum::http::HeaderMap,
    identity_url: Seq<char>,
    i: int,
)
    requires
        run.serves(request, headers, identity_url),
        0 <= i < run.steps.len(),
        run.steps[i].flow.stage !is Introspecting,
        run.steps[i].flow.stage !is Finished,
    ensures
        i >= 1,
        run.steps[i] == run.steps[i - 1].flow.step(
            run.events[i - 1],
            run.times[i - 1],
            run.fresh[i - 1],
        ),
{
    lemma_run(run, request, headers, identity_url, i);
    assert(run.steps[(i - 1) + 1] == run.steps[i - 1].flow.step(
        run.events[i - 1],
        run.times[i - 1],
        run.fresh[i - 1],
    ));
}

/// Once a request is finished, its later steps do nothing.
proof fn lemma_finished(
    run: RunModel,
    request: RequestModel,
    headers: axum::http::HeaderMap,
    identity_url: Seq<char>,
    i: int,
    j: int,
)
    requires
        run.serves(request, headers, identity_url),
        0 <= i < j < run.steps.len(),
        run.steps[i].flow.stage is Finished,
    ensures
        run.steps[j].flow.stage is Finished,
        run.steps[j].action is Abandon,
    decreases j,
{
    if i < j - 1 {
        lemma_finished(run, request, headers, identity_url, i, j - 1);
    }
    assert(run.steps[(j - 1) + 1] == run.steps[j - 1].flow.step(
        run.events[j - 1],
        run.times[j - 1],
        run.fresh[j - 1],
    ));
}

/// A request that is refused has changed nothing: no transaction of it was committed.
pub proof fn refused_requests_change_nothing(
    run: RunModel,
    request: RequestModel,
    headers: axum::http::HeaderMap,
    identity_url: Seq<char>,
    i: int,
    j: int,
)
    requires
        run.serves(request, headers, identity_url),
        0 <= j < i < run.steps.len(),
        run.steps[i].action is Refuse,
        run.steps[j].action is Commit,
    ensures
        run.events[j] != EventModel::Done,
{
    if j > 0 {
        assert(run.steps[(j - 1) + 1] == run.steps[j - 1].flow.step(
            run.events[j - 1],
            run.times[j - 1],
            run.fresh[j - 1],
        ));
    }
    assert(run.steps[j + 1] == run.steps[j].flow.step(run.events[j], run.times[j], run.fresh[j]));
    if run.events[j] == EventModel::Done && j + 1 < i {
        lemma_finished(run, request, headers, identity_url, j + 1, i);
    }
}

/// A request that changes a hold puts itself on record under its own key, operation and
/// fingerprint, for the tenant of its sender.
pub proof fn requests_are_put_on_record(
    run: RunModel,
    request: RequestModel,
    headers: axum::http::HeaderMap,
    identity_url: Seq<char>,
    i: int,
    tenant: Seq<char>,
    record: RecordModel,
    response: ResponseModel,
)
    requires
        run.serves(request, headers, identity_url),
        0 <= i < run.steps.len(),
        run.steps[i].action == (ActionModel::Store { tenant, record, response }),
    ensures
        tenant == run.sender().tenant,
        record == run.claim().record,
        record.key == trimmed_header(headers, "idempotency-key"@),
        record.key.len() > 0,
{
    if i > 0 {
        lemma_run(run, request, headers, identity_url, i - 1);
        assert(run.steps[(i - 1) + 1] == run.steps[i - 1].flow.step(
            run.events[i - 1],
            run.times[i - 1],
            run.fresh[i - 1],
        ));
    }
}

/// A request under a key looks up the record that an earlier request of the same tenant
/// left under that key, with the operation and fingerprint of its own to compare.
proof fn lemma_same_record(
    first: RunModel,
    again: RunModel,
    request: RequestModel,
    other_request: RequestModel,
    headers: axum::http::HeaderMap,
    other_headers: axum::http::HeaderMap,
    identity_url: Seq<char>,
    other_url: Seq<char>,
    i: int,
    j: int,
    tenant: Seq<char>,
    record: RecordModel,
    response: ResponseModel,
)
    requires
        first.serves(request, headers, identity_url),
        again.serves(other_request, other_headers, other_url),
        trimmed_header(headers, "idempotency-key"@) == trimmed_header(
            other_headers,
            "idempotency-key"@,
        ),
        first.sender().tenant == again.sender().tenant,
        0 <= i < first.steps.len(),
        first.steps[i].action == (ActionModel::Store { tenant, record, response }),
        0 <= j < again.steps.len(),
        again.steps[j].action is FindPrior,
    ensures
        again.steps[j].action == (ActionModel::FindPrior { tenant, key: record.key }),
        again.steps[j].flow.stage == (StageModel::Matching { claim: again.claim() }),
        record == first.claim().record,
{
    requests_are_put_on_record(
        first,
        request,
        headers,
        identity_url,
        i,
        tenant,
        record,
        response,
    );
    if j > 0 {
        lemma_run(again, other_request, other_headers, other_url, j - 1);
        lemma_run(again, other_request, other_headers, other_url, j);
        assert(again.steps[(j - 1) + 1] == again.steps[j - 1].flow.step(
            again.events[j - 1],
            again.times[j - 1],
            again.fresh[j - 1],
        ));
    }
}

/// A request that repeats an earlier one of the same tenant, with the same key, the same
/// operation and the same fingerprint, looks up the very record that the earlier one
/// left, and, given that record, is answered with the response of the earlier one,
/// marked as replayed. The two need not be written alike: what counts is the
/// fingerprint.
pub proof fn retries_get_the_first_response(
    first: RunModel,
    again: RunModel,
    request: RequestModel,
    other_request: RequestModel,
    headers: axum::http::HeaderMap,
    other_headers: axum::http::HeaderMap,
    identity_url: Seq<char>,
    other_url: Seq<char>,
    i: int,
    j: int,
    tenant: Seq<char>,
    record: RecordModel,
    response: ResponseModel,
    now: Timestamp,
    fresh: u128,
    later: Timestamp,
    other: u128,
)
    requires
        first.serves(request, headers, identity_url),
        again.serves(other_request, other_headers, other_url),
        trimmed_header(headers, "idempotency-key"@) == trimmed_header(
            other_headers,
            "idempotency-key"@,
        ),
        first.sender().tenant == again.sender().tenant,
        first.steps[0].flow.operation() == again.steps[0].flow.operation(),
        first.steps[0].flow.fingerprint() == again.steps[0].flow.fingerprint(),
        0 <= i < first.steps.len(),
        first.steps[i].action == (ActionModel::Store { tenant, record, response }),
        0 <= j < again.steps.len(),
        again.steps[j].action is FindPrior,
    ensures
        again.steps[j].action == (ActionModel::FindPrior { tenant, key: record.key }),
        ({
            let found = EventModel::Prior(Some(prior_of(record, response)));
            let step = again.steps[j].flow.step(found, now, fresh);
            let last = step.flow.step(EventModel::Done, later, other);
            &&& step.action is Commit
            &&& last.action == (ActionModel::Answer {
                status: OK,
                response: ResponseModel { replayed: true, ..response },
            })
        }),
{
    lemma_same_record(
        first,
        again,
        request,
        other_request,
        headers,
        other_headers,
        identity_url,
        other_url,
        i,
        j,
        tenant,
        record,
        response,
    );
}

/// A request under the key of an earlier one of the same tenant, with another operation
/// or another fingerprint, looks up the very record that the earlier one left, and,
/// given that record, is refused as a conflict.
pub proof fn other_requests_under_a_key_are_refused(
    first: RunModel,
    again: RunModel,
    request: RequestModel,
    other_request: RequestModel,
    headers: axum::http::HeaderMap,
    other_headers: axum::http::HeaderMap,
    identity_url: Seq<char>,
    other_url: Seq<char>,
    i: int,
    j: int,
    tenant: Seq<char>,
    record: RecordModel,
    response: ResponseModel,
    now: Timestamp,
    fresh: u128,
)
    requires
        first.serves(request, headers, identity_url),
        again.serves(other_request, other_headers, other_url),
        trimmed_header(headers, "idempotency-key"@) == trimmed_header(
            other_headers,
            "idempotency-key"@,
        ),
        first.sender().tenant == again.sender().tenant,
        first.steps[0].flow.operation() != again.steps[0].flow.operation()
            || first.steps[0].flow.fingerprint() != again.steps[0].flow.fingerprint(),
        0 <= i < first.steps.len(),
        first.steps[i].action == (ActionModel::Store { tenant, record, response }),
        0 <= j < again.steps.len(),
        again.steps[j].action is FindPrior,
    ensures
        again.steps[j].action == (ActionModel::FindPrior { tenant, key: record.key }),
        again.steps[j].flow.step(
            EventModel::Prior(Some(prior_of(record, response))),
            now,
            fresh,
        ) == again.steps[j].flow.refuse(refusal(LifecycleError::IdempotencyConflict)),
{
    lemma_same_record(
        first,
        again,
        request,
        other_request,
        headers,
        other_headers,
        identity_url,
        other_url,
        i,
        j,
        tenant,
        record,
        response,
    );
}

} // verus!
