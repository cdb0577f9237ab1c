//! How a request is served.
//!
//! Serving a request alternates between work outside the library (asking the identity
//! service, reading and writing the database) and decisions. A [`Flow`] takes the
//! decisions: it names the next [`Action`], and is told of its result by an
//! [`Event`], until the request is answered.

use vstd::prelude::*;

use crate::bookings_contract::{
    authorize_refusal, refund_refusal, BookingPaymentHold, HoldModel, IdempotencyRecord,
    LifecycleError, RecordModel,
};
use crate::clock::{utc_now, Timestamp};
use crate::decimal::{decimal_difference, is_decimal, optional, Decimal, DecimalModel};
use crate::headers::{header_value, idempotency_key, trimmed_header};
use crate::identifier::{is_version_7, now_v7};
use crate::identity::{
    accept_identity, accept_identity_status, call_outcome, identity_outcome, identity_unavailable,
    identity_unreachable, introspection_call, optional_identity, CallModel, IdentityModel,
    Introspection, IntrospectionCall,
};
use crate::laws::is_accepted_refund;
use crate::operations::{
    apply_operation, authorize_fingerprint, event_type, event_type_of, fingerprint_of_authorize,
    fingerprint_of_mutation, mutation_fingerprint, operation_outcome, AuthorizeModel,
    AuthorizeRequest,
};
use crate::outbox::{event_about, outbox_event, OutboxEvent, OutboxModel};
use crate::replies::{
    db_error, hold_response, lifecycle_error, persistence_failure, refusal, response_of, ApiError,
    ErrorModel, HoldResponse, ResponseModel, CREATED, OK,
};
use crate::storage::{
    hold_row, insert_error, insert_failure, load_hold, lookup_outcome, optional_prior,
    optional_row, optional_text, prior_response, replay_outcome, row_of, HoldRow, PriorModel,
    PriorRow, RowModel,
};

verus! {

/// The type of the event that reports a new hold.
pub const AUTHORIZED_EVENT: &'static str = "nvuto.payments.booking.hold.authorized.v1";

/// What a caller asks for.
#[derive(Debug, PartialEq)]
pub enum Request {
    /// Open a hold.
    Authorize(AuthorizeRequest),
    /// Perform an operation on the hold with this reference.
    Mutate { operation: &'static str, reference: String, refund_amount: Option<Decimal> },
    /// Show the hold with this reference.
    Status { reference: String },
}

/// What a caller asks for, with its texts as character sequences.
pub enum RequestModel {
    Authorize(AuthorizeModel),
    Mutate { operation: Seq<char>, reference: Seq<char>, refund_amount: Option<DecimalModel> },
    Status { reference: Seq<char> },
}

impl View for Request {
    type V = RequestModel;

    open spec fn view(&self) -> RequestModel {
        match self {
            Request::Authorize(request) => RequestModel::Authorize(request@),
            Request::Mutate { operation, reference, refund_amount } => RequestModel::Mutate {
                operation: operation@,
                reference: reference@,
                refund_amount: optional(*refund_amount),
            },
            Request::Status { reference } => RequestModel::Status { reference: reference@ },
        }
    }
}

/// The claim of a tenant's request to be served once: under its key, with its
/// operation and fingerprint.
#[derive(Debug, PartialEq, Eq)]
pub struct Claim {
    pub tenant: String,
    pub record: IdempotencyRecord,
}

/// A claim, with its texts as character sequences.
pub struct ClaimModel {
    pub tenant: Seq<char>,
    pub record: RecordModel,
}

impl View for Claim {
    type V = ClaimModel;

    open spec fn view(&self) -> ClaimModel {
        ClaimModel { tenant: self.tenant@, record: self.record@ }
    }
}

/// How far a request has been served, and what its flow waits for.
#[derive(Debug, PartialEq)]
pub enum Stage {
    /// The identity service is being asked.
    Introspecting,
    /// The answer of the identity service is being read.
    ReadingIdentity,
    /// The hold to show is being looked up.
    Finding,
    /// A transaction is being opened.
    Beginning { claim: Claim },
    /// The request on record under the same key is being looked up.
    Matching { claim: Claim },
    /// The transaction is being committed before a replay.
    Replaying { response: HoldResponse },
    /// The hold to operate on is being looked up.
    Loading { claim: Claim },
    /// The hold is being written.
    Writing { claim: Claim, hold: BookingPaymentHold },
    /// The event is being queued.
    Emitting { claim: Claim, response: HoldResponse },
    /// The request is being put on record.
    Storing { response: HoldResponse },
    /// The transaction is being committed.
    Committing { response: HoldResponse },
    /// The request is served.
    Finished,
}

/// How far a request has been served, with its texts as character sequences.
pub enum StageModel {
    Introspecting,
    ReadingIdentity,
    Finding,
    Beginning { claim: ClaimModel },
    Matching { claim: ClaimModel },
    Replaying { response: ResponseModel },
    Loading { claim: ClaimModel },
    Writing { claim: ClaimModel, hold: HoldModel },
    Emitting { claim: ClaimModel, response: ResponseModel },
    Storing { response: ResponseModel },
    Committing { response: ResponseModel },
    Finished,
}

impl View for Stage {
    type V = StageModel;

    open spec fn view(&self) -> StageModel {
        match self {
            Stage::Introspecting => StageModel::Introspecting,
            Stage::ReadingIdentity => StageModel::ReadingIdentity,
            Stage::Finding => StageModel::Finding,
            Stage::Beginning { claim } => StageModel::Beginning { claim: claim@ },
            Stage::Matching { claim } => StageModel::Matching { claim: claim@ },
            Stage::Replaying { response } => StageModel::Replaying { response: response@ },
            Stage::Loading { claim } => StageModel::Loading { claim: claim@ },
            Stage::Writing { claim, hold } => StageModel::Writing { claim: claim@, hold: hold@ },
            Stage::Emitting { claim, response } => StageModel::Emitting {
                claim: claim@,
                response: response@,
            },
            Stage::Storing { response } => StageModel::Storing { response: response@ },
            Stage::Committing { response } => StageModel::Committing { response: response@ },
            Stage::Finished => StageModel::Finished,
        }
    }
}

/// What happened outside the library.
#[derive(Debug, PartialEq)]
pub enum Event {
    /// The identity service could not be reached.
    Unreachable,
    /// The identity service answered with this status.
    IdentityStatus(u16),
    /// The identity service's answer was read; it is missing where it could not be
    /// decoded.
    Identity(Option<Introspection>),
    /// The database did what it was asked to.
    Done,
    /// The database failed, with the code that it reported, if it reported one.
    Failed(Option<String>),
    /// The request on record under a key was looked up.
    Prior(Option<PriorRow>),
    /// A hold was looked up.
    Row(Option<HoldRow>),
}

/// What happened outside the library, with its texts as character sequences.
pub enum EventModel {
    Unreachable,
    IdentityStatus(u16),
    Identity(Option<IdentityModel>),
    Done,
    Failed(Option<Seq<char>>),
    Prior(Option<PriorModel>),
    Row(Option<RowModel>),
}

impl View for Event {
    type V = EventModel;

    open spec fn view(&self) -> EventModel {
        match self {
            Event::Unreachable => EventModel::Unreachable,
            Event::IdentityStatus(status) => EventModel::IdentityStatus(*status),
            Event::Identity(answer) => EventModel::Identity(optional_identity(*answer)),
            Event::Done => EventModel::Done,
            Event::Failed(code) => EventModel::Failed(optional_text(*code)),
            Event::Prior(row) => EventModel::Prior(optional_prior(*row)),
            Event::Row(row) => EventModel::Row(optional_row(*row)),
        }
    }
}

/// What is to be done outside the library.
#[derive(Debug, PartialEq)]
pub enum Action {
    /// Ask the identity service.
    Introspect(IntrospectionCall),
    /// Read the identity service's answer.
    ReadIdentity,
    /// Open a transaction.
    Begin,
    /// Look up the request on record under a tenant's key, and lock it.
    FindPrior { tenant: String, key: String },
    /// Look up a tenant's hold, and lock it.
    LoadHold { tenant: String, reference: String },
    /// Look up a tenant's hold.
    FindHold { tenant: String, reference: String },
    /// Write a new hold.
    InsertHold(HoldRow),
    /// Write what has changed of a hold.
    UpdateHold(HoldRow),
    /// Queue an event.
    Emit(OutboxEvent),
    /// Put a tenant's request on record, with its response.
    Store { tenant: String, record: IdempotencyRecord, response: HoldResponse },
    /// Commit the transaction.
    Commit,
    /// Answer the request with a hold.
    Answer { status: u16, response: HoldResponse },
    /// Answer the request with an error. A transaction that is open is rolled back.
    Refuse(ApiError),
    /// End the request without an answer. A transaction that is open is rolled back.
    Abandon,
}

/// What is to be done outside the library, with its texts as character sequences.
pub enum ActionModel {
    Introspect(CallModel),
    ReadIdentity,
    Begin,
    FindPrior { tenant: Seq<char>, key: Seq<char> },
    LoadHold { tenant: Seq<char>, reference: Seq<char> },
    FindHold { tenant: Seq<char>, reference: Seq<char> },
    InsertHold(RowModel),
    UpdateHold(RowModel),
    Emit(OutboxModel),
    Store { tenant: Seq<char>, record: RecordModel, response: ResponseModel },
    Commit,
    Answer { status: u16, response: ResponseModel },
    Refuse(ErrorModel),
    Abandon,
}

impl View for Action {
    type V = ActionModel;

    open spec fn view(&self) -> ActionModel {
        match self {
            Action::Introspect(call) => ActionModel::Introspect(call@),
            Action::ReadIdentity => ActionModel::ReadIdentity,
            Action::Begin => ActionModel::Begin,
            Action::FindPrior { tenant, key } => ActionModel::FindPrior {
                tenant: tenant@,
                key: key@,
            },
            Action::LoadHold { tenant, reference } => ActionModel::LoadHold {
                tenant: tenant@,
                reference: reference@,
            },
            Action::FindHold { tenant, reference } => ActionModel::FindHold {
                tenant: tenant@,
                reference: reference@,
            },
            Action::InsertHold(row) => ActionModel::InsertHold(row@),
            Action::UpdateHold(row) => ActionModel::UpdateHold(row@),
            Action::Emit(event) => ActionModel::Emit(event@),
            Action::Store { tenant, record, response } => ActionModel::Store {
                tenant: tenant@,
                record: record@,
                response: response@,
            },
            Action::Commit => ActionModel::Commit,
            Action::Answer { status, response } => ActionModel::Answer {
                status: *status,
                response: response@,
            },
            Action::Refuse(e) => ActionModel::Refuse(e@),
            Action::Abandon => ActionModel::Abandon,
        }
    }
}

/// A request that is being served, with its texts as character sequences.
pub struct FlowModel {
    pub request: RequestModel,
    pub key: Result<Seq<char>, ErrorModel>,
    pub correlation: Seq<char>,
    pub causation: Seq<char>,
    pub stage: StageModel,
}

/// A step of a flow: the flow after it, and what is to be done next.
pub struct StepModel {
    pub flow: FlowModel,
    pub action: ActionModel,
}

impl FlowModel {
    /// The step that takes the flow to a stage.
    pub open spec fn to(self, stage: StageModel, action: ActionModel) -> StepModel {
        StepModel { flow: FlowModel { stage, ..self }, action }
    }

    /// The step that answers the request with a hold.
    pub open spec fn answer(self, status: u16, response: ResponseModel) -> StepModel {
        self.to(StageModel::Finished, ActionModel::Answer { status, response })
    }

    /// The step that answers the request with an error.
    pub open spec fn refuse(self, e: ErrorModel) -> StepModel {
        self.to(StageModel::Finished, ActionModel::Refuse(e))
    }

    /// The step that ends the request without an answer.
    pub open spec fn abandon(self) -> StepModel {
        self.to(StageModel::Finished, ActionModel::Abandon)
    }

    /// The name of the operation that the request is put on record with.
    pub open spec fn operation(self) -> Seq<char> {
        match self.request {
            RequestModel::Mutate { operation, .. } => operation,
            _ => "authorize"@,
        }
    }

    /// What tells the request from others.
    pub open spec fn fingerprint(self) -> Seq<char> {
        match self.request {
            RequestModel::Authorize(request) => fingerprint_of_authorize(request),
            RequestModel::Mutate { reference, refund_amount, .. } => fingerprint_of_mutation(
                reference,
                refund_amount,
            ),
            RequestModel::Status { reference } => reference,
        }
    }

    /// The first step of a request: ask who sends it, unless it carries no token.
    pub open spec fn start(
        request: RequestModel,
        headers: axum::http::HeaderMap,
        identity_url: Seq<char>,
    ) -> StepModel {
        let key = trimmed_header(headers, "idempotency-key"@);
        let flow = FlowModel {
            request,
            key: if key.len() == 0 {
                Err(refusal(LifecycleError::MissingIdempotencyKey))
            } else {
                Ok(key)
            },
            correlation: trimmed_header(headers, "x-correlation-id"@),
            causation: trimmed_header(headers, "x-causation-id"@),
            stage: StageModel::Introspecting,
        };
        match call_outcome(headers, identity_url) {
            Ok(call) => flow.to(StageModel::Introspecting, ActionModel::Introspect(call)),
            Err(e) => flow.refuse(e),
        }
    }

    /// The step that follows once the sender's tenant is known: look the hold up, or
    /// open a transaction under the request's key.
    pub open spec fn proceed(self, tenant: Seq<char>) -> StepModel {
        match self.request {
            RequestModel::Status { reference } => self.to(
                StageModel::Finding,
                ActionModel::FindHold { tenant, reference },
            ),
            _ => match self.key {
                Err(e) => self.refuse(e),
                Ok(key) => self.to(
                    StageModel::Beginning {
                        claim: ClaimModel {
                            tenant,
                            record: RecordModel {
                                key,
                                fingerprint: self.fingerprint(),
                                operation: self.operation(),
                            },
                        },
                    },
                    ActionModel::Begin,
                ),
            },
        }
    }

    /// The step that follows once no earlier request was found under the key: open the
    /// hold, or look it up.
    pub open spec fn work(self, claim: ClaimModel, now: Timestamp, fresh: u128) -> StepModel {
        match self.request {
            RequestModel::Authorize(request) => match authorize_refusal(
                claim.tenant,
                request.booking_reference,
                request.amount,
                request.currency,
            ) {
                Some(e) => self.refuse(refusal(e)),
                None => {
                    let hold = HoldModel::authorized(
                        fresh,
                        claim.tenant,
                        request.booking_reference,
                        request.amount,
                        request.currency,
                        now,
                    );
                    self.to(
                        StageModel::Writing { claim, hold },
                        ActionModel::InsertHold(row_of(hold)),
                    )
                },
            },
            RequestModel::Mutate { reference, .. } => self.to(
                StageModel::Loading { claim },
                ActionModel::LoadHold { tenant: claim.tenant, reference },
            ),
            RequestModel::Status { .. } => self.abandon(),
        }
    }

    /// The step that follows once the hold is loaded: operate on it and write it.
    pub open spec fn operate(self, claim: ClaimModel, hold: HoldModel, now: Timestamp) -> StepModel {
        match self.request {
            RequestModel::Mutate { operation, refund_amount, .. } => match operation_outcome(
                hold,
                operation,
                refund_amount,
                now,
            ) {
                None => self.abandon(),
                Some(Err(e)) => self.refuse(refusal(e)),
                Some(Ok(next)) => self.to(
                    StageModel::Writing { claim, hold: next },
                    ActionModel::UpdateHold(row_of(next)),
                ),
            },
            _ => self.abandon(),
        }
    }

    /// The step that follows once the hold is written: queue the event about it.
    pub open spec fn report(self, claim: ClaimModel, hold: HoldModel, fresh: u128) -> StepModel {
        let event_type = match self.request {
            RequestModel::Mutate { operation, .. } => event_type_of(operation, hold.state),
            _ => AUTHORIZED_EVENT@,
        };
        self.to(
            StageModel::Emitting { claim, response: response_of(hold, false) },
            ActionModel::Emit(
                event_about(hold, fresh, event_type, self.correlation, self.causation),
            ),
        )
    }

    /// The answer where the hold could not be written.
    pub open spec fn write_failure(self, code: Option<Seq<char>>) -> ErrorModel {
        match self.request {
            RequestModel::Authorize(_) => insert_failure(code),
            _ => persistence_failure(),
        }
    }

    /// The status that a served request is answered with.
    pub open spec fn success(self) -> u16 {
        match self.request {
            RequestModel::Authorize(_) => CREATED,
            _ => OK,
        }
    }

    /// Whether the flow waits for the database.
    pub open spec fn waits_for_database(self) -> bool {
        !(self.stage is Introspecting || self.stage is ReadingIdentity || self.stage is Finished)
    }

    /// The step that an event leads to, where `now` is the current time and `fresh` an
    /// identifier that was never used. An event that the stage does not wait for ends
    /// the request.
    pub open spec fn step(self, event: EventModel, now: Timestamp, fresh: u128) -> StepModel {
        match (self.stage, event) {
            (StageModel::Introspecting, EventModel::Unreachable) => self.refuse(
                identity_unavailable("Platform identity service unavailable"@),
            ),
            (StageModel::Introspecting, EventModel::IdentityStatus(status)) => if status == OK {
                self.to(StageModel::ReadingIdentity, ActionModel::ReadIdentity)
            } else {
                self.refuse(
                    identity_unavailable("Platform identity service rejected introspection"@),
                )
            },
            (StageModel::ReadingIdentity, EventModel::Identity(answer)) => match identity_outcome(
                answer,
                now.seconds,
            ) {
                Ok(identity) => self.proceed(identity.tenant),
                Err(e) => self.refuse(e),
            },
            (StageModel::Finding, EventModel::Row(row)) => match lookup_outcome(row) {
                Ok(hold) => self.answer(OK, response_of(hold, false)),
                Err(e) => self.refuse(e),
            },
            (StageModel::Beginning { claim }, EventModel::Done) => self.to(
                StageModel::Matching { claim },
                ActionModel::FindPrior { tenant: claim.tenant, key: claim.record.key },
            ),
            (StageModel::Matching { claim }, EventModel::Prior(row)) => match replay_outcome(
                row,
                claim.record.operation,
                claim.record.fingerprint,
            ) {
                Ok(Some(response)) => self.to(
                    StageModel::Replaying { response },
                    ActionModel::Commit,
                ),
                Ok(None) => self.work(claim, now, fresh),
                Err(e) => self.refuse(e),
            },
            (StageModel::Replaying { response }, EventModel::Done) => self.answer(OK, response),
            (StageModel::Loading { claim }, EventModel::Row(row)) => match lookup_outcome(row) {
                Ok(hold) => self.operate(claim, hold, now),
                Err(e) => self.refuse(e),
            },
            (StageModel::Writing { claim, hold }, EventModel::Done) => self.report(
                claim,
                hold,
                fresh,
            ),
            (StageModel::Writing { .. }, EventModel::Failed(code)) => self.refuse(
                self.write_failure(code),
            ),
            (StageModel::Emitting { claim, response }, EventModel::Done) => self.to(
                StageModel::Storing { response },
                ActionModel::Store { tenant: claim.tenant, record: claim.record, response },
            ),
            (StageModel::Storing { response }, EventModel::Done) => self.to(
                StageModel::Committing { response },
                ActionModel::Commit,
            ),
            (StageModel::Committing { response }, EventModel::Done) => self.answer(
                self.success(),
                response,
            ),
            (_, EventModel::Failed(_)) => if self.waits_for_database() {
                self.refuse(persistence_failure())
            } else {
                self.abandon()
            },
            _ => self.abandon(),
        }
    }
}

/// Whether a step that operates on a loaded hold keeps the hold's books. A refund is
/// written only where it is accepted. On a hold that has a rest, a refund that the hold
/// covers is written, takes the refunded amount to no more than the captured one, and is
/// added exactly wherever the sum is a decimal; amounts that agree with the state still
/// do, and a valid hold stays valid. A refund of more than is left is refused, unless
/// what is left is no decimal and the amount is what is left rounded up to one.
pub open spec fn refunds_by_the_books(
    flow: FlowModel,
    hold: HoldModel,
    step: StepModel,
) -> bool {
    flow.request is Mutate && flow.request->Mutate_operation == "refund"@
        && flow.request->Mutate_refund_amount is Some ==> {
        let amount = flow.request->Mutate_refund_amount->0;
        let rest = hold.captured_amount.value() - hold.refunded_amount.value();
        let sum = hold.refunded_amount.value() + amount.value();
        let next = step.flow.stage->Writing_hold;
        &&& step.action is UpdateHold ==> {
            &&& step.flow.stage is Writing
            &&& step.action == ActionModel::UpdateHold(row_of(next))
            &&& is_accepted_refund(hold, amount, next)
        }
        &&& hold.has_a_rest() && hold.covers(amount) ==> {
            &&& step.action is UpdateHold
            &&& hold.refunded_amount.value() <= next.refunded_amount.value()
                <= hold.captured_amount.value()
            &&& hold.balanced() ==> next.balanced()
            &&& hold.valid() ==> next.valid()
            &&& is_decimal(sum) ==> next.refunded_amount.value() == sum
        }
        &&& hold.has_a_rest() && refund_refusal(hold.state) is None && sum > hold.captured_amount.value() && 0
            < amount.value() && (is_decimal(rest) || decimal_difference(
            hold.captured_amount,
            hold.refunded_amount,
        )->0.value() != amount.value()) ==> step == flow.refuse(
            refusal(LifecycleError::RefundExceedsCaptured),
        )
    }
}

/// A request that is being served.
#[derive(Debug, PartialEq)]
pub struct Flow {
    pub request: Request,
    pub key: Result<String, ApiError>,
    pub correlation: String,
    pub causation: String,
    pub stage: Stage,
}

impl View for Flow {
    type V = FlowModel;

    open spec fn view(&self) -> FlowModel {
        FlowModel {
            request: self.request@,
            key: match self.key {
                Ok(key) => Ok(key@),
                Err(e) => Err(e@),
            },
            correlation: self.correlation@,
            causation: self.causation@,
            stage: self.stage@,
        }
    }
}

/// A step of a flow: the flow after it, and what is to be done next.
#[derive(Debug, PartialEq)]
pub struct Step {
    pub flow: Flow,
    pub action: Action,
}

impl View for Step {
    type V = StepModel;

    open spec fn view(&self) -> StepModel {
        StepModel { flow: self.flow@, action: self.action@ }
    }
}

impl Flow {
    fn to(self, stage: Stage, action: Action) -> (r: Step)
        ensures
            r@ == self@.to(stage@, action@),
    {
        Step {
            flow: Flow {
                request: self.request,
                key: self.key,
                correlation: self.correlation,
                causation: self.causation,
                stage,
            },
            action,
        }
    }

    fn answer(self, status: u16, response: HoldResponse) -> (r: Step)
        ensures
            r@ == self@.answer(status, response@),
    {
        self.to(Stage::Finished, Action::Answer { status, response })
    }

    fn refuse(self, e: ApiError) -> (r: Step)
        ensures
            r@ == self@.refuse(e@),
    {
        self.to(Stage::Finished, Action::Refuse(e))
    }

    fn abandon(self) -> (r: Step)
        ensures
            r@ == self@.abandon(),
    {
        self.to(Stage::Finished, Action::Abandon)
    }

    /// Starts to serve a request, by asking the identity service who sends it.
    pub fn start(
        request: Request,
        headers: &axum::http::HeaderMap,
        identity_url: &str,
    ) -> (r: Step)
        ensures
            r@ == FlowModel::start(request@, *headers, identity_url@),
    {
        let flow = Flow {
            request,
            key: idempotency_key(headers),
            correlation: header_value(headers, "x-correlation-id"),
            causation: header_value(headers, "x-causation-id"),
            stage: Stage::Introspecting,
        };
        match introspection_call(headers, identity_url) {
            Ok(call) => flow.to(Stage::Introspecting, Action::Introspect(call)),
            Err(e) => flow.refuse(e),
        }
    }

    fn operation(&self) -> (r: &'static str)
        ensures
            r@ == self@.operation(),
    {
        match &self.request {
            Request::Mutate { operation, .. } => *operation,
            _ => "authorize",
        }
    }

    fn fingerprint(&self) -> (r: String)
        ensures
            r@ == self@.fingerprint(),
    {
        match &self.request {
            Request::Authorize(request) => authorize_fingerprint(request),
            Request::Mutate { reference, refund_amount, .. } => mutation_fingerprint(
                reference.as_str(),
                *refund_amount,
            ),
            Request::Status { reference } => reference.clone(),
        }
    }

    fn proceed(self, tenant: String) -> (r: Step)
        ensures
            r@ == self@.proceed(tenant@),
    {
        let looked_up = match &self.request {
            Request::Status { reference } => Some(reference.clone()),
            _ => None,
        };
        if let Some(reference) = looked_up {
            return self.to(Stage::Finding, Action::FindHold { tenant, reference });
        }
        let key = match &self.key {
            Ok(key) => key.clone(),
            Err(e) => {
                let e = e.clone();
                return self.refuse(e);
            },
        };
        let record = IdempotencyRecord {
            key,
            fingerprint: self.fingerprint(),
            operation: self.operation().to_owned(),
        };
        self.to(Stage::Beginning { claim: Claim { tenant, record } }, Action::Begin)
    }

    fn work(self, claim: Claim, now: Timestamp, fresh: u128) -> (r: Step)
        ensures
            r@ == self@.work(claim@, now, fresh),
    {
        let opened = match &self.request {
            Request::Authorize(request) => BookingPaymentHold::authorize_with_id(
                fresh,
                claim.tenant.as_str(),
                request.booking_reference.as_str(),
                request.amount,
                request.currency.as_str(),
                now,
            ),
            Request::Mutate { reference, .. } => {
                let action = Action::LoadHold {
                    tenant: claim.tenant.clone(),
                    reference: reference.clone(),
                };
                return self.to(Stage::Loading { claim }, action);
            },
            Request::Status { .. } => {
                return self.abandon();
            },
        };
        match opened {
            Ok(hold) => {
                let action = Action::InsertHold(hold_row(&hold));
                self.to(Stage::Writing { claim, hold }, action)
            },
            Err(e) => self.refuse(lifecycle_error(e)),
        }
    }

    fn operate(self, claim: Claim, hold: BookingPaymentHold, now: Timestamp) -> (r: Step)
        ensures
            r@ == self@.operate(claim@, hold@, now),
            refunds_by_the_books(self@, hold@, r@),
    {
        let mut hold = hold;
        let outcome = match &self.request {
            Request::Mutate { operation, refund_amount, .. } => apply_operation(
                &mut hold,
                operation,
                *refund_amount,
                now,
            ),
            _ => None,
        };
        match outcome {
            None => self.abandon(),
            Some(Err(e)) => self.refuse(lifecycle_error(e)),
            Some(Ok(_)) => {
                let action = Action::UpdateHold(hold_row(&hold));
                self.to(Stage::Writing { claim, hold }, action)
            },
        }
    }

    fn report(self, claim: Claim, hold: BookingPaymentHold, fresh: u128) -> (r: Step)
        ensures
            r@ == self@.report(claim@, hold@, fresh),
    {
        let event_type = match &self.request {
            Request::Mutate { operation, .. } => event_type(operation, hold.state),
            _ => AUTHORIZED_EVENT,
        };
        let event = outbox_event(
            &hold,
            fresh,
            event_type,
            self.correlation.as_str(),
            self.causation.as_str(),
        );
        let response = hold_response(&hold, false);
        self.to(Stage::Emitting { claim, response }, Action::Emit(event))
    }

    fn write_failure(&self, code: &Option<String>) -> (r: ApiError)
        ensures
            r@ == self@.write_failure(optional_text(*code)),
    {
        match &self.request {
            Request::Authorize(_) => insert_error(code),
            _ => db_error(),
        }
    }

    fn success(&self) -> (r: u16)
        ensures
            r == self@.success(),
    {
        match &self.request {
            Request::Authorize(_) => CREATED,
            _ => OK,
        }
    }

    /// Takes the flow a step further, where `now` is the current time and `fresh` an
    /// identifier that was never used.
    pub fn step_with(self, event: Event, now: Timestamp, fresh: u128) -> (r: Step)
        ensures
            r@ == self@.step(event@, now, fresh),
            self@.stage is Loading && event@ is Row && lookup_outcome(event@->Row_0) is Ok
                ==> refunds_by_the_books(self@, lookup_outcome(event@->Row_0)->Ok_0, r@),
    {
        let Flow { request, key, correlation, causation, stage } = self;
        let flow = Flow { request, key, correlation, causation, stage: Stage::Finished };
        match (stage, event) {
            (Stage::Introspecting, Event::Unreachable) => flow.refuse(identity_unreachable()),
            (Stage::Introspecting, Event::IdentityStatus(status)) => match accept_identity_status(
                status,
            ) {
                Ok(_) => flow.to(Stage::ReadingIdentity, Action::ReadIdentity),
                Err(e) => flow.refuse(e),
            },
            (Stage::ReadingIdentity, Event::Identity(answer)) => match accept_identity(
                answer,
                now.seconds,
            ) {
                Ok(identity) => flow.proceed(identity.tenant),
                Err(e) => flow.refuse(e),
            },
            (Stage::Finding, Event::Row(row)) => match load_hold(row) {
                Ok(hold) => flow.answer(OK, hold_response(&hold, false)),
                Err(e) => flow.refuse(e),
            },
            (Stage::Beginning { claim }, Event::Done) => {
                let action = Action::FindPrior {
                    tenant: claim.tenant.clone(),
                    key: claim.record.key.clone(),
                };
                flow.to(Stage::Matching { claim }, action)
            },
            (Stage::Matching { claim }, Event::Prior(row)) => match prior_response(
                row,
                claim.record.operation.as_str(),
                claim.record.fingerprint.as_str(),
            ) {
                Ok(Some(response)) => flow.to(Stage::Replaying { response }, Action::Commit),
                Ok(None) => flow.work(claim, now, fresh),
                Err(e) => flow.refuse(e),
            },
            (Stage::Replaying { response }, Event::Done) => flow.answer(OK, response),
            (Stage::Loading { claim }, Event::Row(row)) => match load_hold(row) {
                Ok(hold) => flow.operate(claim, hold, now),
                Err(e) => flow.refuse(e),
            },
            (Stage::Writing { claim, hold }, Event::Done) => flow.report(claim, hold, fresh),
            (Stage::Writing { .. }, Event::Failed(code)) => {
                let e = flow.write_failure(&code);
                flow.refuse(e)
            },
            (Stage::Emitting { claim, response }, Event::Done) => {
                let action = Action::Store {
                    tenant: claim.tenant,
                    record: claim.record,
                    response: response.clone(),
                };
                flow.to(Stage::Storing { response }, action)
            },
            (Stage::Storing { response }, Event::Done) => flow.to(
                Stage::Committing { response },
                Action::Commit,
            ),
            (Stage::Committing { response }, Event::Done) => {
                let status = flow.success();
                flow.answer(status, response)
            },
            (
                Stage::Introspecting | Stage::ReadingIdentity | Stage::Finished,
                Event::Failed(_),
            ) => flow.abandon(),
            (_, Event::Failed(_)) => flow.refuse(db_error()),
            _ => flow.abandon(),
        }
    }

    /// Takes the flow a step further, at the current time.
    pub fn step(self, event: Event) -> (r: Step)
        ensures
            exists|now: Timestamp, fresh: u128|
                {
                    &&& now.nanos < 1_000_000_000
                    &&& is_version_7(fresh)
                    &&& r@ == #[trigger] self@.step(event@, now, fresh)
                },
            self@.stage is Loading && event@ is Row && lookup_outcome(event@->Row_0) is Ok
                ==> refunds_by_the_books(self@, lookup_outcome(event@->Row_0)->Ok_0, r@),
    {
        self.step_with(event, utc_now(), now_v7())
    }
}

} // verus!
