//! Events about holds, as they are queued for the rest of the platform.

use vstd::prelude::*;

use crate::bookings_contract::{BookingPaymentHold, HoldModel, HoldState, CONTRACT_VERSION};
use crate::clock::Timestamp;
use crate::decimal::{Decimal, DecimalModel};

verus! {

/// What an event tells of a hold.
#[derive(Debug, PartialEq)]
pub struct EventPayload {
    pub contract_version: String,
    pub external_reference: String,
    pub booking_reference: String,
    pub state: HoldState,
    pub amount: Decimal,
    pub currency: String,
    pub captured_amount: Decimal,
    pub refunded_amount: Decimal,
    pub occurred_at: Timestamp,
}

/// An event in the outbox.
#[derive(Debug, PartialEq)]
pub struct OutboxEvent {
    pub id: u128,
    pub tenant_id: String,
    pub aggregate_reference: String,
    pub event_type: String,
    pub payload: EventPayload,
    pub correlation_id: String,
    pub causation_id: String,
}

/// What an event tells of a hold, with its texts as character sequences.
pub struct PayloadModel {
    pub contract_version: Seq<char>,
    pub external_reference: Seq<char>,
    pub booking_reference: Seq<char>,
    pub state: HoldState,
    pub amount: DecimalModel,
    pub currency: Seq<char>,
    pub captured_amount: DecimalModel,
    pub refunded_amount: DecimalModel,
    pub occurred_at: Timestamp,
}

/// An event in the outbox, with its texts as character sequences.
pub struct OutboxModel {
    pub id: u128,
    pub tenant_id: Seq<char>,
    pub aggregate_reference: Seq<char>,
    pub event_type: Seq<char>,
    pub payload: PayloadModel,
    pub correlation_id: Seq<char>,
    pub causation_id: Seq<char>,
}

impl View for EventPayload {
    type V = PayloadModel;

    open spec fn view(&self) -> PayloadModel {
        PayloadModel {
            contract_version: self.contract_version@,
            external_reference: self.external_reference@,
            booking_reference: self.booking_reference@,
            state: self.state,
            amount: self.amount@,
            currency: self.currency@,
            captured_amount: self.captured_amount@,
            refunded_amount: self.refunded_amount@,
            occurred_at: self.occurred_at,
        }
    }
}

impl View for OutboxEvent {
    type V = OutboxModel;

    open spec fn view(&self) -> OutboxModel {
        OutboxModel {
            id: self.id,
            tenant_id: self.tenant_id@,
            aggregate_reference: self.aggregate_reference@,
            event_type: self.event_type@,
            payload: self.payload@,
            correlation_id: self.correlation_id@,
            causation_id: self.causation_id@,
        }
    }
}

/// The event that reports what happened to a hold.
pub open spec fn event_about(
    hold: HoldModel,
    id: u128,
    event_type: Seq<char>,
    correlation_id: Seq<char>,
    causation_id: Seq<char>,
) -> OutboxModel {
    OutboxModel {
        id,
        tenant_id: hold.tenant_id,
        aggregate_reference: hold.external_reference,
        event_type,
        payload: PayloadModel {
            contract_version: CONTRACT_VERSION@,
            external_reference: hold.external_reference,
            booking_reference: hold.booking_reference,
            state: hold.state,
            amount: hold.amount,
            currency: hold.currency,
            captured_amount: hold.captured_amount,
            refunded_amount: hold.refunded_amount,
            occurred_at: hold.updated_at,
        },
        correlation_id,
        causation_id,
    }
}

/// The event that reports what happened to a hold.
pub fn outbox_event(
    hold: &BookingPaymentHold,
    id: u128,
    event_type: &str,
    correlation_id: &str,
    causation_id: &str,
) -> (r: OutboxEvent)
    ensures
        r@ == event_about(hold@, id, event_type@, correlation_id@, causation_id@),
        r.id == id,
        r.tenant_id@ == hold.tenant_id@,
        r.aggregate_reference@ == hold.external_reference@,
        r.event_type@ == event_type@,
        r.correlation_id@ == correlation_id@,
        r.causation_id@ == causation_id@,
        r.payload.contract_version@ == "nvuto.payments.booking.v1"@,
        r.payload.external_reference@ == hold.external_reference@,
        r.payload.booking_reference@ == hold.booking_reference@,
        r.payload.state == hold.state,
        r.payload.amount == hold.amount,
        r.payload.currency@ == hold.currency@,
        r.payload.captured_amount == hold.captured_amount,
        r.payload.refunded_amount == hold.refunded_amount,
        r.payload.occurred_at == hold.updated_at,
{
    OutboxEvent {
        id,
        tenant_id: hold.tenant_id.clone(),
        aggregate_reference: hold.external_reference.clone(),
        event_type: event_type.to_owned(),
        payload: EventPayload {
            contract_version: CONTRACT_VERSION.to_owned(),
            external_reference: hold.external_reference.clone(),
            booking_reference: hold.booking_reference.clone(),
            state: hold.state,
            amount: hold.amount,
            currency: hold.currency.clone(),
            captured_amount: hold.captured_amount,
            refunded_amount: hold.refunded_amount,
            occurred_at: hold.updated_at,
        },
        correlation_id: correlation_id.to_owned(),
        causation_id: causation_id.to_owned(),
    }
}

} // verus!
