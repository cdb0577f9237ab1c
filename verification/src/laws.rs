//! What holds of the lifecycle of a hold as a whole.

use vstd::prelude::*;

use crate::bookings_contract::{
    authorize_refusal, external_reference_of, refund_refusal, HoldModel, HoldState, LifecycleError,
};
use crate::clock::Timestamp;
use crate::decimal::{
    at_scale, decimals_are_in_range, in_range, is_decimal, multiples_of_a_unit_are_decimals,
    rounding_keeps_decimals, rounds, DecimalModel,
};
use crate::identifier;
use crate::text;

verus! {

/// What may still be refunded on a hold that has a rest is in the range of decimals, and
/// so is what will have been refunded after a refund that the hold covers.
pub proof fn covered_refunds_stay_in_range(hold: HoldModel, amount: DecimalModel)
    requires
        hold.wf(),
        hold.has_a_rest(),
    ensures
        in_range(hold.captured_amount.value() - hold.refunded_amount.value()),
        hold.covers(amount) ==> in_range(hold.refunded_amount.value() + amount.value()),
{
    decimals_are_in_range(hold.captured_amount);
    decimals_are_in_range(hold.refunded_amount);
}

/// A refund that the hold covers is accepted, and the refunded amount grows to no more
/// than the captured amount. Where the amounts agreed with the state they still do, and
/// a valid hold stays valid. Here `refundable` and `total` are the results of the
/// subtraction and the addition, rounded where decimals cannot hold them.
pub proof fn covered_refunds_are_accepted(
    hold: HoldModel,
    amount: DecimalModel,
    refundable: DecimalModel,
    total: DecimalModel,
    now: Timestamp,
)
    requires
        hold.wf(),
        amount.wf(),
        hold.covers(amount),
        rounds(hold.captured_amount.value() - hold.refunded_amount.value(), refundable),
        rounds(hold.refunded_amount.value() + amount.value(), total),
    ensures
        hold.refund_outcome(amount, Some(refundable), Some(total), now) == Some(
            Ok::<HoldModel, LifecycleError>(hold.refunded(total, now)),
        ),
        hold.refunded(total, now).wf(),
        hold.balanced() ==> hold.refunded(total, now).balanced(),
        hold.valid() ==> hold.refunded(total, now).valid(),
        hold.refunded_amount.value() <= total.value() <= hold.captured_amount.value(),
{
    assert(amount.wf());
    assert(hold.captured_amount.wf());
    assert(hold.refunded_amount.wf());
}

/// A refund of more than is left is refused, whatever the addition gives, unless it is
/// of what is left rounded up to a decimal.
pub proof fn uncovered_refunds_are_refused(
    hold: HoldModel,
    amount: DecimalModel,
    refundable: DecimalModel,
    total: Option<DecimalModel>,
    now: Timestamp,
)
    requires
        amount.wf(),
        refund_refusal(hold.state) is None,
        0 < amount.value(),
        !hold.covers(amount),
        rounds(hold.captured_amount.value() - hold.refunded_amount.value(), refundable),
        amount.value() != refundable.value(),
    ensures
        hold.refund_outcome(amount, Some(refundable), total, now) == Some(
            Err::<HoldModel, LifecycleError>(LifecycleError::RefundExceedsCaptured),
        ),
{
    assert(amount.wf());
}

/// An accepted authorization opens a valid hold.
pub proof fn authorized_holds_are_valid(
    id: u128,
    tenant_id: Seq<char>,
    booking_reference: Seq<char>,
    amount: DecimalModel,
    currency: Seq<char>,
    now: Timestamp,
)
    requires
        amount.wf(),
        authorize_refusal(tenant_id, booking_reference, amount, currency) is None,
    ensures
        HoldModel::authorized(
            id,
            tenant_id,
            booking_reference,
            amount,
            currency,
            now,
        ).valid(),
{
    text::trimmed_is_stable(tenant_id);
    text::trimmed_is_stable(booking_reference);
    text::ascii_upper_is_stable(text::trimmed(currency));
    assert(DecimalModel::zero().value() == 0);
}

/// Holds that carry the reference of their identifier are told apart by it: where the
/// references are the same, so are the identifiers.
pub proof fn references_tell_holds_apart(a: HoldModel, b: HoldModel)
    requires
        a.external_reference == external_reference_of(a.id),
        b.external_reference == external_reference_of(b.id),
        a.external_reference == b.external_reference,
    ensures
        a.id == b.id,
{
    let prefix = "NVH-"@;
    assert((prefix + identifier::uuid_text(a.id)).skip(prefix.len() as int)
        =~= identifier::uuid_text(a.id));
    assert((prefix + identifier::uuid_text(b.id)).skip(prefix.len() as int)
        =~= identifier::uuid_text(b.id));
    identifier::texts_tell_identifiers_apart(a.id, b.id);
}

/// A capture leaves the whole amount captured. Where the amounts agreed with the state
/// they still do, and a valid hold stays valid.
pub proof fn captures_keep_holds_valid(hold: HoldModel, now: Timestamp)
    requires
        hold.capture(now) is Ok,
    ensures
        hold.balanced() ==> hold.capture(now)->Ok_0.balanced(),
        hold.valid() ==> hold.capture(now)->Ok_0.valid(),
        hold.capture(now)->Ok_0.captured_amount == hold.amount,
{
}

/// A release changes no amount. Where the amounts agreed with the state they still do,
/// and a valid hold stays valid.
pub proof fn releases_keep_holds_valid(hold: HoldModel, now: Timestamp)
    requires
        hold.release(now) is Ok,
    ensures
        hold.balanced() ==> hold.release(now)->Ok_0.balanced(),
        hold.valid() ==> hold.release(now)->Ok_0.valid(),
        hold.release(now)->Ok_0.captured_amount == hold.captured_amount,
        hold.release(now)->Ok_0.refunded_amount == hold.refunded_amount,
{
}

/// An operation on a hold. For a refund, `refundable` and `total` are the results of the
/// subtraction and the addition.
pub enum OperationModel {
    Capture { now: Timestamp },
    Release { now: Timestamp },
    Refund {
        amount: DecimalModel,
        refundable: Option<DecimalModel>,
        total: Option<DecimalModel>,
        now: Timestamp,
    },
}

/// What an operation makes of a hold.
pub open spec fn outcome_of(hold: HoldModel, operation: OperationModel) -> Option<
    Result<HoldModel, LifecycleError>,
> {
    match operation {
        OperationModel::Capture { now } => Some(hold.capture(now)),
        OperationModel::Release { now } => Some(hold.release(now)),
        OperationModel::Refund { amount, refundable, total, now } => hold.refund_outcome(
            amount,
            refundable,
            total,
            now,
        ),
    }
}

/// The hold once an operation was tried on it: one that is not accepted changes nothing.
pub open spec fn tried(hold: HoldModel, operation: OperationModel) -> HoldModel {
    match outcome_of(hold, operation) {
        Some(Ok(next)) => next,
        _ => hold,
    }
}

/// The hold once some operations were tried on it, one after the other.
pub open spec fn after_all(hold: HoldModel, operations: Seq<OperationModel>) -> HoldModel
    decreases operations.len(),
{
    if operations.len() == 0 {
        hold
    } else {
        tried(after_all(hold, operations.drop_last()), operations.last())
    }
}

/// When an operation took place.
pub open spec fn time_of(operation: OperationModel) -> Timestamp {
    match operation {
        OperationModel::Capture { now } => now,
        OperationModel::Release { now } => now,
        OperationModel::Refund { now, .. } => now,
    }
}

/// An accepted operation is dated; one that is not accepted leaves the hold as it was.
pub proof fn accepted_operations_are_dated(hold: HoldModel, operation: OperationModel)
    ensures
        match outcome_of(hold, operation) {
            Some(Ok(next)) => {
                &&& tried(hold, operation) == next
                &&& next.updated_at == time_of(operation)
            },
            _ => tried(hold, operation) == hold,
        },
{
}

/// No sequence of operations changes what identifies a hold, nor the amount that it is
/// for.
pub proof fn operations_keep_the_terms(hold: HoldModel, operations: Seq<OperationModel>)
    ensures
        after_all(hold, operations).id == hold.id,
        after_all(hold, operations).tenant_id == hold.tenant_id,
        after_all(hold, operations).external_reference == hold.external_reference,
        after_all(hold, operations).booking_reference == hold.booking_reference,
        after_all(hold, operations).amount == hold.amount,
        after_all(hold, operations).currency == hold.currency,
        after_all(hold, operations).created_at == hold.created_at,
    decreases operations.len(),
{
    if operations.len() > 0 {
        operations_keep_the_terms(hold, operations.drop_last());
    }
}

/// Whether a hold in this state has been captured.
pub open spec fn is_past_capture(state: HoldState) -> bool {
    state == HoldState::Captured || state == HoldState::PartiallyRefunded || state
        == HoldState::Refunded
}

/// Once a hold is captured, it stays so whatever operations are tried on it: every later
/// capture and every later release is refused as already captured, and what was captured
/// stays the same.
pub proof fn captured_holds_stay_captured(
    hold: HoldModel,
    operations: Seq<OperationModel>,
    later: Timestamp,
)
    requires
        is_past_capture(hold.state),
    ensures
        is_past_capture(after_all(hold, operations).state),
        after_all(hold, operations).captured_amount == hold.captured_amount,
        after_all(hold, operations).capture(later) == Err::<HoldModel, LifecycleError>(
            LifecycleError::AlreadyCaptured,
        ),
        after_all(hold, operations).release(later) == Err::<HoldModel, LifecycleError>(
            LifecycleError::AlreadyCaptured,
        ),
    decreases operations.len(),
{
    if operations.len() > 0 {
        captured_holds_stay_captured(hold, operations.drop_last(), later);
    }
}

/// A hold is captured at most once, and not released afterwards, whatever operations are
/// tried on it in between.
pub proof fn holds_are_captured_at_most_once(
    hold: HoldModel,
    now: Timestamp,
    operations: Seq<OperationModel>,
    later: Timestamp,
)
    requires
        hold.capture(now) is Ok,
    ensures
        after_all(hold.capture(now)->Ok_0, operations).captured_amount == hold.amount,
        after_all(hold.capture(now)->Ok_0, operations).capture(later) == Err::<
            HoldModel,
            LifecycleError,
        >(LifecycleError::AlreadyCaptured),
        after_all(hold.capture(now)->Ok_0, operations).release(later) == Err::<
            HoldModel,
            LifecycleError,
        >(LifecycleError::AlreadyCaptured),
{
    captured_holds_stay_captured(hold.capture(now)->Ok_0, operations, later);
}

/// A hold that was declined, has expired, was released or is refunded in full refuses
/// every operation, and no sequence of operations changes it.
pub proof fn terminal_states_refuse_everything(
    hold: HoldModel,
    operations: Seq<OperationModel>,
    operation: OperationModel,
)
    requires
        hold.state == HoldState::Declined || hold.state == HoldState::Expired || hold.state
            == HoldState::Released || hold.state == HoldState::Refunded,
    ensures
        after_all(hold, operations) == hold,
        outcome_of(after_all(hold, operations), operation) is Some,
        outcome_of(after_all(hold, operations), operation)->0 is Err,
        operation !is Refund && hold.state == HoldState::Declined ==> outcome_of(hold, operation)
            == Some(Err::<HoldModel, LifecycleError>(LifecycleError::Declined)),
        operation !is Refund && hold.state == HoldState::Expired ==> outcome_of(hold, operation)
            == Some(Err::<HoldModel, LifecycleError>(LifecycleError::Expired)),
    decreases operations.len(),
{
    if operations.len() > 0 {
        terminal_states_refuse_everything(hold, operations.drop_last(), operations.last());
    }
}

/// Once a hold is released, it stays so whatever operations are tried on it: every later
/// capture and every later release is refused as already released, and nothing is
/// refunded.
pub proof fn released_holds_stay_released(
    hold: HoldModel,
    operations: Seq<OperationModel>,
    later: Timestamp,
    amount: DecimalModel,
    refundable: Option<DecimalModel>,
    total: Option<DecimalModel>,
)
    requires
        hold.state == HoldState::Released,
    ensures
        after_all(hold, operations) == hold,
        after_all(hold, operations).capture(later) == Err::<HoldModel, LifecycleError>(
            LifecycleError::AlreadyReleased,
        ),
        after_all(hold, operations).release(later) == Err::<HoldModel, LifecycleError>(
            LifecycleError::AlreadyReleased,
        ),
        0 < amount.value() ==> after_all(hold, operations).refund_outcome(
            amount,
            refundable,
            total,
            later,
        ) == Some(Err::<HoldModel, LifecycleError>(LifecycleError::InvalidState)),
{
    terminal_states_refuse_everything(
        hold,
        operations,
        OperationModel::Capture { now: later },
    );
}

/// A hold is released at most once, and not captured afterwards, whatever operations are
/// tried on it in between.
pub proof fn holds_are_released_at_most_once(
    hold: HoldModel,
    now: Timestamp,
    operations: Seq<OperationModel>,
    later: Timestamp,
)
    requires
        hold.release(now) is Ok,
    ensures
        after_all(hold.release(now)->Ok_0, operations) == hold.release(now)->Ok_0,
        after_all(hold.release(now)->Ok_0, operations).capture(later) == Err::<
            HoldModel,
            LifecycleError,
        >(LifecycleError::AlreadyReleased),
        after_all(hold.release(now)->Ok_0, operations).release(later) == Err::<
            HoldModel,
            LifecycleError,
        >(LifecycleError::AlreadyReleased),
{
    released_holds_stay_released(
        hold.release(now)->Ok_0,
        operations,
        later,
        DecimalModel::zero(),
        None,
        None,
    );
}

/// Whether the subtraction and the addition of a refund are those of decimals: where they
/// have results, these are the exact ones, rounded where decimals cannot hold them.
pub open spec fn is_reckoned(
    hold: HoldModel,
    amount: DecimalModel,
    refundable: Option<DecimalModel>,
    total: Option<DecimalModel>,
) -> bool {
    &&& hold.wf()
    &&& amount.wf()
    &&& refundable is Some ==> rounds(
        hold.captured_amount.value() - hold.refunded_amount.value(),
        refundable->0,
    )
    &&& total is Some ==> rounds(hold.refunded_amount.value() + amount.value(), total->0)
}

/// Whether an operation on a hold reckons as decimals do: the results of its subtraction
/// and its addition are those of decimals, and it gives back what the hold covers, unless
/// what is left is a decimal or the operation is not accepted.
pub open spec fn reckons_well(hold: HoldModel, operation: OperationModel) -> bool {
    match operation {
        OperationModel::Refund { amount, refundable, total, .. } => {
            &&& is_reckoned(hold, amount, refundable, total)
            &&& {
                ||| hold.covers(amount)
                ||| is_decimal(hold.captured_amount.value() - hold.refunded_amount.value())
                ||| outcome_of(hold, operation) is None
                ||| outcome_of(hold, operation)->0 is Err
            }
        },
        _ => true,
    }
}

/// Whatever operations are tried on a hold whose amounts agree with its state, they still
/// do, so that no more is refunded than was captured; and a valid hold stays valid.
pub proof fn operations_keep_holds_valid(hold: HoldModel, operations: Seq<OperationModel>)
    requires
        hold.wf(),
        hold.balanced(),
        forall|i: int|
            0 <= i < operations.len() ==> reckons_well(
                after_all(hold, operations.take(i)),
                #[trigger] operations[i],
            ),
    ensures
        after_all(hold, operations).wf(),
        after_all(hold, operations).balanced(),
        hold.valid() ==> after_all(hold, operations).valid(),
    decreases operations.len(),
{
    if operations.len() > 0 {
        let n = operations.len() - 1;
        let fewer = operations.drop_last();
        assert forall|i: int| 0 <= i < fewer.len() implies reckons_well(
            after_all(hold, fewer.take(i)),
            #[trigger] fewer[i],
        ) by {
            assert(fewer[i] == operations[i]);
            assert(fewer.take(i) =~= operations.take(i));
        }
        operations_keep_holds_valid(hold, fewer);
        let before = after_all(hold, fewer);
        assert(operations.take(n) =~= fewer);
        assert(reckons_well(before, operations[n]));
        match operations.last() {
            OperationModel::Refund { amount, refundable, total, now } => {
                if outcome_of(before, operations.last()) matches Some(Ok(next)) {
                    lemma_accepted_is_covered(before, amount, refundable->0, total, now);
                    covered_refunds_are_accepted(before, amount, refundable->0, total->0, now);
                }
            },
            _ => {},
        }
    }
}

/// A refund that was accepted is one that the hold covers, wherever what is left is a
/// decimal.
proof fn lemma_accepted_is_covered(
    hold: HoldModel,
    amount: DecimalModel,
    refundable: DecimalModel,
    total: Option<DecimalModel>,
    now: Timestamp,
)
    requires
        amount.wf(),
        rounds(hold.captured_amount.value() - hold.refunded_amount.value(), refundable),
        hold.covers(amount) || is_decimal(
            hold.captured_amount.value() - hold.refunded_amount.value(),
        ),
        hold.refund_outcome(amount, Some(refundable), total, now) is Some,
        hold.refund_outcome(amount, Some(refundable), total, now)->0 is Ok,
    ensures
        hold.covers(amount),
{
    if !hold.covers(amount) {
        rounding_keeps_decimals(
            hold.captured_amount.value() - hold.refunded_amount.value(),
            refundable,
        );
        uncovered_refunds_are_refused(hold, amount, refundable, total, now);
    }
}

/// Refunds in the smallest units of the captured amount are exact: what is left is a
/// decimal, and so is what will have been refunded, as long as it does not exceed the
/// captured amount.
pub proof fn refunds_in_captured_units_are_exact(hold: HoldModel, amount: DecimalModel)
    requires
        hold.wf(),
        hold.solvent(),
        at_scale(hold.refunded_amount.value(), hold.captured_amount.scale),
        at_scale(amount.value(), hold.captured_amount.scale),
        0 < amount.value(),
    ensures
        is_decimal(hold.captured_amount.value() - hold.refunded_amount.value()),
        at_scale(hold.refunded_amount.value() + amount.value(), hold.captured_amount.scale),
        hold.refunded_amount.value() + amount.value() <= hold.captured_amount.value()
            ==> is_decimal(hold.refunded_amount.value() + amount.value()),
{
    let captured = hold.captured_amount;
    let refunded = hold.refunded_amount.value();
    crate::decimal::scales_add_up(captured, refunded, amount.value());
    multiples_of_a_unit_are_decimals(captured, captured.value() - refunded);
    if refunded + amount.value() <= captured.value() {
        multiples_of_a_unit_are_decimals(captured, refunded + amount.value());
    }
}

/// Whether a refund of `amount` took a hold from `before` to `after`, with the
/// subtraction and the addition rounded where decimals cannot hold them.
pub open spec fn is_accepted_refund(
    before: HoldModel,
    amount: DecimalModel,
    after: HoldModel,
) -> bool {
    exists|refundable: DecimalModel, total: DecimalModel, now: Timestamp|
        {
            &&& rounds(
                before.captured_amount.value() - before.refunded_amount.value(),
                refundable,
            )
            &&& rounds(before.refunded_amount.value() + amount.value(), total)
            &&& #[trigger] before.refund_outcome(amount, Some(refundable), Some(total), now)
                == Some(Ok::<HoldModel, LifecycleError>(after))
        }
}

/// Whether `holds` are the states of one hold between accepted refunds of `amounts`.
pub open spec fn is_refund_run(holds: Seq<HoldModel>, amounts: Seq<DecimalModel>) -> bool {
    &&& holds.len() == amounts.len() + 1
    &&& forall|i: int|
        0 <= i < amounts.len() ==> is_accepted_refund(holds[i], #[trigger] amounts[i], holds[i + 1])
}

/// The sum of some amounts.
pub open spec fn total_value(amounts: Seq<DecimalModel>) -> int
    decreases amounts.len(),
{
    if amounts.len() == 0 {
        0
    } else {
        total_value(amounts.drop_last()) + amounts.last().value()
    }
}

/// However many refunds are accepted on a hold, the refunded amount grows by their
/// sum, it never exceeds the captured amount, and the hold is refunded exactly when it
/// reaches it, as long as decimals can hold, at each of them, what is left and what will
/// have been refunded. What is left need not be a decimal where the hold covers the
/// refund.
pub proof fn refunds_add_up(holds: Seq<HoldModel>, amounts: Seq<DecimalModel>)
    requires
        is_refund_run(holds, amounts),
        holds[0].wf(),
        holds[0].solvent(),
        forall|i: int|
            0 <= i < amounts.len() ==> (#[trigger] amounts[i]).wf() && (holds[i].covers(amounts[i])
                || is_decimal(
                holds[i].captured_amount.value() - holds[i].refunded_amount.value(),
            )) && is_decimal(holds[i].refunded_amount.value() + amounts[i].value()),
    ensures
        holds.last().wf(),
        holds.last().solvent(),
        holds[0].valid() ==> holds.last().valid(),
        holds.last().captured_amount == holds[0].captured_amount,
        holds.last().refunded_amount.value() == holds[0].refunded_amount.value() + total_value(
            amounts,
        ),
        holds.last().refunded_amount.value() <= holds[0].captured_amount.value(),
        amounts.len() > 0 ==> (holds.last().state == HoldState::Refunded
            <==> holds.last().refunded_amount.value() == holds[0].captured_amount.value()),
    decreases amounts.len(),
{
    if amounts.len() > 0 {
        let n = amounts.len() - 1;
        let earlier = holds.drop_last();
        let fewer = amounts.drop_last();
        assert forall|i: int| 0 <= i < fewer.len() implies is_accepted_refund(
            earlier[i],
            #[trigger] fewer[i],
            earlier[i + 1],
        ) by {
            assert(fewer[i] == amounts[i]);
        }
        assert forall|i: int| 0 <= i < fewer.len() implies (#[trigger] fewer[i]).wf() && (
        earlier[i].covers(fewer[i]) || is_decimal(
            earlier[i].captured_amount.value() - earlier[i].refunded_amount.value(),
        )) && is_decimal(earlier[i].refunded_amount.value() + fewer[i].value()) by {
            assert(fewer[i] == amounts[i]);
        }
        refunds_add_up(earlier, fewer);
        let amount = amounts[n];
        assert(earlier.last() == holds[n]);
        lemma_accepted_refund(holds[n], amount, holds[n + 1]);
    }
}

/// An accepted refund is added exactly wherever the sum is a decimal, and takes the
/// refunded amount to no more than the captured one.
proof fn lemma_accepted_refund(before: HoldModel, amount: DecimalModel, after: HoldModel)
    requires
        before.wf(),
        amount.wf(),
        is_accepted_refund(before, amount, after),
        before.covers(amount) || is_decimal(
            before.captured_amount.value() - before.refunded_amount.value(),
        ),
    ensures
        before.covers(amount),
        after.wf(),
        before.valid() ==> after.valid(),
        after.captured_amount == before.captured_amount,
        before.refunded_amount.value() <= after.refunded_amount.value()
            <= after.captured_amount.value(),
        after.state == HoldState::Refunded <==> after.refunded_amount.value()
            == after.captured_amount.value(),
        is_decimal(before.refunded_amount.value() + amount.value())
            ==> after.refunded_amount.value() == before.refunded_amount.value() + amount.value(),
{
    let (refundable, total, now) = choose|
        refundable: DecimalModel,
        total: DecimalModel,
        now: Timestamp,
    |
        {
            &&& rounds(before.captured_amount.value() - before.refunded_amount.value(), refundable)
            &&& rounds(before.refunded_amount.value() + amount.value(), total)
            &&& #[trigger] before.refund_outcome(amount, Some(refundable), Some(total), now)
                == Some(Ok::<HoldModel, LifecycleError>(after))
        };
    lemma_accepted_is_covered(before, amount, refundable, Some(total), now);
    covered_refunds_are_accepted(before, amount, refundable, total, now);
    if is_decimal(before.refunded_amount.value() + amount.value()) {
        rounding_keeps_decimals(before.refunded_amount.value() + amount.value(), total);
    }
}

/// Along a run of refunds in the smallest units of the captured amount, what is refunded
/// is in those units too, and so decimals can hold all the amounts.
proof fn lemma_units_along_a_run(holds: Seq<HoldModel>, amounts: Seq<DecimalModel>, k: int)
    requires
        is_refund_run(holds, amounts),
        holds[0].wf(),
        holds[0].solvent(),
        at_scale(holds[0].refunded_amount.value(), holds[0].captured_amount.scale),
        forall|i: int|
            0 <= i < amounts.len() ==> (#[trigger] amounts[i]).wf() && at_scale(
                amounts[i].value(),
                holds[0].captured_amount.scale,
            ),
        0 <= k <= amounts.len(),
    ensures
        holds[k].wf(),
        holds[k].solvent(),
        holds[k].captured_amount == holds[0].captured_amount,
        at_scale(holds[k].refunded_amount.value(), holds[0].captured_amount.scale),
        k < amounts.len() ==> {
            &&& holds[k].covers(amounts[k])
            &&& is_decimal(holds[k].refunded_amount.value() + amounts[k].value())
        },
    decreases k,
{
    if k > 0 {
        lemma_units_along_a_run(holds, amounts, k - 1);
        let before = holds[k - 1];
        let amount = amounts[k - 1];
        assert(is_accepted_refund(before, amount, holds[(k - 1) + 1]));
        refunds_in_captured_units_are_exact(before, amount);
        lemma_accepted_refund(before, amount, holds[k]);
    }
    if k < amounts.len() {
        assert(is_accepted_refund(holds[k], amounts[k], holds[k + 1]));
        assert(amounts[k].value() > 0);
        refunds_in_captured_units_are_exact(holds[k], amounts[k]);
        lemma_accepted_refund(holds[k], amounts[k], holds[k + 1]);
    }
}

/// Refunds in the smallest units of the captured amount always add up: on a hold that is
/// refunded in those units, decimals can hold all the amounts.
pub proof fn refunds_in_captured_units_add_up(holds: Seq<HoldModel>, amounts: Seq<DecimalModel>)
    requires
        is_refund_run(holds, amounts),
        holds[0].wf(),
        holds[0].solvent(),
        at_scale(holds[0].refunded_amount.value(), holds[0].captured_amount.scale),
        forall|i: int|
            0 <= i < amounts.len() ==> (#[trigger] amounts[i]).wf() && at_scale(
                amounts[i].value(),
                holds[0].captured_amount.scale,
            ),
    ensures
        holds.last().wf(),
        holds.last().solvent(),
        holds[0].valid() ==> holds.last().valid(),
        holds.last().captured_amount == holds[0].captured_amount,
        holds.last().refunded_amount.value() == holds[0].refunded_amount.value() + total_value(
            amounts,
        ),
        at_scale(holds.last().refunded_amount.value(), holds[0].captured_amount.scale),
        holds.last().refunded_amount.value() <= holds[0].captured_amount.value(),
        amounts.len() > 0 ==> (holds.last().state == HoldState::Refunded
            <==> holds.last().refunded_amount.value() == holds[0].captured_amount.value()),
{
    assert forall|i: int| 0 <= i < amounts.len() implies (#[trigger] amounts[i]).wf() && (
    holds[i].covers(amounts[i]) || is_decimal(
        holds[i].captured_amount.value() - holds[i].refunded_amount.value(),
    )) && is_decimal(holds[i].refunded_amount.value() + amounts[i].value()) by {
        lemma_units_along_a_run(holds, amounts, i);
    }
    lemma_units_along_a_run(holds, amounts, amounts.len() as int);
    refunds_add_up(holds, amounts);
}

} // verus!
