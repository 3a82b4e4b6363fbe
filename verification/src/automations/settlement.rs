//! Settlements: what happens while the due wakeups of a universe are dispatched, and
//! what holds of it.

use crate::automations::domain::{
    ControlPlaneStateModel, RevisionId, ScheduledWakeupModel, TraceEventModel, TraceRecordModel,
};
use crate::automations::due::{due_of, DueWakeupModel};
use crate::automations::error::AutomationsErrorModel;
use crate::automations::laws::{
    answer_is_taken_over, consistent, dispatched_wakeup_is_no_longer_scheduled,
    due_wakeups_are_those_scheduled, is_due, recording_an_effect_only_traces, trace_goes_on,
};
use crate::automations::transitions::{
    dispatched, effect_recorded, persisted, traces_of_response, wakeup_in,
};
use crate::ordered_map::has_key_means_present;
use crate::protocol::{AdvanceResponseModel, AutomationEventModel};
use vstd::prelude::*;

verus! {

/// The number of wakeups that the trace says were dispatched.
pub open spec fn dispatch_count(traces: Seq<TraceRecordModel>) -> nat
    decreases traces.len(),
{
    if traces.len() == 0 {
        0
    } else {
        dispatch_count(traces.drop_last()) + if traces.last().event is WakeupDispatched {
            1nat
        } else {
            0nat
        }
    }
}

/// A universe while it settles: what it keeps, and the wakeups it dispatched so far.
#[verifier::ext_equal]
pub struct SettlementMoment {
    pub state: ControlPlaneStateModel,
    pub total_dispatched: nat,
}

/// The moment of a settlement at which `state` is kept.
pub open spec fn moment_of(state: ControlPlaneStateModel, total_dispatched: nat) -> SettlementMoment {
    SettlementMoment { state, total_dispatched }
}

/// Whether `after` follows `before` by the dispatch of a wakeup.
pub open spec fn moved_by_dispatch(
    before: SettlementMoment,
    after: SettlementMoment,
    wakeup: DueWakeupModel,
    now: i64,
) -> bool {
    &&& after.total_dispatched == before.total_dispatched + 1
    &&& dispatched(
        before.state,
        wakeup.automation_id,
        wakeup.revision_id,
        wakeup.wakeup_id,
        wakeup.at,
        now,
    ) == Ok::<ControlPlaneStateModel, AutomationsErrorModel>(after.state)
}

/// Whether `after` follows `before` by an answer of a guest.
pub open spec fn moved_by_answer(
    before: SettlementMoment,
    after: SettlementMoment,
    automation_id: Seq<char>,
    revision_id: RevisionId,
    event: AutomationEventModel,
    now: i64,
    response: AdvanceResponseModel,
) -> bool {
    &&& after.total_dispatched == before.total_dispatched
    &&& persisted(before.state, automation_id, revision_id, event, now, response) == Ok::<
        ControlPlaneStateModel,
        AutomationsErrorModel,
    >(after.state)
}

/// Whether `after` follows `before` by an effect that was handled.
pub open spec fn moved_by_effect(
    before: SettlementMoment,
    after: SettlementMoment,
    automation_id: Seq<char>,
    revision_id: RevisionId,
    effect_id: Seq<char>,
    follow_up_events: usize,
    now: i64,
) -> bool {
    &&& after.total_dispatched == before.total_dispatched
    &&& after.state == effect_recorded(
        before.state,
        automation_id,
        revision_id,
        effect_id,
        follow_up_events,
        now,
    )
}

/// Whether `after` follows `before` while a universe settles: a wakeup is dispatched,
/// or a drive takes in an answer of its guest or what came of an effect.
pub open spec fn settlement_moved(before: SettlementMoment, after: SettlementMoment) -> bool {
    ||| exists|wakeup: DueWakeupModel, now: i64| #[trigger]
        moved_by_dispatch(before, after, wakeup, now)
    ||| exists|
        automation_id: Seq<char>,
        revision_id: RevisionId,
        event: AutomationEventModel,
        now: i64,
        response: AdvanceResponseModel,
    | #[trigger]
        moved_by_answer(before, after, automation_id, revision_id, event, now, response)
    ||| exists|
        automation_id: Seq<char>,
        revision_id: RevisionId,
        effect_id: Seq<char>,
        follow_up_events: usize,
        now: i64,
    | #[trigger]
        moved_by_effect(
            before,
            after,
            automation_id,
            revision_id,
            effect_id,
            follow_up_events,
            now,
        )
}

/// Whether a drive that takes the state from `before` to `after` goes on with a
/// settlement, at whatever count it stands.
pub open spec fn drive_moved(before: ControlPlaneStateModel, after: ControlPlaneStateModel) -> bool {
    forall|total_dispatched: nat|
        settlement_moved(
            moment_of(before, total_dispatched),
            #[trigger] moment_of(after, total_dispatched),
        )
}

/// Whether `moments` are those of a settlement, the first one before anything was
/// dispatched.
pub open spec fn is_settlement(moments: Seq<SettlementMoment>) -> bool {
    &&& moments.len() > 0
    &&& moments[0].total_dispatched == 0
    &&& forall|i: int|
        0 < i < moments.len() ==> settlement_moved(moments[i - 1], #[trigger] moments[i])
}

proof fn lemma_count_traced(traces: Seq<TraceRecordModel>, record: TraceRecordModel)
    ensures
        dispatch_count(traces.push(record)) == dispatch_count(traces)
            + if record.event is WakeupDispatched {
            1nat
        } else {
            0nat
        },
{
    assert(traces.push(record).drop_last() =~= traces);
}

proof fn lemma_count_traced_all(traces: Seq<TraceRecordModel>, records: Seq<TraceRecordModel>)
    requires
        forall|i: int|
            0 <= i < records.len() ==> !((#[trigger] records[i]).event is WakeupDispatched),
    ensures
        dispatch_count(traces + records) == dispatch_count(traces),
    decreases records.len(),
{
    if records.len() == 0 {
        assert(traces + records =~= traces);
    } else {
        let rest = records.drop_last();
        assert forall|i: int| 0 <= i < rest.len() implies !((#[trigger] rest[i]).event
            is WakeupDispatched) by {
            assert(rest[i] == records[i]);
        }
        lemma_count_traced_all(traces, rest);
        lemma_count_traced(traces + rest, records.last());
        assert(traces + records =~= (traces + rest).push(records.last()));
        assert(!(records[records.len() - 1].event is WakeupDispatched));
    }
}

proof fn lemma_settlement_moved(before: SettlementMoment, after: SettlementMoment)
    requires
        settlement_moved(before, after),
    ensures
        consistent(before.state) ==> consistent(after.state),
        trace_goes_on(before.state, after.state),
        dispatch_count(after.state.traces) + before.total_dispatched == dispatch_count(
            before.state.traces,
        ) + after.total_dispatched,
{
    if exists|wakeup: DueWakeupModel, now: i64| #[trigger]
        moved_by_dispatch(before, after, wakeup, now) {
        let (wakeup, now) = choose|wakeup: DueWakeupModel, now: i64| #[trigger]
            moved_by_dispatch(before, after, wakeup, now);
        if consistent(before.state) {
            dispatched_wakeup_is_no_longer_scheduled(
                before.state,
                wakeup.automation_id,
                wakeup.revision_id,
                wakeup.wakeup_id,
                wakeup.at,
                now,
            );
        }
        lemma_count_traced(before.state.traces, after.state.traces.last());
        assert(after.state.traces == before.state.traces.push(after.state.traces.last()));
    } else if exists|
        automation_id: Seq<char>,
        revision_id: RevisionId,
        event: AutomationEventModel,
        now: i64,
        response: AdvanceResponseModel,
    | #[trigger]
        moved_by_answer(before, after, automation_id, revision_id, event, now, response) {
        let (automation_id, revision_id, event, now, response) = choose|
            automation_id: Seq<char>,
            revision_id: RevisionId,
            event: AutomationEventModel,
            now: i64,
            response: AdvanceResponseModel,
        | #[trigger]
            moved_by_answer(before, after, automation_id, revision_id, event, now, response);
        if consistent(before.state) {
            answer_is_taken_over(before.state, automation_id, revision_id, event, now, response);
        }
        let records = traces_of_response(automation_id, revision_id, event, response).map_values(
            |event: TraceEventModel| TraceRecordModel { at: now, event },
        );
        lemma_count_traced_all(before.state.traces, records);
    } else {
        let (automation_id, revision_id, effect_id, follow_up_events, now) = choose|
            automation_id: Seq<char>,
            revision_id: RevisionId,
            effect_id: Seq<char>,
            follow_up_events: usize,
            now: i64,
        | #[trigger]
            moved_by_effect(
                before,
                after,
                automation_id,
                revision_id,
                effect_id,
                follow_up_events,
                now,
            );
        if consistent(before.state) {
            recording_an_effect_only_traces(
                before.state,
                automation_id,
                revision_id,
                effect_id,
                follow_up_events,
                now,
            );
        }
        lemma_count_traced(before.state.traces, after.state.traces.last());
        assert(after.state.traces == before.state.traces.push(after.state.traces.last()));
    }
}

/// A settlement begins with nothing dispatched, and goes on by a dispatch or by a
/// drive.
pub proof fn settlement_goes_on(moments: Seq<SettlementMoment>, next: SettlementMoment)
    ensures
        is_settlement(seq![moment_of(next.state, 0)]),
        is_settlement(moments) && settlement_moved(moments.last(), next) ==> is_settlement(
            moments.push(next),
        ),
{
    if is_settlement(moments) && settlement_moved(moments.last(), next) {
        let all = moments.push(next);
        assert forall|i: int| 0 < i < all.len() implies settlement_moved(
            all[i - 1],
            #[trigger] all[i],
        ) by {
            assert(all[i - 1] == moments[i - 1]);
            if i < moments.len() {
                assert(settlement_moved(moments[i - 1], moments[i]));
            }
        }
    }
}

/// What a settlement counts is the number of dispatched wakeups that it added to the
/// trace, however long it went on and whatever its guests answered.
pub proof fn settlement_counts_dispatched_wakeups(moments: Seq<SettlementMoment>)
    requires
        is_settlement(moments),
    ensures
        moments.last().total_dispatched == dispatch_count(moments.last().state.traces)
            - dispatch_count(moments[0].state.traces),
        consistent(moments[0].state) ==> consistent(moments.last().state),
        trace_goes_on(moments[0].state, moments.last().state),
    decreases moments.len(),
{
    if moments.len() > 1 {
        let earlier = moments.drop_last();
        assert forall|i: int| 0 < i < earlier.len() implies settlement_moved(
            earlier[i - 1],
            #[trigger] earlier[i],
        ) by {
            assert(settlement_moved(moments[i - 1], moments[i]));
        }
        settlement_counts_dispatched_wakeups(earlier);
        let last = moments.len() - 1;
        assert(settlement_moved(moments[last - 1], moments[last]));
        lemma_settlement_moved(moments[last - 1], moments[last]);
        assert(earlier.last() == moments[last - 1]);
    }
}

/// In a universe that has settled no automation has a wakeup scheduled for a time
/// that has come.
pub proof fn settled_universe_has_nothing_due(
    state: ControlPlaneStateModel,
    now: i64,
    automation_id: Seq<char>,
    wakeup_id: Seq<char>,
)
    requires
        consistent(state),
        due_of(state.automations, now).len() == 0,
    ensures
        state.automation(automation_id) matches Some(automation) ==> (wakeup_in(
            automation,
            wakeup_id,
        ) matches Some(wakeup) ==> now < wakeup.at),
{
    if let Some(automation) = state.automation(automation_id) {
        if let Some(wakeup) = wakeup_in(automation, wakeup_id) {
            if wakeup.at <= now {
                has_key_means_present::<String, ScheduledWakeupModel>(
                    automation.scheduled_wakeups,
                    wakeup_id,
                );
                let item = DueWakeupModel {
                    automation_id,
                    revision_id: automation.active_revision_id->0,
                    wakeup_id,
                    at: wakeup.at,
                };
                due_wakeups_are_those_scheduled(state, now, item);
                assert(is_due(state, now, item));
            }
        }
    }
}

}
