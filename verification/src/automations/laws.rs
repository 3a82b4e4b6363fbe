//! What holds of the control plane as a whole.

use crate::automations::domain::{
    ActivationMode, ControlPlaneStateModel, ManagedAutomationModel, RegisteredRevisionModel,
    RegistrationRequestModel, RevisionId, ScheduledWakeupModel, TraceEventModel, TraceRecordModel,
};
use crate::automations::due::{due_in, due_of, DueWakeupModel};
use crate::automations::error::AutomationsErrorModel;
use crate::automations::transitions::{
    activated, advance_request_for, deactivated, deleted, dispatched, effect_recorded,
    last_activated, persisted, registered, revision_in, state_is_incompatible,
    traces_of_response, wakeup_in, wakeups_after,
};
use crate::ordered_map::{
    has_key_means_present, in_key_order, lemma_slot_of_entry, lookup, with_entry,
    with_entry_is_read_back, without_entry, without_entry_is_forgotten,
};
use crate::protocol::{
    AdvanceResponseModel, AutomationEventModel, EffectKindModel, EffectRequestModel,
    RegistrationResponseModel,
};
use vstd::prelude::*;

verus! {

/// Whether what is kept of one automation fits together. `activated_last` is the
/// revision that was activated last for it.
pub open spec fn consistent_automation(
    automation_id: Seq<char>,
    automation: ManagedAutomationModel,
    next_revision_id: RevisionId,
    activated_last: Option<RevisionId>,
) -> bool {
    &&& automation.automation_id == automation_id
    &&& in_key_order::<RevisionId, RegisteredRevisionModel>(automation.revisions)
    &&& in_key_order::<String, ScheduledWakeupModel>(automation.scheduled_wakeups)
    &&& forall|revision_id: RevisionId|
        #[trigger] revision_in(automation, revision_id) matches Some(revision) ==> {
            &&& revision.revision_id == revision_id
            &&& 1 <= revision_id <= next_revision_id
        }
    &&& forall|wakeup_id: Seq<char>|
        #[trigger] wakeup_in(automation, wakeup_id) matches Some(wakeup) ==> wakeup.wakeup_id
            == wakeup_id
    &&& automation.active_revision_id matches Some(active) ==> {
        &&& revision_in(automation, active) is Some
        &&& automation.current_state is Some
    }
    &&& automation.active_revision_id is None ==> automation.scheduled_wakeups.len() == 0
    &&& automation.current_state is Some ==> {
        &&& activated_last matches Some(kept)
        &&& revision_in(automation, kept) is Some
        &&& automation.active_revision_id is Some ==> automation.active_revision_id == Some(kept)
    }
}

/// Whether what the control plane keeps fits together: every automation is kept
/// under its own name with its own revisions and wakeups, revision numbers are
/// ones that were given out, what is active is registered, only an active
/// automation has wakeups, and state is that of the revision that was activated
/// last, which is registered.
pub open spec fn consistent(state: ControlPlaneStateModel) -> bool {
    &&& in_key_order::<String, ManagedAutomationModel>(state.automations)
    &&& forall|automation_id: Seq<char>|
        #[trigger] state.automation(automation_id) matches Some(automation)
            ==> consistent_automation(
            automation_id,
            automation,
            state.next_revision_id,
            last_activated(state.traces, automation_id),
        )
}

/// What the trace says was activated last, after one more record.
proof fn lemma_traced(traces: Seq<TraceRecordModel>, record: TraceRecordModel)
    ensures
        forall|automation_id: Seq<char>| #[trigger]
            last_activated(traces.push(record), automation_id) == match record.event {
                TraceEventModel::RevisionActivated {
                    automation_id: activated_id,
                    revision_id,
                    mode,
                } if activated_id == automation_id => Some(revision_id),
                _ => last_activated(traces, automation_id),
            },
{
    assert(traces.push(record).drop_last() =~= traces);
}

/// Records of anything else leave what the trace says was activated last.
proof fn lemma_traced_all(traces: Seq<TraceRecordModel>, records: Seq<TraceRecordModel>)
    requires
        forall|i: int| 0 <= i < records.len() ==> !((#[trigger] records[i]).event
            is RevisionActivated),
    ensures
        forall|automation_id: Seq<char>| #[trigger]
            last_activated(traces + records, automation_id) == last_activated(
                traces,
                automation_id,
            ),
    decreases records.len(),
{
    if records.len() == 0 {
        assert(traces + records =~= traces);
    } else {
        let rest = records.drop_last();
        assert forall|i: int| 0 <= i < rest.len() implies !((#[trigger] rest[i]).event
            is RevisionActivated) by {
            assert(rest[i] == records[i]);
        }
        lemma_traced_all(traces, rest);
        lemma_traced(traces + rest, records.last());
        assert(traces + records =~= (traces + rest).push(records.last()));
        assert(!(records[records.len() - 1].event is RevisionActivated));
    }
}

/// Whether `after` keeps every automation of `before` but `automation_id`.
pub open spec fn leaves_others(
    before: ControlPlaneStateModel,
    after: ControlPlaneStateModel,
    automation_id: Seq<char>,
) -> bool {
    forall|other: Seq<char>|
        other != automation_id ==> #[trigger] after.automation(other) == before.automation(other)
}

/// Whether the trace of `after` goes on from the trace of `before`.
pub open spec fn trace_goes_on(
    before: ControlPlaneStateModel,
    after: ControlPlaneStateModel,
) -> bool {
    before.traces.is_prefix_of(after.traces)
}

/// Replacing one automation is read back and leaves the others.
proof fn lemma_with_automation(
    state: ControlPlaneStateModel,
    automation_id: Seq<char>,
    automation: ManagedAutomationModel,
)
    requires
        in_key_order::<String, ManagedAutomationModel>(state.automations),
    ensures
        in_key_order::<String, ManagedAutomationModel>(
            state.with_automation(automation_id, automation).automations,
        ),
        state.with_automation(automation_id, automation).automation(automation_id) == Some(
            automation,
        ),
        leaves_others(state, state.with_automation(automation_id, automation), automation_id),
{
    with_entry_is_read_back::<String, ManagedAutomationModel>(
        state.automations,
        automation_id,
        automation,
    );
    let after = state.with_automation(automation_id, automation);
    assert forall|other: Seq<char>| other != automation_id implies #[trigger] after.automation(
        other,
    ) == state.automation(other) by {
        assert(lookup::<String, ManagedAutomationModel>(state.automations, other)
            == state.automation(other));
    }
}

/// Replacing one automation by a consistent one keeps the state consistent.
proof fn lemma_replacing_keeps_consistent(
    state: ControlPlaneStateModel,
    after: ControlPlaneStateModel,
    automation_id: Seq<char>,
    automation: ManagedAutomationModel,
)
    requires
        consistent(state),
        after.automations == state.with_automation(automation_id, automation).automations,
        after.next_revision_id >= state.next_revision_id,
        consistent_automation(
            automation_id,
            automation,
            after.next_revision_id,
            last_activated(after.traces, automation_id),
        ),
        forall|other: Seq<char>|
            other != automation_id ==> #[trigger] last_activated(after.traces, other)
                == last_activated(state.traces, other),
    ensures
        consistent(after),
        after.automation(automation_id) == Some(automation),
        leaves_others(state, after, automation_id),
{
    lemma_with_automation(state, automation_id, automation);
    let replaced = state.with_automation(automation_id, automation);
    assert forall|other: Seq<char>| #[trigger] after.automation(other) is Some implies
        consistent_automation(
        other,
        after.automation(other)->0,
        after.next_revision_id,
        last_activated(after.traces, other),
    ) by {
        assert(after.automation(other) == replaced.automation(other));
        if other != automation_id {
            assert(state.automation(other) == after.automation(other));
        }
    }
    assert forall|other: Seq<char>| other != automation_id implies #[trigger] after.automation(
        other,
    ) == state.automation(other) by {
        assert(after.automation(other) == replaced.automation(other));
    }
}

/// Nothing is inconsistent before anything is registered.
pub proof fn empty_state_is_consistent()
    ensures
        consistent(ControlPlaneStateModel::empty()),
{
}

/// Registering makes a revision under a number that no revision had, larger than
/// every number given out before. It does not activate: what the automation runs,
/// its state, its wakeups and its status stay, and so do its other revisions and
/// all other automations.
pub proof fn registration_adds_a_revision_and_activates_nothing(
    state: ControlPlaneStateModel,
    request: RegistrationRequestModel,
    artifact_sha256: Seq<char>,
    registration: RegistrationResponseModel,
    now: i64,
)
    requires
        consistent(state),
        state.next_revision_id < u64::MAX,
    ensures
        ({
            let after = registered(state, request, artifact_sha256, registration, now);
            let revision_id = (state.next_revision_id + 1) as u64;
            &&& consistent(after)
            &&& trace_goes_on(state, after)
            &&& leaves_others(state, after, request.automation_id)
            &&& after.next_revision_id == revision_id
            &&& after.automation(request.automation_id) matches Some(automation)
            &&& revision_in(automation, revision_id) matches Some(revision)
            &&& revision.artifact_sha256 == artifact_sha256
            &&& match state.automation(request.automation_id) {
                Some(before) => {
                    &&& revision_in(before, revision_id) is None
                    &&& automation.active_revision_id == before.active_revision_id
                    &&& automation.current_state == before.current_state
                    &&& automation.scheduled_wakeups == before.scheduled_wakeups
                    &&& automation.last_status == before.last_status
                    &&& forall|other: RevisionId|
                        other != revision_id ==> #[trigger] revision_in(automation, other)
                            == revision_in(before, other)
                },
                None => {
                    &&& automation.active_revision_id is None
                    &&& automation.current_state is None
                },
            }
        }),
{
    let after = registered(state, request, artifact_sha256, registration, now);
    let revision_id = (state.next_revision_id + 1) as u64;
    let before = match state.automation(request.automation_id) {
        Some(automation) => automation,
        None => ManagedAutomationModel::fresh(request.automation_id),
    };
    let revision = crate::automations::transitions::revision_of(
        request,
        artifact_sha256,
        registration,
        revision_id,
        now,
    );
    let automation = ManagedAutomationModel {
        revisions: with_entry::<RevisionId, RegisteredRevisionModel>(
            before.revisions,
            revision_id,
            revision,
        ),
        ..before
    };
    assert(consistent_automation(
        request.automation_id,
        before,
        state.next_revision_id,
        last_activated(state.traces, request.automation_id),
    ));
    lemma_traced(state.traces, after.traces.last());
    assert(after.traces == state.traces.push(after.traces.last()));
    with_entry_is_read_back::<RevisionId, RegisteredRevisionModel>(
        before.revisions,
        revision_id,
        revision,
    );
    assert forall|other: RevisionId| other != revision_id implies #[trigger] revision_in(
        automation,
        other,
    ) == revision_in(before, other) by {
        assert(lookup::<RevisionId, RegisteredRevisionModel>(before.revisions, other)
            == revision_in(before, other));
    }
    assert(revision_in(automation, revision_id) == Some(revision));
    assert forall|other: RevisionId| #[trigger] revision_in(automation, other) is Some implies {
        let found = revision_in(automation, other)->0;
        &&& found.revision_id == other
        &&& 1 <= other <= revision_id
    } by {
        if other != revision_id {
            assert(revision_in(before, other) is Some);
        }
    }
    assert forall|wakeup_id: Seq<char>| #[trigger] wakeup_in(automation, wakeup_id) is Some implies
        wakeup_in(automation, wakeup_id)->0.wakeup_id == wakeup_id by {
        assert(wakeup_in(before, wakeup_id) == wakeup_in(automation, wakeup_id));
    }
    assert(revision_in(before, revision_id) is None);
    lemma_replacing_keeps_consistent(state, after, request.automation_id, automation);
}

/// Only a registered revision is activated. Afterwards it is the one that runs,
/// nothing is scheduled, and the registered revisions are those from before. A
/// cold start begins from the initial state of the revision, a start that
/// preserves keeps the state that is there.
pub proof fn activation_takes_a_registered_revision(
    state: ControlPlaneStateModel,
    automation_id: Seq<char>,
    revision_id: RevisionId,
    mode: ActivationMode,
    now: i64,
)
    requires
        consistent(state),
    ensures
        activated(state, automation_id, revision_id, mode, now) matches Ok(after) ==> {
            &&& consistent(after)
            &&& trace_goes_on(state, after)
            &&& leaves_others(state, after, automation_id)
            &&& after.next_revision_id == state.next_revision_id
            &&& state.automation(automation_id) matches Some(before)
            &&& after.automation(automation_id) matches Some(automation)
            &&& revision_in(before, revision_id) matches Some(revision)
            &&& automation.active_revision_id == Some(revision_id)
            &&& automation.revisions == before.revisions
            &&& automation.scheduled_wakeups.len() == 0
            &&& automation.current_state == if mode == ActivationMode::ColdStart
                || before.current_state is None {
                Some(revision.initial_state)
            } else {
                before.current_state
            }
        },
{
    if let Ok(after) = activated(state, automation_id, revision_id, mode, now) {
        let before = state.automation(automation_id)->0;
        let revision = revision_in(before, revision_id)->0;
        let automation = ManagedAutomationModel {
            active_revision_id: Some(revision_id),
            current_state: if mode == ActivationMode::ColdStart || before.current_state is None {
                Some(revision.initial_state)
            } else {
                before.current_state
            },
            scheduled_wakeups: Seq::empty(),
            last_status: None,
            ..before
        };
        assert forall|other: RevisionId| #[trigger] revision_in(automation, other) == revision_in(
            before,
            other,
        ) by {}
        lemma_traced(state.traces, after.traces.last());
        assert(after.traces == state.traces.push(after.traces.last()));
        lemma_replacing_keeps_consistent(state, after, automation_id, automation);
    }
}

/// A start that would preserve state of another schema is refused, whether a
/// revision is active or not. A cold start is not.
pub proof fn preserving_another_schema_is_refused(
    state: ControlPlaneStateModel,
    automation_id: Seq<char>,
    revision_id: RevisionId,
    now: i64,
)
    requires
        consistent(state),
        state.automation(automation_id) matches Some(automation) && {
            &&& automation.current_state is Some
            &&& last_activated(state.traces, automation_id) matches Some(kept)
            &&& revision_in(automation, kept) matches Some(previous)
            &&& revision_in(automation, revision_id) matches Some(revision)
            &&& previous.descriptor.state_schema_version
                != revision.descriptor.state_schema_version
        },
    ensures
        activated(state, automation_id, revision_id, ActivationMode::PreserveState, now) == Err::<
            ControlPlaneStateModel,
            AutomationsErrorModel,
        >(AutomationsErrorModel::IncompatibleState { automation_id, revision_id }),
        activated(state, automation_id, revision_id, ActivationMode::ColdStart, now) is Ok,
{
}

/// A deactivation does not open a way round the schema: the state that is kept
/// cannot be preserved for a revision of another schema.
pub proof fn deactivated_state_keeps_its_schema(
    state: ControlPlaneStateModel,
    automation_id: Seq<char>,
    revision_id: RevisionId,
    now: i64,
    later: i64,
)
    requires
        consistent(state),
        state.automation(automation_id) matches Some(automation) && {
            &&& automation.active_revision_id matches Some(active)
            &&& revision_in(automation, active) matches Some(previous)
            &&& revision_in(automation, revision_id) matches Some(revision)
            &&& previous.descriptor.state_schema_version
                != revision.descriptor.state_schema_version
        },
    ensures
        deactivated(state, automation_id, now) matches Ok(after) && activated(
            after,
            automation_id,
            revision_id,
            ActivationMode::PreserveState,
            later,
        ) == Err::<ControlPlaneStateModel, AutomationsErrorModel>(
            AutomationsErrorModel::IncompatibleState { automation_id, revision_id },
        ),
{
    let after = deactivated(state, automation_id, now)->Ok_0;
    deactivation_keeps_revisions_and_state(
        state,
        automation_id,
        now,
        AutomationEventModel::Activated { at: later },
        later,
    );
    lemma_traced(state.traces, after.traces.last());
    assert(after.traces == state.traces.push(after.traces.last()));
    let before = state.automation(automation_id)->0;
    let automation = after.automation(automation_id)->0;
    assert(forall|other: RevisionId| #[trigger]
        revision_in(automation, other) == revision_in(before, other));
    preserving_another_schema_is_refused(after, automation_id, revision_id, later);
}

/// An activation is refused only for want of the automation or the revision, or
/// for another schema under a start that preserves state.
pub proof fn activation_is_refused_for_a_reason(
    state: ControlPlaneStateModel,
    automation_id: Seq<char>,
    revision_id: RevisionId,
    mode: ActivationMode,
    now: i64,
)
    ensures
        activated(state, automation_id, revision_id, mode, now) is Err <==> match state.automation(
            automation_id,
        ) {
            None => true,
            Some(automation) => match revision_in(automation, revision_id) {
                None => true,
                Some(revision) => mode == ActivationMode::PreserveState && state_is_incompatible(
                    state,
                    automation_id,
                    revision,
                ),
            },
        },
{
}

/// Deactivating keeps the revisions and the state, and leaves nothing that runs
/// or is scheduled: the automation takes no event until it is activated again.
pub proof fn deactivation_keeps_revisions_and_state(
    state: ControlPlaneStateModel,
    automation_id: Seq<char>,
    now: i64,
    event: AutomationEventModel,
    later: i64,
)
    requires
        consistent(state),
    ensures
        deactivated(state, automation_id, now) matches Ok(after) ==> {
            &&& consistent(after)
            &&& trace_goes_on(state, after)
            &&& leaves_others(state, after, automation_id)
            &&& after.next_revision_id == state.next_revision_id
            &&& state.automation(automation_id) matches Some(before)
            &&& after.automation(automation_id) matches Some(automation)
            &&& automation.revisions == before.revisions
            &&& automation.current_state == before.current_state
            &&& automation.active_revision_id is None
            &&& automation.scheduled_wakeups.len() == 0
            &&& advance_request_for(after, automation_id, event, later) == Err::<
                (RegisteredRevisionModel, crate::protocol::AdvanceRequestModel),
                AutomationsErrorModel,
            >(AutomationsErrorModel::NoActiveRevision { automation_id })
        },
{
    if let Ok(after) = deactivated(state, automation_id, now) {
        let before = state.automation(automation_id)->0;
        let automation = ManagedAutomationModel {
            active_revision_id: None,
            scheduled_wakeups: Seq::empty(),
            last_status: Some("deactivated"@),
            ..before
        };
        assert forall|other: RevisionId| #[trigger] revision_in(automation, other) == revision_in(
            before,
            other,
        ) by {}
        lemma_traced(state.traces, after.traces.last());
        assert(after.traces == state.traces.push(after.traces.last()));
        lemma_replacing_keeps_consistent(state, after, automation_id, automation);
    }
}

/// A deleted automation is gone with all that it held, until it is registered
/// anew, and then under new revision numbers. The trace and the others stay.
pub proof fn deletion_forgets_one_automation(
    state: ControlPlaneStateModel,
    automation_id: Seq<char>,
    now: i64,
    revision_id: RevisionId,
    mode: ActivationMode,
    later: i64,
)
    requires
        consistent(state),
    ensures
        deleted(state, automation_id, now) matches Ok(after) ==> {
            &&& consistent(after)
            &&& trace_goes_on(state, after)
            &&& leaves_others(state, after, automation_id)
            &&& after.automation(automation_id) is None
            &&& after.next_revision_id == state.next_revision_id
            &&& activated(after, automation_id, revision_id, mode, later) == Err::<
                ControlPlaneStateModel,
                AutomationsErrorModel,
            >(AutomationsErrorModel::AutomationNotFound(automation_id))
        },
{
    if let Ok(after) = deleted(state, automation_id, now) {
        without_entry_is_forgotten::<String, ManagedAutomationModel>(
            state.automations,
            automation_id,
        );
        lemma_traced(state.traces, after.traces.last());
        assert(after.traces == state.traces.push(after.traces.last()));
        assert forall|other: Seq<char>| other != automation_id implies #[trigger] after.automation(
            other,
        ) == state.automation(other) by {
            assert(lookup::<String, ManagedAutomationModel>(state.automations, other)
                == state.automation(other));
        }
        assert forall|other: Seq<char>| #[trigger] after.automation(other) is Some implies
            consistent_automation(
            other,
            after.automation(other)->0,
            after.next_revision_id,
            last_activated(after.traces, other),
        ) by {
            assert(other != automation_id);
            assert(state.automation(other) == after.automation(other));
        }
    }
}

/// A dispatched wakeup is scheduled no more. Every other wakeup stays.
pub proof fn dispatched_wakeup_is_no_longer_scheduled(
    state: ControlPlaneStateModel,
    automation_id: Seq<char>,
    revision_id: RevisionId,
    wakeup_id: Seq<char>,
    at: i64,
    now: i64,
)
    requires
        consistent(state),
    ensures
        dispatched(state, automation_id, revision_id, wakeup_id, at, now) matches Ok(after) ==> {
            &&& consistent(after)
            &&& trace_goes_on(state, after)
            &&& leaves_others(state, after, automation_id)
            &&& after.next_revision_id == state.next_revision_id
            &&& state.automation(automation_id) matches Some(before)
            &&& after.automation(automation_id) matches Some(automation)
            &&& wakeup_in(automation, wakeup_id) is None
            &&& automation.active_revision_id == before.active_revision_id
            &&& automation.current_state == before.current_state
            &&& automation.revisions == before.revisions
            &&& forall|other: Seq<char>|
                other != wakeup_id ==> #[trigger] wakeup_in(automation, other) == wakeup_in(
                    before,
                    other,
                )
        },
{
    if let Ok(after) = dispatched(state, automation_id, revision_id, wakeup_id, at, now) {
        let before = state.automation(automation_id)->0;
        let automation = ManagedAutomationModel {
            scheduled_wakeups: without_entry::<String, ScheduledWakeupModel>(
                before.scheduled_wakeups,
                wakeup_id,
            ),
            ..before
        };
        without_entry_is_forgotten::<String, ScheduledWakeupModel>(
            before.scheduled_wakeups,
            wakeup_id,
        );
        assert forall|other: RevisionId| #[trigger] revision_in(automation, other) == revision_in(
            before,
            other,
        ) by {}
        assert forall|other: Seq<char>| other != wakeup_id implies #[trigger] wakeup_in(
            automation,
            other,
        ) == wakeup_in(before, other) by {
            assert(lookup::<String, ScheduledWakeupModel>(before.scheduled_wakeups, other)
                == wakeup_in(before, other));
        }
        assert(wakeup_in(automation, wakeup_id) is None);
        assert forall|other: Seq<char>| #[trigger] wakeup_in(automation, other) is Some implies
            wakeup_in(automation, other)->0.wakeup_id == other by {
            assert(other != wakeup_id);
            assert(wakeup_in(before, other) is Some);
        }
        lemma_traced(state.traces, after.traces.last());
        assert(after.traces == state.traces.push(after.traces.last()));
        lemma_replacing_keeps_consistent(state, after, automation_id, automation);
    }
}

/// The wakeup under one name after some effects: what the last effect that
/// scheduled or cancelled it made of it.
pub open spec fn wakeup_left(
    before: Option<ScheduledWakeupModel>,
    effects: Seq<EffectRequestModel>,
    wakeup_id: Seq<char>,
) -> Option<ScheduledWakeupModel>
    decreases effects.len(),
{
    if effects.len() == 0 {
        before
    } else {
        match effects.last().kind {
            EffectKindModel::ScheduleWakeup { wakeup_id: scheduled, at } if scheduled
                == wakeup_id => Some(ScheduledWakeupModel { wakeup_id, at }),
            EffectKindModel::CancelWakeup { wakeup_id: cancelled } if cancelled
                == wakeup_id => None,
            _ => wakeup_left(before, effects.drop_last(), wakeup_id),
        }
    }
}

/// For each name the last effect that schedules or cancels it decides.
pub proof fn last_scheduling_effect_decides(
    wakeups: Seq<(Seq<char>, ScheduledWakeupModel)>,
    effects: Seq<EffectRequestModel>,
    wakeup_id: Seq<char>,
)
    requires
        in_key_order::<String, ScheduledWakeupModel>(wakeups),
    ensures
        in_key_order::<String, ScheduledWakeupModel>(wakeups_after(wakeups, effects)),
        lookup::<String, ScheduledWakeupModel>(wakeups_after(wakeups, effects), wakeup_id)
            == wakeup_left(
            lookup::<String, ScheduledWakeupModel>(wakeups, wakeup_id),
            effects,
            wakeup_id,
        ),
    decreases effects.len(),
{
    if effects.len() > 0 {
        last_scheduling_effect_decides(wakeups, effects.drop_last(), wakeup_id);
        let before = wakeups_after(wakeups, effects.drop_last());
        assert(lookup::<String, ScheduledWakeupModel>(before, wakeup_id) == wakeup_left(
            lookup::<String, ScheduledWakeupModel>(wakeups, wakeup_id),
            effects.drop_last(),
            wakeup_id,
        ));
        match effects.last().kind {
            EffectKindModel::ScheduleWakeup { wakeup_id: scheduled, at } => {
                with_entry_is_read_back::<String, ScheduledWakeupModel>(
                    before,
                    scheduled,
                    ScheduledWakeupModel { wakeup_id: scheduled, at },
                );
            },
            EffectKindModel::CancelWakeup { wakeup_id: cancelled } => {
                without_entry_is_forgotten::<String, ScheduledWakeupModel>(before, cancelled);
            },
            _ => {},
        }
    }
}

proof fn lemma_wakeup_left_keeps_name(
    before: Option<ScheduledWakeupModel>,
    effects: Seq<EffectRequestModel>,
    wakeup_id: Seq<char>,
)
    requires
        before matches Some(wakeup) ==> wakeup.wakeup_id == wakeup_id,
    ensures
        wakeup_left(before, effects, wakeup_id) matches Some(wakeup) ==> wakeup.wakeup_id
            == wakeup_id,
    decreases effects.len(),
{
    if effects.len() > 0 {
        lemma_wakeup_left_keeps_name(before, effects.drop_last(), wakeup_id);
    }
}

/// Taking over an answer keeps which revision runs and what is registered, takes
/// the state and the status of the answer, and leaves the other automations.
pub proof fn answer_is_taken_over(
    state: ControlPlaneStateModel,
    automation_id: Seq<char>,
    revision_id: RevisionId,
    event: AutomationEventModel,
    now: i64,
    response: AdvanceResponseModel,
)
    requires
        consistent(state),
    ensures
        persisted(state, automation_id, revision_id, event, now, response) matches Ok(after) ==> {
            &&& consistent(after)
            &&& trace_goes_on(state, after)
            &&& leaves_others(state, after, automation_id)
            &&& after.next_revision_id == state.next_revision_id
            &&& state.automation(automation_id) matches Some(before)
            &&& after.automation(automation_id) matches Some(automation)
            &&& automation.active_revision_id == Some(revision_id)
            &&& before.active_revision_id == Some(revision_id)
            &&& automation.revisions == before.revisions
            &&& automation.current_state == Some(response.state)
            &&& automation.last_status == response.status
            &&& after.traces.len() == state.traces.len() + 2 + response.effects.len()
            &&& forall|wakeup_id: Seq<char>| #[trigger]
                wakeup_in(automation, wakeup_id) == wakeup_left(
                    wakeup_in(before, wakeup_id),
                    response.effects,
                    wakeup_id,
                )
        },
{
    if let Ok(after) = persisted(state, automation_id, revision_id, event, now, response) {
        let before = state.automation(automation_id)->0;
        let automation = ManagedAutomationModel {
            current_state: Some(response.state),
            last_status: response.status,
            scheduled_wakeups: wakeups_after(before.scheduled_wakeups, response.effects),
            ..before
        };
        assert forall|other: RevisionId| #[trigger] revision_in(automation, other) == revision_in(
            before,
            other,
        ) by {}
        last_scheduling_effect_decides(before.scheduled_wakeups, response.effects, ""@);
        assert forall|wakeup_id: Seq<char>| #[trigger] wakeup_in(automation, wakeup_id)
            == wakeup_left(wakeup_in(before, wakeup_id), response.effects, wakeup_id) && (wakeup_in(
            automation,
            wakeup_id,
        ) is Some ==> wakeup_in(automation, wakeup_id)->0.wakeup_id == wakeup_id) by {
            last_scheduling_effect_decides(before.scheduled_wakeups, response.effects, wakeup_id);
            lemma_wakeup_left_keeps_name(
                wakeup_in(before, wakeup_id),
                response.effects,
                wakeup_id,
            );
        }
        let records = traces_of_response(automation_id, revision_id, event, response).map_values(
            |event: TraceEventModel| TraceRecordModel { at: now, event },
        );
        lemma_traced_all(state.traces, records);
        lemma_replacing_keeps_consistent(state, after, automation_id, automation);
    }
}

/// Recording a handled effect changes nothing but the trace.
pub proof fn recording_an_effect_only_traces(
    state: ControlPlaneStateModel,
    automation_id: Seq<char>,
    revision_id: RevisionId,
    effect_id: Seq<char>,
    follow_up_events: usize,
    now: i64,
)
    requires
        consistent(state),
    ensures
        ({
            let after = effect_recorded(
                state,
                automation_id,
                revision_id,
                effect_id,
                follow_up_events,
                now,
            );
            &&& consistent(after)
            &&& trace_goes_on(state, after)
            &&& after.automations == state.automations
            &&& after.next_revision_id == state.next_revision_id
            &&& after.traces.len() == state.traces.len() + 1
        }),
{
    let after = effect_recorded(
        state,
        automation_id,
        revision_id,
        effect_id,
        follow_up_events,
        now,
    );
    lemma_traced(state.traces, after.traces.last());
    assert(after.traces == state.traces.push(after.traces.last()));
    assert forall|other: Seq<char>| #[trigger] after.automation(other) is Some implies
        consistent_automation(
        other,
        after.automation(other)->0,
        after.next_revision_id,
        last_activated(after.traces, other),
    ) by {
        assert(state.automation(other) == after.automation(other));
    }
}

/// Whether `item` stands for a wakeup that is scheduled in `state` and due.
pub open spec fn is_due(state: ControlPlaneStateModel, now: i64, item: DueWakeupModel) -> bool {
    &&& item.at <= now
    &&& state.automation(item.automation_id) matches Some(automation)
    &&& automation.active_revision_id == Some(item.revision_id)
    &&& wakeup_in(automation, item.wakeup_id) == Some(
        ScheduledWakeupModel { wakeup_id: item.wakeup_id, at: item.at },
    )
}

proof fn lemma_due_in(
    automation_id: Seq<char>,
    automation: ManagedAutomationModel,
    now: i64,
    item: DueWakeupModel,
)
    ensures
        due_in(automation_id, automation, now).contains(item) <==> {
            &&& item.automation_id == automation_id
            &&& item.revision_id == match automation.active_revision_id {
                Some(revision_id) => revision_id,
                None => 0,
            }
            &&& item.at <= now
            &&& exists|i: int|
                0 <= i < automation.scheduled_wakeups.len() && (
                #[trigger] automation.scheduled_wakeups[i]).1 == (ScheduledWakeupModel {
                    wakeup_id: item.wakeup_id,
                    at: item.at,
                })
        },
{
    let wakeups = automation.scheduled_wakeups;
    let pred = |entry: (Seq<char>, ScheduledWakeupModel)| entry.1.at <= now;
    let kept = wakeups.filter(pred);
    let found = due_in(automation_id, automation, now);
    if found.contains(item) {
        let i = choose|i: int| 0 <= i < found.len() && found[i] == item;
        wakeups.lemma_filter_pred(pred, i);
        wakeups.lemma_filter_contains_rev(pred, kept[i]);
        let j = choose|j: int| 0 <= j < wakeups.len() && wakeups[j] == kept[i];
        assert(wakeups[j].1 == (ScheduledWakeupModel { wakeup_id: item.wakeup_id, at: item.at }));
    }
    if item.automation_id == automation_id && item.at <= now && item.revision_id == (
    match automation.active_revision_id {
        Some(revision_id) => revision_id,
        None => 0,
    }) && exists|i: int|
        0 <= i < wakeups.len() && (#[trigger] wakeups[i]).1 == (ScheduledWakeupModel {
            wakeup_id: item.wakeup_id,
            at: item.at,
        }) {
        let i = choose|i: int|
            0 <= i < wakeups.len() && (#[trigger] wakeups[i]).1 == (ScheduledWakeupModel {
                wakeup_id: item.wakeup_id,
                at: item.at,
            });
        wakeups.lemma_filter_contains(pred, i);
        let j = choose|j: int| 0 <= j < kept.len() && kept[j] == wakeups[i];
        assert(found[j] == item);
    }
}

proof fn lemma_due_of(
    automations: Seq<(Seq<char>, ManagedAutomationModel)>,
    now: i64,
    item: DueWakeupModel,
)
    ensures
        due_of(automations, now).contains(item) <==> exists|i: int|
            0 <= i < automations.len() && due_in(
                (#[trigger] automations[i]).0,
                automations[i].1,
                now,
            ).contains(item),
    decreases automations.len(),
{
    if automations.len() > 0 {
        let rest = automations.drop_last();
        let last = automations.last();
        lemma_due_of(rest, now, item);
        let a = due_of(rest, now);
        let b = due_in(last.0, last.1, now);
        if (a + b).contains(item) {
            let i = choose|i: int| 0 <= i < (a + b).len() && (a + b)[i] == item;
            if i < a.len() {
                assert(a[i] == item);
                let k = choose|k: int|
                    0 <= k < rest.len() && due_in(
                        (#[trigger] rest[k]).0,
                        rest[k].1,
                        now,
                    ).contains(item);
                assert(automations[k] == rest[k]);
            } else {
                assert(b[i - a.len()] == item);
                assert(automations[automations.len() - 1] == last);
            }
        }
        if exists|i: int|
            0 <= i < automations.len() && due_in(
                (#[trigger] automations[i]).0,
                automations[i].1,
                now,
            ).contains(item) {
            let i = choose|i: int|
                0 <= i < automations.len() && due_in(
                    (#[trigger] automations[i]).0,
                    automations[i].1,
                    now,
                ).contains(item);
            if i < rest.len() {
                assert(rest[i] == automations[i]);
                let k = choose|k: int| 0 <= k < a.len() && a[k] == item;
                assert((a + b)[k] == item);
            } else {
                let k = choose|k: int| 0 <= k < b.len() && b[k] == item;
                assert((a + b)[a.len() + k] == item);
            }
        }
    }
}

/// A wakeup is found due exactly where it is scheduled for a time that has come,
/// by an automation that is active.
pub proof fn due_wakeups_are_those_scheduled(
    state: ControlPlaneStateModel,
    now: i64,
    item: DueWakeupModel,
)
    requires
        consistent(state),
    ensures
        due_of(state.automations, now).contains(item) <==> is_due(state, now, item),
{
    let automations = state.automations;
    lemma_due_of(automations, now, item);
    assert forall|i: int| 0 <= i < automations.len() implies #[trigger] state.automation(
        automations[i].0,
    ) == Some(automations[i].1) by {
        lemma_slot_of_entry::<String, ManagedAutomationModel>(automations, i);
    }
    if due_of(automations, now).contains(item) {
        let i = choose|i: int|
            0 <= i < automations.len() && due_in(
                (#[trigger] automations[i]).0,
                automations[i].1,
                now,
            ).contains(item);
        let automation = automations[i].1;
        assert(state.automation(automations[i].0) == Some(automation));
        lemma_due_in(automations[i].0, automation, now, item);
        let wakeups = automation.scheduled_wakeups;
        let j = choose|j: int|
            0 <= j < wakeups.len() && (#[trigger] wakeups[j]).1 == (ScheduledWakeupModel {
                wakeup_id: item.wakeup_id,
                at: item.at,
            });
        lemma_slot_of_entry::<String, ScheduledWakeupModel>(wakeups, j);
        assert(wakeup_in(automation, wakeups[j].0) == Some(wakeups[j].1));
    }
    if is_due(state, now, item) {
        let automation = state.automation(item.automation_id)->0;
        has_key_means_present::<String, ManagedAutomationModel>(automations, item.automation_id);
        let i = choose|i: int|
            0 <= i < automations.len() && (#[trigger] automations[i]).0 == item.automation_id;
        assert(state.automation(automations[i].0) == Some(automations[i].1));
        let wakeups = automation.scheduled_wakeups;
        assert(wakeup_in(automation, item.wakeup_id) is Some);
        has_key_means_present::<String, ScheduledWakeupModel>(wakeups, item.wakeup_id);
        let j = choose|j: int|
            0 <= j < wakeups.len() && (#[trigger] wakeups[j]).0 == item.wakeup_id;
        lemma_slot_of_entry::<String, ScheduledWakeupModel>(wakeups, j);
        lemma_due_in(automations[i].0, automation, now, item);
    }
}

/// Once dispatched, a due wakeup is not found due again at the same time.
pub proof fn dispatched_wakeup_is_not_due_again(
    state: ControlPlaneStateModel,
    now: i64,
    item: DueWakeupModel,
)
    requires
        consistent(state),
        is_due(state, now, item),
    ensures
        dispatched(
            state,
            item.automation_id,
            item.revision_id,
            item.wakeup_id,
            item.at,
            now,
        ) matches Ok(after) && !due_of(after.automations, now).contains(item),
{
    dispatched_wakeup_is_no_longer_scheduled(
        state,
        item.automation_id,
        item.revision_id,
        item.wakeup_id,
        item.at,
        now,
    );
    let after = dispatched(
        state,
        item.automation_id,
        item.revision_id,
        item.wakeup_id,
        item.at,
        now,
    )->Ok_0;
    due_wakeups_are_those_scheduled(after, now, item);
}

}
