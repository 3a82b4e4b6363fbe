//! What each operation of the control plane does, told of the fields of its result.

use crate::automations::control_plane::{wakeup_drive, Reconciliation};
use crate::automations::domain::{
    capability_of_kind, label_of_kind, name_of_capability, ActivationMode, ControlPlaneStateModel,
    EffectHandlerOutcomeModel, ManagedAutomationModel, RegisteredRevisionModel,
    RegistrationRequestModel, RevisionId, ScheduledWakeupModel, TraceEventModel, TraceRecordModel,
};
use crate::automations::drive::{DriveActionModel, EventDriveModel};
use crate::automations::due::{due_before, due_in, due_of, in_due_order, DueWakeupModel};
use crate::automations::error::AutomationsErrorModel;
use crate::automations::laws::{
    consistent, due_wakeups_are_those_scheduled, last_scheduling_effect_decides, wakeup_left,
};
use crate::automations::transitions::{
    activated, advance_request_for, capability_refusal, deactivated, deleted, dispatched,
    effect_recorded, host_effects, last_activated, persisted, registered, revision_in, wakeup_in,
    wakeups_after,
};
use crate::ordered_map::{
    in_key_order, lemma_slot_of_entry, lookup, text_before, with_entry_is_read_back,
    without_entry_is_forgotten, OrderedKey,
};
use crate::protocol::{
    AdvanceResponseModel, AutomationEventModel, Capability, EffectKindModel, EffectRequestModel,
    EventDisposition, RegistrationResponseModel,
};
use vstd::prelude::*;

verus! {

proof fn lemma_replaced(
    state: ControlPlaneStateModel,
    automation_id: Seq<char>,
    automation: ManagedAutomationModel,
)
    requires
        in_key_order::<String, ManagedAutomationModel>(state.automations),
    ensures
        state.with_automation(automation_id, automation).automation(automation_id) == Some(
            automation,
        ),
        forall|other: Seq<char>|
            other != automation_id ==> #[trigger] state.with_automation(
                automation_id,
                automation,
            ).automation(other) == state.automation(other),
{
    with_entry_is_read_back::<String, ManagedAutomationModel>(
        state.automations,
        automation_id,
        automation,
    );
    let after = state.with_automation(automation_id, automation);
    assert forall|other: Seq<char>| other != automation_id implies #[trigger] after.automation(
        other,
    ) == state.automation(other) by {
        assert(lookup::<String, ManagedAutomationModel>(state.automations, other)
            == state.automation(other));
    }
}

/// A registration keeps what was asked and what the guest answered, under the next
/// number, and tells the trace.
pub proof fn registration_keeps_what_was_told(
    state: ControlPlaneStateModel,
    request: RegistrationRequestModel,
    artifact_sha256: Seq<char>,
    registration: RegistrationResponseModel,
    now: i64,
)
    requires
        in_key_order::<String, ManagedAutomationModel>(state.automations),
        state.automation(request.automation_id) matches Some(automation) ==> in_key_order::<
            RevisionId,
            RegisteredRevisionModel,
        >(automation.revisions),
        state.next_revision_id < u64::MAX,
    ensures
        ({
            let after = registered(state, request, artifact_sha256, registration, now);
            let number = (state.next_revision_id + 1) as u64;
            &&& after.next_revision_id == state.next_revision_id + 1
            &&& after.automation(request.automation_id) matches Some(automation)
            &&& automation.automation_id == match state.automation(request.automation_id) {
                Some(before) => before.automation_id,
                None => request.automation_id,
            }
            &&& revision_in(automation, number) matches Some(revision)
            &&& revision.revision_id == number
            &&& revision.artifact_path == request.artifact_path
            &&& revision.artifact_sha256 == artifact_sha256
            &&& revision.registered_at == now
            &&& revision.descriptor == registration.descriptor
            &&& revision.config == request.config
            &&& revision.initial_state == registration.initial_state
            &&& forall|other: Seq<char>|
                other != request.automation_id ==> #[trigger] after.automation(other)
                    == state.automation(other)
            &&& after.traces.len() == state.traces.len() + 1
            &&& after.traces.drop_last() == state.traces
            &&& after.traces.last().at == now
            &&& after.traces.last().event == (TraceEventModel::RevisionRegistered {
                automation_id: request.automation_id,
                revision_id: number,
                artifact_sha256,
            })
        }),
{
    let after = registered(state, request, artifact_sha256, registration, now);
    let number = (state.next_revision_id + 1) as u64;
    let before = match state.automation(request.automation_id) {
        Some(automation) => automation,
        None => ManagedAutomationModel::fresh(request.automation_id),
    };
    let revision = crate::automations::transitions::revision_of(
        request,
        artifact_sha256,
        registration,
        number,
        now,
    );
    with_entry_is_read_back::<RevisionId, RegisteredRevisionModel>(
        before.revisions,
        number,
        revision,
    );
    let automation = ManagedAutomationModel {
        revisions: crate::ordered_map::with_entry::<RevisionId, RegisteredRevisionModel>(
            before.revisions,
            number,
            revision,
        ),
        ..before
    };
    lemma_replaced(state, request.automation_id, automation);
    let replaced = state.with_automation(request.automation_id, automation);
    assert(after.automations == replaced.automations);
    assert(after.automation(request.automation_id) == Some(automation));
    assert forall|other: Seq<char>| other != request.automation_id implies #[trigger]
        after.automation(other) == state.automation(other) by {
        assert(replaced.automation(other) == state.automation(other));
    }
    assert(after.traces.drop_last() =~= state.traces);
}

/// Whether the trace holds at `place` the activation of `revision_id` for
/// `automation_id`.
spec fn activation_stands_at(
    traces: Seq<TraceRecordModel>,
    place: int,
    automation_id: Seq<char>,
    revision_id: RevisionId,
) -> bool {
    &&& 0 <= place < traces.len()
    &&& traces[place].event matches TraceEventModel::RevisionActivated {
        automation_id: named,
        revision_id: started,
        mode: _,
    }
    &&& named == automation_id
    &&& started == revision_id
}

proof fn lemma_latest_activation(traces: Seq<TraceRecordModel>, automation_id: Seq<char>)
    ensures
        match last_activated(traces, automation_id) {
            Some(revision_id) => exists|place: int|
                {
                    &&& #[trigger] activation_stands_at(traces, place, automation_id, revision_id)
                    &&& forall|later: int, other: RevisionId|
                        place < later ==> !(#[trigger] activation_stands_at(
                            traces,
                            later,
                            automation_id,
                            other,
                        ))
                },
            None => forall|place: int, other: RevisionId|
                !(#[trigger] activation_stands_at(traces, place, automation_id, other)),
        },
    decreases traces.len(),
{
    if traces.len() > 0 {
        let rest = traces.drop_last();
        let end = traces.len() - 1;
        lemma_latest_activation(rest, automation_id);
        assert forall|place: int, other: RevisionId| place < end implies #[trigger]
            activation_stands_at(traces, place, automation_id, other) == activation_stands_at(
            rest,
            place,
            automation_id,
            other,
        ) by {
            if 0 <= place < end {
                assert(rest[place] == traces[place]);
            }
        }
        let found = last_activated(traces, automation_id);
        if let TraceEventModel::RevisionActivated {
            automation_id: named,
            revision_id: started,
            mode,
        } = traces.last().event {
            if named == automation_id {
                assert(activation_stands_at(traces, end, automation_id, started));
            }
        }
        if exists|other: RevisionId| #[trigger]
            activation_stands_at(traces, end, automation_id, other) {
            assert(activation_stands_at(traces, end, automation_id, found->0));
        } else {
            assert(found == last_activated(rest, automation_id));
            match found {
                Some(revision_id) => {
                    let place = choose|place: int|
                        {
                            &&& #[trigger] activation_stands_at(
                                rest,
                                place,
                                automation_id,
                                revision_id,
                            )
                            &&& forall|later: int, other: RevisionId|
                                place < later ==> !(#[trigger] activation_stands_at(
                                    rest,
                                    later,
                                    automation_id,
                                    other,
                                ))
                        };
                    assert(activation_stands_at(traces, place, automation_id, revision_id));
                    assert forall|later: int, other: RevisionId| place < later implies !(#[trigger]
                    activation_stands_at(traces, later, automation_id, other)) by {
                        if later < end {
                            assert(!activation_stands_at(rest, later, automation_id, other));
                        }
                    }
                },
                None => {
                    assert forall|place: int, other: RevisionId| !(#[trigger]
                    activation_stands_at(traces, place, automation_id, other)) by {
                        if place < end {
                            assert(!activation_stands_at(rest, place, automation_id, other));
                        }
                    }
                },
            }
        }
    }
}

/// The revision that was activated last is the one of the latest activation that the
/// trace holds for the automation.
pub proof fn latest_activation_is_told(traces: Seq<TraceRecordModel>, automation_id: Seq<char>)
    ensures
        last_activated(traces, automation_id) matches Some(revision_id) ==> exists|place: int|
            {
                &&& 0 <= place < traces.len()
                &&& (#[trigger] traces[place]).event matches TraceEventModel::RevisionActivated {
                    automation_id: named,
                    revision_id: started,
                    mode: _,
                }
                &&& named == automation_id
                &&& started == revision_id
                &&& forall|later: int|
                    place < later < traces.len() ==> !((#[trigger] traces[later]).event
                        is RevisionActivated && traces[later].event->RevisionActivated_automation_id
                        == automation_id)
            },
        last_activated(traces, automation_id) is None ==> forall|place: int|
            0 <= place < traces.len() ==> !((#[trigger] traces[place]).event is RevisionActivated
                && traces[place].event->RevisionActivated_automation_id == automation_id),
{
    lemma_latest_activation(traces, automation_id);
    match last_activated(traces, automation_id) {
        Some(revision_id) => {
            let place = choose|place: int|
                {
                    &&& #[trigger] activation_stands_at(traces, place, automation_id, revision_id)
                    &&& forall|later: int, other: RevisionId|
                        place < later ==> !(#[trigger] activation_stands_at(
                            traces,
                            later,
                            automation_id,
                            other,
                        ))
                };
            assert forall|later: int| place < later < traces.len() implies !((
            #[trigger] traces[later]).event is RevisionActivated
                && traces[later].event->RevisionActivated_automation_id == automation_id) by {
                assert(!activation_stands_at(
                    traces,
                    later,
                    automation_id,
                    traces[later].event->RevisionActivated_revision_id,
                ));
            }
            assert(traces[place].event is RevisionActivated);
        },
        None => {
            assert forall|place: int| 0 <= place < traces.len() implies !((
            #[trigger] traces[place]).event is RevisionActivated
                && traces[place].event->RevisionActivated_automation_id == automation_id) by {
                assert(!activation_stands_at(
                    traces,
                    place,
                    automation_id,
                    traces[place].event->RevisionActivated_revision_id,
                ));
            }
        },
    }
}

/// What an activation does and when it is refused, with which error.
pub proof fn activation_is_told_in_full(
    state: ControlPlaneStateModel,
    automation_id: Seq<char>,
    revision_id: RevisionId,
    mode: ActivationMode,
    now: i64,
)
    requires
        in_key_order::<String, ManagedAutomationModel>(state.automations),
    ensures
        match state.automation(automation_id) {
            None => activated(state, automation_id, revision_id, mode, now) == Err::<
                ControlPlaneStateModel,
                AutomationsErrorModel,
            >(AutomationsErrorModel::AutomationNotFound(automation_id)),
            Some(before) => match revision_in(before, revision_id) {
                None => activated(state, automation_id, revision_id, mode, now) == Err::<
                    ControlPlaneStateModel,
                    AutomationsErrorModel,
                >(AutomationsErrorModel::RevisionNotFound { automation_id, revision_id }),
                Some(revision) => {
                    let kept = if before.active_revision_id is Some {
                        before.active_revision_id
                    } else {
                        last_activated(state.traces, automation_id)
                    };
                    let other_schema = {
                        &&& before.current_state is Some
                        &&& kept is Some
                        &&& revision_in(before, kept->0) is Some
                        &&& revision_in(before, kept->0)->0.descriptor.state_schema_version
                            != revision.descriptor.state_schema_version
                    };
                    if mode == ActivationMode::PreserveState && other_schema {
                        activated(state, automation_id, revision_id, mode, now) == Err::<
                            ControlPlaneStateModel,
                            AutomationsErrorModel,
                        >(AutomationsErrorModel::IncompatibleState { automation_id, revision_id })
                    } else {
                        &&& activated(state, automation_id, revision_id, mode, now) matches Ok(
                            after,
                        )
                        &&& after.next_revision_id == state.next_revision_id
                        &&& after.automation(automation_id) matches Some(automation)
                        &&& automation.automation_id == before.automation_id
                        &&& automation.revisions == before.revisions
                        &&& automation.active_revision_id == Some(revision_id)
                        &&& automation.scheduled_wakeups.len() == 0
                        &&& automation.last_status is None
                        &&& automation.current_state is Some
                        &&& mode == ActivationMode::ColdStart ==> automation.current_state == Some(
                            revision.initial_state,
                        )
                        &&& mode == ActivationMode::PreserveState && before.current_state is Some
                            ==> automation.current_state == before.current_state
                        &&& before.current_state is None ==> automation.current_state == Some(
                            revision.initial_state,
                        )
                        &&& forall|other: Seq<char>|
                            other != automation_id ==> #[trigger] after.automation(other)
                                == state.automation(other)
                        &&& after.traces.len() == state.traces.len() + 1
                        &&& after.traces.drop_last() == state.traces
                        &&& after.traces.last().at == now
                        &&& after.traces.last().event == (TraceEventModel::RevisionActivated {
                            automation_id,
                            revision_id,
                            mode,
                        })
                    }
                },
            },
        },
{
    if let Some(before) = state.automation(automation_id) {
        if let Ok(after) = activated(state, automation_id, revision_id, mode, now) {
            let revision = revision_in(before, revision_id)->0;
            let automation = ManagedAutomationModel {
                active_revision_id: Some(revision_id),
                current_state: if mode == ActivationMode::ColdStart || before.current_state is None {
                    Some(revision.initial_state)
                } else {
                    before.current_state
                },
                scheduled_wakeups: Seq::empty(),
                last_status: None,
                ..before
            };
            lemma_replaced(state, automation_id, automation);
            let replaced = state.with_automation(automation_id, automation);
            assert(after.automations == replaced.automations);
            assert(after.automation(automation_id) == Some(automation));
            assert forall|other: Seq<char>| other != automation_id implies #[trigger]
                after.automation(other) == state.automation(other) by {
                assert(replaced.automation(other) == state.automation(other));
            }
            assert(after.traces.drop_last() =~= state.traces);
        }
    }
}

/// What a deactivation does and when it is refused, with which error.
pub proof fn deactivation_is_told_in_full(
    state: ControlPlaneStateModel,
    automation_id: Seq<char>,
    now: i64,
)
    requires
        in_key_order::<String, ManagedAutomationModel>(state.automations),
    ensures
        match state.automation(automation_id) {
            None => deactivated(state, automation_id, now) == Err::<
                ControlPlaneStateModel,
                AutomationsErrorModel,
            >(AutomationsErrorModel::AutomationNotFound(automation_id)),
            Some(before) => match before.active_revision_id {
                None => deactivated(state, automation_id, now) == Err::<
                    ControlPlaneStateModel,
                    AutomationsErrorModel,
                >(AutomationsErrorModel::NoActiveRevision { automation_id }),
                Some(revision_id) => {
                    &&& deactivated(state, automation_id, now) matches Ok(after)
                    &&& after.next_revision_id == state.next_revision_id
                    &&& after.automation(automation_id) matches Some(automation)
                    &&& automation.automation_id == before.automation_id
                    &&& automation.revisions == before.revisions
                    &&& automation.current_state == before.current_state
                    &&& automation.active_revision_id is None
                    &&& automation.scheduled_wakeups.len() == 0
                    &&& automation.last_status == Some("deactivated"@)
                    &&& forall|other: Seq<char>|
                        other != automation_id ==> #[trigger] after.automation(other)
                            == state.automation(other)
                    &&& after.traces.len() == state.traces.len() + 1
                    &&& after.traces.drop_last() == state.traces
                    &&& after.traces.last().at == now
                    &&& after.traces.last().event == (TraceEventModel::AutomationDeactivated {
                        automation_id,
                        revision_id,
                    })
                },
            },
        },
{
    if let Some(before) = state.automation(automation_id) {
        if let Ok(after) = deactivated(state, automation_id, now) {
            let automation = ManagedAutomationModel {
                active_revision_id: None,
                scheduled_wakeups: Seq::empty(),
                last_status: Some("deactivated"@),
                ..before
            };
            lemma_replaced(state, automation_id, automation);
            let replaced = state.with_automation(automation_id, automation);
            assert(after.automations == replaced.automations);
            assert(after.automation(automation_id) == Some(automation));
            assert forall|other: Seq<char>| other != automation_id implies #[trigger]
                after.automation(other) == state.automation(other) by {
                assert(replaced.automation(other) == state.automation(other));
            }
            assert(after.traces.drop_last() =~= state.traces);
        }
    }
}

/// What a deletion does and when it is refused.
pub proof fn deletion_is_told_in_full(
    state: ControlPlaneStateModel,
    automation_id: Seq<char>,
    now: i64,
)
    requires
        in_key_order::<String, ManagedAutomationModel>(state.automations),
    ensures
        match state.automation(automation_id) {
            None => deleted(state, automation_id, now) == Err::<
                ControlPlaneStateModel,
                AutomationsErrorModel,
            >(AutomationsErrorModel::AutomationNotFound(automation_id)),
            Some(before) => {
                &&& deleted(state, automation_id, now) matches Ok(after)
                &&& after.next_revision_id == state.next_revision_id
                &&& after.automation(automation_id) is None
                &&& forall|other: Seq<char>|
                    other != automation_id ==> #[trigger] after.automation(other)
                        == state.automation(other)
                &&& after.traces.len() == state.traces.len() + 1
                &&& after.traces.drop_last() == state.traces
                &&& after.traces.last().at == now
                &&& after.traces.last().event == (TraceEventModel::AutomationDeleted {
                    automation_id,
                })
            },
        },
{
    if let Ok(after) = deleted(state, automation_id, now) {
        without_entry_is_forgotten::<String, ManagedAutomationModel>(
            state.automations,
            automation_id,
        );
        assert forall|other: Seq<char>| other != automation_id implies #[trigger] after.automation(
            other,
        ) == state.automation(other) by {
            assert(lookup::<String, ManagedAutomationModel>(state.automations, other)
                == state.automation(other));
        }
        assert(after.traces.drop_last() =~= state.traces);
    }
}

/// What the dispatch of a wakeup does and when it is refused.
pub proof fn dispatch_is_told_in_full(
    state: ControlPlaneStateModel,
    automation_id: Seq<char>,
    revision_id: RevisionId,
    wakeup_id: Seq<char>,
    at: i64,
    now: i64,
)
    requires
        in_key_order::<String, ManagedAutomationModel>(state.automations),
        state.automation(automation_id) matches Some(before) ==> in_key_order::<
            String,
            ScheduledWakeupModel,
        >(before.scheduled_wakeups),
    ensures
        match state.automation(automation_id) {
            None => dispatched(state, automation_id, revision_id, wakeup_id, at, now) == Err::<
                ControlPlaneStateModel,
                AutomationsErrorModel,
            >(AutomationsErrorModel::AutomationNotFound(automation_id)),
            Some(before) => {
                &&& dispatched(state, automation_id, revision_id, wakeup_id, at, now) matches Ok(
                    after,
                )
                &&& after.next_revision_id == state.next_revision_id
                &&& after.automation(automation_id) matches Some(automation)
                &&& automation.automation_id == before.automation_id
                &&& automation.revisions == before.revisions
                &&& automation.active_revision_id == before.active_revision_id
                &&& automation.current_state == before.current_state
                &&& automation.last_status == before.last_status
                &&& wakeup_in(automation, wakeup_id) is None
                &&& forall|other: Seq<char>|
                    other != wakeup_id ==> #[trigger] wakeup_in(automation, other) == wakeup_in(
                        before,
                        other,
                    )
                &&& forall|other: Seq<char>|
                    other != automation_id ==> #[trigger] after.automation(other)
                        == state.automation(other)
                &&& after.traces.len() == state.traces.len() + 1
                &&& after.traces.drop_last() == state.traces
                &&& after.traces.last().at == now
                &&& after.traces.last().event == (TraceEventModel::WakeupDispatched {
                    automation_id,
                    revision_id,
                    wakeup_id,
                    at,
                })
            },
        },
{
    if let Some(before) = state.automation(automation_id) {
        let after = dispatched(state, automation_id, revision_id, wakeup_id, at, now)->Ok_0;
        without_entry_is_forgotten::<String, ScheduledWakeupModel>(
            before.scheduled_wakeups,
            wakeup_id,
        );
        let automation = ManagedAutomationModel {
            scheduled_wakeups: crate::ordered_map::without_entry::<String, ScheduledWakeupModel>(
                before.scheduled_wakeups,
                wakeup_id,
            ),
            ..before
        };
        lemma_replaced(state, automation_id, automation);
        let replaced = state.with_automation(automation_id, automation);
        assert(after.automations == replaced.automations);
        assert(after.automation(automation_id) == Some(automation));
        assert forall|other: Seq<char>| other != wakeup_id implies #[trigger] wakeup_in(
            automation,
            other,
        ) == wakeup_in(before, other) by {
            assert(lookup::<String, ScheduledWakeupModel>(before.scheduled_wakeups, other)
                == wakeup_in(before, other));
        }
        assert forall|other: Seq<char>| other != automation_id implies #[trigger] after.automation(
            other,
        ) == state.automation(other) by {
            assert(replaced.automation(other) == state.automation(other));
        }
        assert(after.traces.drop_last() =~= state.traces);
    }
}

/// The guest of an automation is asked with the configuration of the revision that
/// is active and with the state that the automation keeps, whatever the event is.
/// Only where it keeps none yet is it the initial state. Nothing is asked of an
/// automation that is not there or not active.
pub proof fn guest_is_asked_with_its_state(
    state: ControlPlaneStateModel,
    automation_id: Seq<char>,
    event: AutomationEventModel,
    now: i64,
)
    ensures
        match state.automation(automation_id) {
            None => advance_request_for(state, automation_id, event, now) matches Err(error)
                && error == AutomationsErrorModel::AutomationNotFound(automation_id),
            Some(automation) => match automation.active_revision_id {
                None => advance_request_for(state, automation_id, event, now) matches Err(error)
                    && error == (AutomationsErrorModel::NoActiveRevision { automation_id }),
                Some(active) => match revision_in(automation, active) {
                    None => advance_request_for(state, automation_id, event, now) matches Err(error)
                        && error == (AutomationsErrorModel::RevisionNotFound {
                        automation_id,
                        revision_id: active,
                    }),
                    Some(revision) => {
                        &&& advance_request_for(state, automation_id, event, now) matches Ok(asked)
                        &&& asked.0 == revision
                        &&& asked.1.automation_id == automation_id
                        &&& asked.1.revision_id == active
                        &&& asked.1.now == now
                        &&& asked.1.config == revision.config
                        &&& asked.1.event == event
                        &&& automation.current_state is Some ==> Some(asked.1.state)
                            == automation.current_state
                        &&& automation.current_state is None ==> asked.1.state
                            == revision.initial_state
                    },
                },
            },
        },
{
}

/// The next request of a drive carries the time of the drive, the configuration of
/// the active revision and the state that the automation keeps, whatever the event.
pub proof fn drive_asks_with_the_kept_state(drive: EventDriveModel, state: ControlPlaneStateModel)
    ensures
        drive.action(state) matches Ok(DriveActionModel::AdvanceGuest { artifact_path, request })
            ==> {
            &&& drive.effects.len() == 0
            &&& drive.pending.len() > 0
            &&& request.automation_id == drive.automation_id
            &&& request.event == drive.pending[0]
            &&& request.now == drive.now
            &&& state.automation(drive.automation_id) matches Some(automation)
            &&& automation.active_revision_id == Some(request.revision_id)
            &&& revision_in(automation, request.revision_id) matches Some(revision)
            &&& artifact_path == revision.artifact_path
            &&& request.config == revision.config
            &&& automation.current_state matches Some(current) ==> request.state == current
            &&& automation.current_state is None ==> request.state == revision.initial_state
        },
{
    if drive.effects.len() == 0 && drive.pending.len() > 0 {
        guest_is_asked_with_its_state(state, drive.automation_id, drive.pending[0], drive.now);
    }
}

/// After an answer the next request to the same automation carries the state of the
/// answer, whatever its event, also after effects were handled.
pub proof fn guest_remembers_what_it_answered(
    state: ControlPlaneStateModel,
    automation_id: Seq<char>,
    revision_id: RevisionId,
    event: AutomationEventModel,
    now: i64,
    response: AdvanceResponseModel,
    drive: EventDriveModel,
    effect_id: Seq<char>,
    follow_up_events: usize,
    handled_at: i64,
)
    requires
        in_key_order::<String, ManagedAutomationModel>(state.automations),
        drive.automation_id == automation_id,
        persisted(state, automation_id, revision_id, event, now, response) is Ok,
    ensures
        drive.action(
            persisted(state, automation_id, revision_id, event, now, response)->Ok_0,
        ) matches Ok(DriveActionModel::AdvanceGuest { artifact_path, request }) ==> request.state
            == response.state && request.revision_id == revision_id,
        drive.action(
            effect_recorded(
                persisted(state, automation_id, revision_id, event, now, response)->Ok_0,
                automation_id,
                revision_id,
                effect_id,
                follow_up_events,
                handled_at,
            ),
        ) matches Ok(DriveActionModel::AdvanceGuest { artifact_path, request }) ==> request.state
            == response.state && request.revision_id == revision_id,
{
    let after = persisted(state, automation_id, revision_id, event, now, response)->Ok_0;
    let before = state.automation(automation_id)->0;
    let automation = ManagedAutomationModel {
        current_state: Some(response.state),
        last_status: response.status,
        scheduled_wakeups: wakeups_after(before.scheduled_wakeups, response.effects),
        ..before
    };
    lemma_replaced(state, automation_id, automation);
    assert(after.automations == state.with_automation(automation_id, automation).automations);
    assert(after.automation(automation_id) == Some(automation));
    drive_asks_with_the_kept_state(drive, after);
    let recorded = effect_recorded(
        after,
        automation_id,
        revision_id,
        effect_id,
        follow_up_events,
        handled_at,
    );
    assert(recorded.automation(automation_id) == Some(automation));
    drive_asks_with_the_kept_state(drive, recorded);
}

/// Whether an effect schedules the wakeup `wakeup_id` for `at`.
spec fn schedules(effect: EffectRequestModel, wakeup_id: Seq<char>, at: i64) -> bool {
    effect.kind == (EffectKindModel::ScheduleWakeup { wakeup_id, at })
}

/// Whether an effect cancels the wakeup `wakeup_id`.
spec fn cancels(effect: EffectRequestModel, wakeup_id: Seq<char>) -> bool {
    effect.kind == (EffectKindModel::CancelWakeup { wakeup_id })
}

/// Whether no effect from `place` on speaks of the wakeup `wakeup_id`.
spec fn untouched_from(
    effects: Seq<EffectRequestModel>,
    place: int,
    wakeup_id: Seq<char>,
) -> bool {
    forall|i: int|
        0 <= i && place <= i < effects.len() ==> {
            &&& !cancels(#[trigger] effects[i], wakeup_id)
            &&& effects[i].kind matches EffectKindModel::ScheduleWakeup { wakeup_id: named, at: _ }
                ==> named != wakeup_id
        }
}

proof fn lemma_wakeup_left(
    before: Option<ScheduledWakeupModel>,
    effects: Seq<EffectRequestModel>,
    wakeup_id: Seq<char>,
    place: int,
    at: i64,
)
    ensures
        untouched_from(effects, 0, wakeup_id) ==> wakeup_left(before, effects, wakeup_id) == before,
        0 <= place < effects.len() && schedules(effects[place], wakeup_id, at) && untouched_from(
            effects,
            place + 1,
            wakeup_id,
        ) ==> wakeup_left(before, effects, wakeup_id) == Some(
            ScheduledWakeupModel { wakeup_id, at },
        ),
        0 <= place < effects.len() && cancels(effects[place], wakeup_id) && untouched_from(
            effects,
            place + 1,
            wakeup_id,
        ) ==> wakeup_left(before, effects, wakeup_id) is None,
    decreases effects.len(),
{
    if effects.len() > 0 {
        let rest = effects.drop_last();
        let end = effects.len() - 1;
        lemma_wakeup_left(before, rest, wakeup_id, place, at);
        assert(effects[end] == effects.last());
        assert forall|from: int| untouched_from(effects, from, wakeup_id) implies #[trigger]
            untouched_from(rest, from, wakeup_id) by {
            assert forall|i: int| 0 <= i && from <= i < rest.len() implies {
                &&& !cancels(#[trigger] rest[i], wakeup_id)
                &&& rest[i].kind matches EffectKindModel::ScheduleWakeup {
                    wakeup_id: named,
                    at: _,
                } ==> named != wakeup_id
            } by {
                assert(rest[i] == effects[i]);
            }
        }
        if place < end {
            assert(0 <= place ==> rest[place] == effects[place]);
        }
        if untouched_from(effects, 0, wakeup_id) {
            assert(untouched_from(rest, 0, wakeup_id));
        }
        if untouched_from(effects, place + 1, wakeup_id) {
            assert(untouched_from(rest, place + 1, wakeup_id));
        }
    }
}

/// What taking over an answer does and when it is refused. The state and the status
/// are those of the answer. Of each wakeup the last effect that names it decides: it
/// is scheduled for the time of that effect, or gone; one that no effect names stays.
pub proof fn answer_is_told_in_full(
    state: ControlPlaneStateModel,
    automation_id: Seq<char>,
    revision_id: RevisionId,
    event: AutomationEventModel,
    now: i64,
    response: AdvanceResponseModel,
    wakeup_id: Seq<char>,
    place: int,
    at: i64,
)
    requires
        in_key_order::<String, ManagedAutomationModel>(state.automations),
        state.automation(automation_id) matches Some(before) ==> in_key_order::<
            String,
            ScheduledWakeupModel,
        >(before.scheduled_wakeups),
    ensures
        match state.automation(automation_id) {
            None => persisted(state, automation_id, revision_id, event, now, response) == Err::<
                ControlPlaneStateModel,
                AutomationsErrorModel,
            >(AutomationsErrorModel::AutomationNotFound(automation_id)),
            Some(before) => if before.active_revision_id != Some(revision_id) {
                persisted(state, automation_id, revision_id, event, now, response) == Err::<
                    ControlPlaneStateModel,
                    AutomationsErrorModel,
                >(AutomationsErrorModel::RevisionNotFound { automation_id, revision_id })
            } else {
                &&& persisted(
                    state,
                    automation_id,
                    revision_id,
                    event,
                    now,
                    response,
                ) matches Ok(after)
                &&& after.next_revision_id == state.next_revision_id
                &&& after.automation(automation_id) matches Some(automation)
                &&& automation.automation_id == before.automation_id
                &&& automation.revisions == before.revisions
                &&& automation.active_revision_id == before.active_revision_id
                &&& automation.current_state == Some(response.state)
                &&& automation.last_status == response.status
                &&& (forall|i: int|
                    0 <= i < response.effects.len() ==> {
                        &&& (#[trigger] response.effects[i]).kind
                            != (EffectKindModel::CancelWakeup { wakeup_id })
                        &&& response.effects[i].kind matches EffectKindModel::ScheduleWakeup {
                            wakeup_id: named,
                            at: _,
                        } ==> named != wakeup_id
                    }) ==> wakeup_in(
                    automation,
                    wakeup_id,
                ) == wakeup_in(before, wakeup_id)
                &&& 0 <= place < response.effects.len() && response.effects[place].kind == (
                EffectKindModel::ScheduleWakeup { wakeup_id, at }) && (forall|i: int|
                    place + 1 <= i < response.effects.len() ==> {
                        &&& (#[trigger] response.effects[i]).kind
                            != (EffectKindModel::CancelWakeup { wakeup_id })
                        &&& response.effects[i].kind matches EffectKindModel::ScheduleWakeup {
                            wakeup_id: named,
                            at: _,
                        } ==> named != wakeup_id
                    }) ==> wakeup_in(
                    automation,
                    wakeup_id,
                ) == Some(ScheduledWakeupModel { wakeup_id, at })
                &&& 0 <= place < response.effects.len() && response.effects[place].kind == (
                EffectKindModel::CancelWakeup { wakeup_id }) && (forall|i: int|
                    place + 1 <= i < response.effects.len() ==> {
                        &&& (#[trigger] response.effects[i]).kind
                            != (EffectKindModel::CancelWakeup { wakeup_id })
                        &&& response.effects[i].kind matches EffectKindModel::ScheduleWakeup {
                            wakeup_id: named,
                            at: _,
                        } ==> named != wakeup_id
                    }) ==> wakeup_in(
                    automation,
                    wakeup_id,
                ) is None
                &&& forall|other: Seq<char>|
                    other != automation_id ==> #[trigger] after.automation(other)
                        == state.automation(other)
            },
        },
{
    if let Some(before) = state.automation(automation_id) {
        if before.active_revision_id == Some(revision_id) {
            let after = persisted(
                state,
                automation_id,
                revision_id,
                event,
                now,
                response,
            )->Ok_0;
            let automation = ManagedAutomationModel {
                current_state: Some(response.state),
                last_status: response.status,
                scheduled_wakeups: wakeups_after(before.scheduled_wakeups, response.effects),
                ..before
            };
            lemma_replaced(state, automation_id, automation);
            let replaced = state.with_automation(automation_id, automation);
            assert(after.automations == replaced.automations);
            assert(after.automation(automation_id) == Some(automation));
            assert forall|other: Seq<char>| other != automation_id implies #[trigger]
                after.automation(other) == state.automation(other) by {
                assert(replaced.automation(other) == state.automation(other));
            }
            last_scheduling_effect_decides(before.scheduled_wakeups, response.effects, wakeup_id);
            lemma_wakeup_left(
                wakeup_in(before, wakeup_id),
                response.effects,
                wakeup_id,
                place,
                at,
            );
        }
    }
}

/// An answer is traced at the time of the drive: the event, the answer, and one record
/// for each effect in its order, which tells what became of it.
pub proof fn answer_is_traced(
    state: ControlPlaneStateModel,
    automation_id: Seq<char>,
    revision_id: RevisionId,
    event: AutomationEventModel,
    now: i64,
    response: AdvanceResponseModel,
    i: int,
)
    requires
        0 <= i < response.effects.len(),
    ensures
        persisted(state, automation_id, revision_id, event, now, response) matches Ok(after) ==> {
            let first = state.traces.len() as int;
            let effect = response.effects[i];
            &&& after.traces.len() == first + 2 + response.effects.len()
            &&& after.traces.take(first) == state.traces
            &&& after.traces[first].at == now
            &&& after.traces[first].event == (TraceEventModel::EventSubmitted {
                automation_id,
                revision_id,
                event,
            })
            &&& after.traces[first + 1].at == now
            &&& after.traces[first + 1].event == (TraceEventModel::StateAdvanced {
                automation_id,
                revision_id,
                response,
            })
            &&& after.traces[first + 2 + i].at == now
            &&& effect.kind matches EffectKindModel::ScheduleWakeup { wakeup_id, at }
                ==> after.traces[first + 2 + i].event == (TraceEventModel::WakeupScheduled {
                automation_id,
                revision_id,
                wakeup_id,
                at,
            })
            &&& effect.kind matches EffectKindModel::CancelWakeup { wakeup_id }
                ==> after.traces[first + 2 + i].event == (TraceEventModel::WakeupCancelled {
                automation_id,
                revision_id,
                wakeup_id,
            })
            &&& !(effect.kind is ScheduleWakeup) && !(effect.kind is CancelWakeup) ==> {
                &&& after.traces[first + 2 + i].event matches TraceEventModel::EffectRequested {
                    automation_id: named,
                    revision_id: asking,
                    effect_id,
                    effect_kind,
                }
                &&& named == automation_id
                &&& asking == revision_id
                &&& effect_id == effect.effect_id
                &&& effect.kind is EmitNotification ==> effect_kind == "emit_notification"@
                &&& effect.kind is FetchHttp ==> effect_kind == "fetch_http"@
                &&& effect.kind is ReadProfile ==> effect_kind == "read_profile"@
                &&& effect.kind is CallTool ==> effect_kind == "call_tool"@
                &&& effect.kind is RunCommand ==> effect_kind == "run_command"@
                &&& effect.kind is RunInference ==> effect_kind == "run_inference"@
                &&& effect.kind is RunModel ==> effect_kind == "run_model"@
            }
        },
{
    if let Ok(after) = persisted(state, automation_id, revision_id, event, now, response) {
        assert(after.traces.take(state.traces.len() as int) =~= state.traces);
    }
}

/// A handled effect is traced at its time, with the number of events that follow from
/// it, and nothing else changes.
pub proof fn handled_effect_is_traced(
    state: ControlPlaneStateModel,
    automation_id: Seq<char>,
    revision_id: RevisionId,
    effect_id: Seq<char>,
    follow_up_events: usize,
    now: i64,
)
    ensures
        ({
            let after = effect_recorded(
                state,
                automation_id,
                revision_id,
                effect_id,
                follow_up_events,
                now,
            );
            &&& after.automations == state.automations
            &&& after.next_revision_id == state.next_revision_id
            &&& after.traces.len() == state.traces.len() + 1
            &&& after.traces.drop_last() == state.traces
            &&& after.traces.last().at == now
            &&& after.traces.last().event == (TraceEventModel::EffectHandled {
                automation_id,
                revision_id,
                effect_id,
                follow_up_events,
            })
        }),
{
    let after = effect_recorded(
        state,
        automation_id,
        revision_id,
        effect_id,
        follow_up_events,
        now,
    );
    assert(after.traces.drop_last() =~= state.traces);
}

/// Each kind of effect needs the capability of its name, and is traced under it.
pub proof fn effects_need_the_capability_of_their_name(kind: EffectKindModel)
    ensures
        kind is ScheduleWakeup ==> capability_of_kind(kind) == Capability::ScheduleWakeups
            && label_of_kind(kind) == "schedule_wakeup"@,
        kind is CancelWakeup ==> capability_of_kind(kind) == Capability::ScheduleWakeups
            && label_of_kind(kind) == "cancel_wakeup"@,
        kind is EmitNotification ==> capability_of_kind(kind) == Capability::EmitNotifications
            && label_of_kind(kind) == "emit_notification"@,
        kind is FetchHttp ==> capability_of_kind(kind) == Capability::FetchHttp && label_of_kind(
            kind,
        ) == "fetch_http"@,
        kind is ReadProfile ==> capability_of_kind(kind) == Capability::ReadProfile
            && label_of_kind(kind) == "read_profile"@,
        kind is CallTool ==> capability_of_kind(kind) == Capability::CallTools && label_of_kind(
            kind,
        ) == "call_tool"@,
        kind is RunCommand ==> capability_of_kind(kind) == Capability::RunCommand && label_of_kind(
            kind,
        ) == "run_command"@,
        kind is RunInference ==> capability_of_kind(kind) == Capability::RunInference
            && label_of_kind(kind) == "run_inference"@,
        kind is RunModel ==> capability_of_kind(kind) == Capability::RunModel && label_of_kind(kind)
            == "run_model"@,
        name_of_capability(Capability::EmitNotifications) == "EmitNotifications"@,
        name_of_capability(Capability::CallTools) == "CallTools"@,
        name_of_capability(Capability::FetchHttp) == "FetchHttp"@,
        name_of_capability(Capability::ReadProfile) == "ReadProfile"@,
        name_of_capability(Capability::RunCommand) == "RunCommand"@,
        name_of_capability(Capability::RunInference) == "RunInference"@,
        name_of_capability(Capability::RunModel) == "RunModel"@,
        name_of_capability(Capability::ScheduleWakeups) == "ScheduleWakeups"@,
{
}

/// An effect is refused exactly where the automation or the revision is not there, or
/// the revision does not declare what the effect needs.
pub proof fn effects_are_refused_without_capability(
    state: ControlPlaneStateModel,
    automation_id: Seq<char>,
    revision_id: RevisionId,
    kind: EffectKindModel,
)
    ensures
        match state.automation(automation_id) {
            None => capability_refusal(state, automation_id, revision_id, kind) == Some(
                AutomationsErrorModel::AutomationNotFound(automation_id),
            ),
            Some(automation) => match revision_in(automation, revision_id) {
                None => capability_refusal(state, automation_id, revision_id, kind) == Some(
                    AutomationsErrorModel::RevisionNotFound { automation_id, revision_id },
                ),
                Some(revision) => {
                    &&& revision.descriptor.capabilities.contains(capability_of_kind(kind))
                        ==> capability_refusal(state, automation_id, revision_id, kind) is None
                    &&& !revision.descriptor.capabilities.contains(capability_of_kind(kind))
                        ==> capability_refusal(state, automation_id, revision_id, kind) == Some(
                        AutomationsErrorModel::MissingCapability {
                            automation_id,
                            capability: name_of_capability(capability_of_kind(kind)),
                        },
                    )
                },
            },
        },
{
}

/// Every effect of an answer that neither schedules nor cancels a wakeup waits for the
/// host, as often and in the order in which the answer has it, and no other does.
pub proof fn host_gets_every_other_effect(effects: Seq<EffectRequestModel>) -> (places: Seq<int>)
    ensures
        forall|a: int, b: int|
            0 <= a < b < places.len() ==> (#[trigger] places[a]) < (#[trigger] places[b]),
        forall|k: int| 0 <= k < places.len() ==> 0 <= #[trigger] places[k] < effects.len(),
        forall|i: int|
            0 <= i < effects.len() ==> ((!((#[trigger] effects[i]).kind is ScheduleWakeup) && !(
            effects[i].kind is CancelWakeup)) <==> places.contains(i)),
        host_effects(effects).len() == places.len(),
        forall|k: int|
            0 <= k < places.len() ==> host_effects(effects)[k] == effects[#[trigger] places[k]],
    decreases effects.len(),
{
    reveal(Seq::filter);
    if effects.len() == 0 {
        Seq::empty()
    } else {
        let rest = effects.drop_last();
        let end = effects.len() - 1;
        let before = host_gets_every_other_effect(rest);
        let last = effects.last();
        let places = if !(last.kind is ScheduleWakeup) && !(last.kind is CancelWakeup) {
            before.push(end)
        } else {
            before
        };
        assert forall|i: int| 0 <= i < effects.len() implies ((!((#[trigger] effects[i]).kind
            is ScheduleWakeup) && !(effects[i].kind is CancelWakeup)) <==> places.contains(i)) by {
            if i < end {
                assert(rest[i] == effects[i]);
                if before.contains(i) {
                    let k = before.index_of(i);
                    assert(places[k] == i);
                }
                if places.contains(i) {
                    let k = places.index_of(i);
                    assert(before[k] == i);
                }
            } else {
                assert(effects[i] == last);
                if places.len() > before.len() {
                    assert(places[before.len() as int] == end);
                }
                if places.contains(i) && places.len() == before.len() {
                    let k = before.index_of(i);
                    assert(before[k] == i);
                }
            }
        }
        assert forall|k: int| 0 <= k < places.len() implies host_effects(effects)[k]
            == effects[#[trigger] places[k]] by {
            if k < before.len() {
                assert(places[k] == before[k]);
                assert(host_effects(rest)[k] == rest[before[k]]);
            }
        }
        places
    }
}

/// A drive after an answer: what the host is asked for is every effect of the answer
/// that neither schedules nor cancels a wakeup, in order; the next event is the one
/// behind the answered one; the first answer decides how the event was taken.
pub proof fn answered_drive_hands_on_every_effect(
    drive: EventDriveModel,
    revision_id: RevisionId,
    response: AdvanceResponseModel,
) -> (places: Seq<int>)
    requires
        drive.pending.len() > 0,
    ensures
        forall|a: int, b: int|
            0 <= a < b < places.len() ==> (#[trigger] places[a]) < (#[trigger] places[b]),
        forall|k: int| 0 <= k < places.len() ==> 0 <= #[trigger] places[k] < response.effects.len(),
        forall|i: int|
            0 <= i < response.effects.len() ==> ((!((#[trigger] response.effects[i]).kind is ScheduleWakeup) && !(
            response.effects[i].kind is CancelWakeup)) <==> places.contains(i)),
        drive.answered(revision_id, response).effects.len() == places.len(),
        forall|k: int|
            0 <= k < places.len() ==> drive.answered(revision_id, response).effects[k]
                == response.effects[#[trigger] places[k]],
        drive.answered(revision_id, response).revision_id == revision_id,
        drive.answered(revision_id, response).automation_id == drive.automation_id,
        drive.answered(revision_id, response).now == drive.now,
        drive.answered(revision_id, response).observations == drive.observations,
        drive.answered(revision_id, response).pending.len() == drive.pending.len() - 1,
        forall|i: int|
            0 <= i < drive.pending.len() - 1 ==> (#[trigger] drive.answered(
                revision_id,
                response,
            ).pending[i]) == drive.pending[i + 1],
        drive.disposition is Some ==> drive.answered(revision_id, response).disposition
            == drive.disposition,
        drive.disposition is None ==> drive.answered(revision_id, response).disposition == Some(
            response.disposition,
        ),
{
    host_gets_every_other_effect(response.effects)
}

/// A drive after an effect was handled: the effect is done with, the events that
/// follow from it wait behind those that waited, and what it showed stands behind what
/// was shown.
pub proof fn handled_drive_goes_on(drive: EventDriveModel, outcome: EffectHandlerOutcomeModel)
    requires
        drive.effects.len() > 0,
    ensures
        drive.handled(outcome).automation_id == drive.automation_id,
        drive.handled(outcome).now == drive.now,
        drive.handled(outcome).revision_id == drive.revision_id,
        drive.handled(outcome).disposition == drive.disposition,
        drive.handled(outcome).effects.len() == drive.effects.len() - 1,
        forall|i: int|
            0 <= i < drive.effects.len() - 1 ==> (#[trigger] drive.handled(outcome).effects[i])
                == drive.effects[i + 1],
        drive.handled(outcome).pending.len() == drive.pending.len()
            + outcome.follow_up_events.len(),
        forall|i: int|
            0 <= i < drive.pending.len() ==> (#[trigger] drive.handled(outcome).pending[i])
                == drive.pending[i],
        forall|i: int|
            0 <= i < outcome.follow_up_events.len() ==> drive.handled(
                outcome,
            ).pending[drive.pending.len() + i] == #[trigger] outcome.follow_up_events[i],
        drive.handled(outcome).observations.len() == drive.observations.len()
            + outcome.observations.len(),
        forall|i: int|
            0 <= i < drive.observations.len() ==> (#[trigger] drive.handled(
                outcome,
            ).observations[i]) == drive.observations[i],
        forall|i: int|
            0 <= i < outcome.observations.len() ==> drive.handled(
                outcome,
            ).observations[drive.observations.len() + i] == #[trigger] outcome.observations[i],
{
}

/// A drive has the host handle every effect before the guest sees the next event, and
/// it is finished when neither is left. It then tells how the event was taken and all
/// that was shown.
pub proof fn drive_goes_on_until_nothing_is_left(
    drive: EventDriveModel,
    state: ControlPlaneStateModel,
)
    ensures
        drive.effects.len() > 0 ==> match drive.action(state) {
            Ok(action) => {
                &&& action == (DriveActionModel::HandleEffect {
                    revision_id: drive.revision_id,
                    effect: drive.effects[0],
                })
                &&& capability_refusal(
                    state,
                    drive.automation_id,
                    drive.revision_id,
                    drive.effects[0].kind,
                ) is None
            },
            Err(error) => capability_refusal(
                state,
                drive.automation_id,
                drive.revision_id,
                drive.effects[0].kind,
            ) == Some(error),
        },
        drive.effects.len() == 0 && drive.pending.len() > 0 ==> match drive.action(state) {
            Ok(action) => action is AdvanceGuest,
            Err(error) => advance_request_for(
                state,
                drive.automation_id,
                drive.pending[0],
                drive.now,
            ) matches Err(reason) && reason == error,
        },
        drive.effects.len() == 0 && drive.pending.len() == 0 ==> {
            &&& drive.action(state) matches Ok(DriveActionModel::Finished(submission))
            &&& submission.observations == drive.observations
            &&& drive.disposition matches Some(disposition) ==> submission.disposition
                == disposition
            &&& drive.disposition is None ==> submission.disposition == EventDisposition::Handled
        },
{
}

/// A drive begins with its event alone.
pub proof fn drive_begins_with_its_event(
    automation_id: Seq<char>,
    event: AutomationEventModel,
    now: i64,
)
    ensures
        ({
            let drive = EventDriveModel::started(automation_id, event, now);
            &&& drive.automation_id == automation_id
            &&& drive.now == now
            &&& drive.pending.len() == 1
            &&& drive.pending[0] == event
            &&& drive.effects.len() == 0
            &&& drive.disposition is None
            &&& drive.observations.len() == 0
        }),
{
}

/// The guest of a dispatched wakeup hears of it by its name, at the time of dispatch.
pub proof fn dispatched_wakeup_is_told(wakeup: DueWakeupModel, now: i64)
    ensures
        wakeup_drive(wakeup, now).automation_id == wakeup.automation_id,
        wakeup_drive(wakeup, now).now == now,
        wakeup_drive(wakeup, now).pending.len() == 1,
        wakeup_drive(wakeup, now).pending[0] == (AutomationEventModel::WakeupFired {
            wakeup_id: wakeup.wakeup_id,
            at: now,
        }),
        wakeup_drive(wakeup, now).effects.len() == 0,
        wakeup_drive(wakeup, now).observations.len() == 0,
        wakeup_drive(wakeup, now).disposition is None,
{
}

/// Of two wakeups in the order of dispatch the one behind is not due earlier. Where
/// both are due at one time, the automations are in the order of their names, and so
/// are the wakeups of one automation.
pub proof fn earliest_wakeup_is_dispatched_first(due: Seq<DueWakeupModel>, i: int, j: int)
    requires
        in_due_order(due),
        0 <= i < j < due.len(),
    ensures
        due[i].at <= due[j].at,
        due[i].at == due[j].at ==> due[i].automation_id == due[j].automation_id || text_before(
            due[i].automation_id,
            due[j].automation_id,
        ),
        due[i].at == due[j].at && due[i].automation_id == due[j].automation_id ==> due[i].wakeup_id
            == due[j].wakeup_id || text_before(due[i].wakeup_id, due[j].wakeup_id),
{
    assert(!due_before(due[j], due[i]));
    <String as OrderedKey>::before_is_total(due[i].automation_id, due[j].automation_id);
    <String as OrderedKey>::before_is_total(due[i].wakeup_id, due[j].wakeup_id);
}

proof fn lemma_due_in_is_once(
    automation_id: Seq<char>,
    automation: ManagedAutomationModel,
    now: i64,
)
    requires
        in_key_order::<String, ScheduledWakeupModel>(automation.scheduled_wakeups),
        forall|i: int|
            0 <= i < automation.scheduled_wakeups.len() ==> (
            #[trigger] automation.scheduled_wakeups[i]).1.wakeup_id
                == automation.scheduled_wakeups[i].0,
    ensures
        due_in(automation_id, automation, now).no_duplicates(),
    decreases automation.scheduled_wakeups.len(),
{
    let wakeups = automation.scheduled_wakeups;
    let pred = |entry: (Seq<char>, ScheduledWakeupModel)| entry.1.at <= now;
    assert forall|i: int, j: int| 0 <= i < j < wakeups.len() implies #[trigger] wakeups[i]
        != #[trigger] wakeups[j] by {
        <String as OrderedKey>::before_is_strict(wakeups[i].0, wakeups[j].0);
    }
    assert(wakeups.no_duplicates());
    lemma_filter_keeps_distinct(wakeups, pred);
    let kept = wakeups.filter(pred);
    let due = due_in(automation_id, automation, now);
    assert forall|i: int, j: int| 0 <= i < due.len() && 0 <= j < due.len() && i != j implies due[i]
        != due[j] by {
        wakeups.lemma_filter_contains_rev(pred, kept[i]);
        wakeups.lemma_filter_contains_rev(pred, kept[j]);
        let a = choose|a: int| 0 <= a < wakeups.len() && wakeups[a] == kept[i];
        let b = choose|b: int| 0 <= b < wakeups.len() && wakeups[b] == kept[j];
        assert(kept[i] != kept[j]);
        if a < b {
            <String as OrderedKey>::before_is_strict(wakeups[a].0, wakeups[b].0);
        } else {
            assert(a != b);
            <String as OrderedKey>::before_is_strict(wakeups[b].0, wakeups[a].0);
        }
    }
}

proof fn lemma_filter_keeps_distinct<T>(items: Seq<T>, pred: spec_fn(T) -> bool)
    requires
        items.no_duplicates(),
    ensures
        items.filter(pred).no_duplicates(),
    decreases items.len(),
{
    reveal(Seq::filter);
    if items.len() > 0 {
        let rest = items.drop_last();
        assert forall|i: int, j: int| 0 <= i < rest.len() && 0 <= j < rest.len() && i
            != j implies rest[i] != rest[j] by {
            assert(items[i] != items[j]);
        }
        lemma_filter_keeps_distinct(rest, pred);
        let kept = rest.filter(pred);
        assert forall|k: int| 0 <= k < kept.len() implies kept[k] != items.last() by {
            rest.lemma_filter_contains_rev(pred, kept[k]);
            let a = choose|a: int| 0 <= a < rest.len() && rest[a] == kept[k];
            assert(items[a] != items[items.len() - 1]);
        }
    }
}

/// Everything that `due_of` finds is of one of `automations`.
proof fn lemma_due_of_names(
    automations: Seq<(Seq<char>, ManagedAutomationModel)>,
    now: i64,
    k: int,
)
    requires
        0 <= k < due_of(automations, now).len(),
    ensures
        exists|i: int|
            0 <= i < automations.len() && (#[trigger] automations[i]).0 == due_of(
                automations,
                now,
            )[k].automation_id,
    decreases automations.len(),
{
    let rest = automations.drop_last();
    let earlier = due_of(rest, now);
    if k < earlier.len() {
        lemma_due_of_names(rest, now, k);
        let i = choose|i: int|
            0 <= i < rest.len() && (#[trigger] rest[i]).0 == earlier[k].automation_id;
        assert(automations[i] == rest[i]);
    } else {
        assert(automations[automations.len() - 1] == automations.last());
    }
}

proof fn lemma_due_of_is_once(automations: Seq<(Seq<char>, ManagedAutomationModel)>, now: i64)
    requires
        in_key_order::<String, ManagedAutomationModel>(automations),
        forall|i: int|
            0 <= i < automations.len() ==> in_key_order::<String, ScheduledWakeupModel>(
                (#[trigger] automations[i]).1.scheduled_wakeups,
            ),
        forall|i: int, j: int|
            0 <= i < automations.len() && 0 <= j < automations[i].1.scheduled_wakeups.len() ==> (
            #[trigger] automations[i].1.scheduled_wakeups[j]).1.wakeup_id
                == automations[i].1.scheduled_wakeups[j].0,
    ensures
        due_of(automations, now).no_duplicates(),
    decreases automations.len(),
{
    if automations.len() > 0 {
        let rest = automations.drop_last();
        let last = automations.last();
        let end = automations.len() - 1;
        assert forall|i: int, j: int| 0 <= i < rest.len() && 0 <= j
            < rest[i].1.scheduled_wakeups.len() implies (
        #[trigger] rest[i].1.scheduled_wakeups[j]).1.wakeup_id
            == rest[i].1.scheduled_wakeups[j].0 by {
            assert(automations[i].1.scheduled_wakeups[j] == rest[i].1.scheduled_wakeups[j]);
        }
        lemma_due_of_is_once(rest, now);
        assert(automations[end] == last);
        assert forall|j: int| 0 <= j < last.1.scheduled_wakeups.len() implies (
        #[trigger] last.1.scheduled_wakeups[j]).1.wakeup_id == last.1.scheduled_wakeups[j].0 by {
            assert(automations[end].1.scheduled_wakeups[j] == last.1.scheduled_wakeups[j]);
        }
        lemma_due_in_is_once(last.0, last.1, now);
        let a = due_of(rest, now);
        let b = due_in(last.0, last.1, now);
        assert forall|i: int, j: int| 0 <= i < a.len() && 0 <= j < b.len() implies a[i]
            != b[j] by {
            lemma_due_of_names(rest, now, i);
            let k = choose|k: int|
                0 <= k < rest.len() && (#[trigger] rest[k]).0 == a[i].automation_id;
            assert(automations[k] == rest[k]);
            <String as OrderedKey>::before_is_strict(automations[k].0, automations[end].0);
            assert(b[j].automation_id == last.0);
        }
    }
}

/// The wakeups that one reconciliation dispatches: exactly those that an active
/// automation has scheduled for a time that has come, each once, the earliest first.
pub proof fn reconciliation_dispatches_what_is_due(
    round: Reconciliation,
    state: ControlPlaneStateModel,
    item: DueWakeupModel,
)
    requires
        consistent(state),
        round.starts_from(state),
    ensures
        round.due.deep_view().contains(item) <==> {
            &&& item.at <= round.now
            &&& state.automation(item.automation_id) matches Some(automation)
            &&& automation.active_revision_id == Some(item.revision_id)
            &&& wakeup_in(automation, item.wakeup_id) matches Some(wakeup)
            &&& wakeup.at == item.at
        },
        round.due.deep_view().no_duplicates(),
        round.dispatched == 0,
        forall|i: int, j: int|
            0 <= i < j < round.due.deep_view().len() ==> (#[trigger] round.due.deep_view()[i]).at
                <= (#[trigger] round.due.deep_view()[j]).at,
{
    let due = round.due.deep_view();
    let found = due_of(state.automations, round.now);
    due.to_multiset_ensures();
    found.to_multiset_ensures();
    due_wakeups_are_those_scheduled(state, round.now, item);
    assert(due.contains(item) <==> due.to_multiset().count(item) > 0);
    assert(found.contains(item) <==> found.to_multiset().count(item) > 0);
    let automations = state.automations;
    assert forall|i: int| 0 <= i < automations.len() implies #[trigger] state.automation(
        automations[i].0,
    ) == Some(automations[i].1) by {
        lemma_slot_of_entry::<String, ManagedAutomationModel>(automations, i);
    }
    assert forall|i: int| 0 <= i < automations.len() implies in_key_order::<
        String,
        ScheduledWakeupModel,
    >((#[trigger] automations[i]).1.scheduled_wakeups) by {
        assert(state.automation(automations[i].0) == Some(automations[i].1));
    }
    assert forall|i: int, j: int| 0 <= i < automations.len() && 0 <= j
        < automations[i].1.scheduled_wakeups.len() implies (
    #[trigger] automations[i].1.scheduled_wakeups[j]).1.wakeup_id
        == automations[i].1.scheduled_wakeups[j].0 by {
        let automation = automations[i].1;
        assert(state.automation(automations[i].0) == Some(automation));
        lemma_slot_of_entry::<String, ScheduledWakeupModel>(automation.scheduled_wakeups, j);
        assert(wakeup_in(automation, automation.scheduled_wakeups[j].0) == Some(
            automation.scheduled_wakeups[j].1,
        ));
    }
    lemma_due_of_is_once(automations, round.now);
    found.lemma_multiset_has_no_duplicates();
    due.lemma_multiset_has_no_duplicates_conv();
    assert forall|i: int, j: int| 0 <= i < j < due.len() implies (#[trigger] due[i]).at <= (
    #[trigger] due[j]).at by {
        earliest_wakeup_is_dispatched_first(due, i, j);
    }
}

/// Due wakeups are found automation by automation and wakeup by wakeup: each one whose
/// time has come is found once, with its automation, its name, its time and the active
/// revision, and no other is found.
pub proof fn due_wakeups_are_found_one_by_one(
    automations: Seq<(Seq<char>, ManagedAutomationModel)>,
    automation_id: Seq<char>,
    automation: ManagedAutomationModel,
    name: Seq<char>,
    wakeup: ScheduledWakeupModel,
    now: i64,
)
    ensures
        due_of(Seq::empty(), now).len() == 0,
        due_of(automations.push((automation_id, automation)), now) == due_of(automations, now)
            + due_of(seq![(automation_id, automation)], now),
        automation.scheduled_wakeups.len() == 0 ==> due_of(
            seq![(automation_id, automation)],
            now,
        ).len() == 0,
        due_of(
            seq![
                (
                    automation_id,
                    ManagedAutomationModel {
                        scheduled_wakeups: automation.scheduled_wakeups.push((name, wakeup)),
                        ..automation
                    },
                ),
            ],
            now,
        ) == due_of(seq![(automation_id, automation)], now) + (if wakeup.at <= now {
            seq![
                DueWakeupModel {
                    automation_id,
                    revision_id: match automation.active_revision_id {
                        Some(revision_id) => revision_id,
                        None => 0,
                    },
                    wakeup_id: wakeup.wakeup_id,
                    at: wakeup.at,
                },
            ]
        } else {
            Seq::empty()
        }),
{
    reveal(Seq::filter);
    let none = Seq::<(Seq<char>, ManagedAutomationModel)>::empty();
    let one = seq![(automation_id, automation)];
    let wakeups = automation.scheduled_wakeups;
    let more = ManagedAutomationModel {
        scheduled_wakeups: wakeups.push((name, wakeup)),
        ..automation
    };
    let other = seq![(automation_id, more)];
    assert(automations.push((automation_id, automation)).drop_last() =~= automations);
    assert(one.drop_last() =~= none && other.drop_last() =~= none);
    assert(due_of(none, now) =~= Seq::empty());
    assert(due_of(one, now) =~= due_in(automation_id, automation, now));
    assert(due_of(other, now) =~= due_in(automation_id, more, now));
    assert(wakeups.push((name, wakeup)).drop_last() =~= wakeups);
    let found = due_in(automation_id, automation, now);
    let then = due_in(automation_id, more, now);
    assert(found + Seq::empty() =~= found);
    assert(then.len() == found.len() + if wakeup.at <= now {
        1int
    } else {
        0int
    });
    assert(then =~= due_of(one, now) + (if wakeup.at <= now {
        seq![
            DueWakeupModel {
                automation_id,
                revision_id: match automation.active_revision_id {
                    Some(revision_id) => revision_id,
                    None => 0,
                },
                wakeup_id: wakeup.wakeup_id,
                at: wakeup.at,
            },
        ]
    } else {
        Seq::empty()
    }));
}

}
