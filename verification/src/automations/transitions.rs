//! The transitions of the control-plane state.
//!
//! Each operation is a function from one state to the next. A refused
//! operation leaves the state as it was.

use crate::automations::domain::{
    capability_for_effect, capability_name, capability_of_kind, effect_kind_label, label_of_kind,
    name_of_capability, ActivationMode, ControlPlaneState, ControlPlaneStateModel,
    ManagedAutomation, ManagedAutomationModel, RegisteredRevision, RegisteredRevisionModel,
    RegistrationRequest, RegistrationRequestModel, RevisionId, ScheduledWakeup,
    ScheduledWakeupModel, TraceEvent, TraceEventModel, TraceRecord, TraceRecordModel,
};
use crate::automations::error::{AutomationsError, AutomationsErrorModel};
use crate::ordered_map::{lookup, with_entry, with_entry_is_read_back, without_entry};
use crate::protocol::{
    AdvanceRequest, AdvanceRequestModel, AdvanceResponse, AdvanceResponseModel, AutomationEvent,
    AutomationEventModel, EffectKind, EffectKindModel, EffectRequest, EffectRequestModel,
    RegistrationResponse, RegistrationResponseModel,
};
use vstd::prelude::*;

verus! {

/// The automation that `automations` keeps under `automation_id`.
pub open spec fn automation_in(
    automations: Seq<(Seq<char>, ManagedAutomationModel)>,
    automation_id: Seq<char>,
) -> Option<ManagedAutomationModel> {
    lookup::<String, ManagedAutomationModel>(automations, automation_id)
}

/// The revision that `automation` keeps under `revision_id`.
pub open spec fn revision_in(
    automation: ManagedAutomationModel,
    revision_id: RevisionId,
) -> Option<RegisteredRevisionModel> {
    lookup::<RevisionId, RegisteredRevisionModel>(automation.revisions, revision_id)
}

/// The wakeup that `automation` has scheduled under `wakeup_id`.
pub open spec fn wakeup_in(
    automation: ManagedAutomationModel,
    wakeup_id: Seq<char>,
) -> Option<ScheduledWakeupModel> {
    lookup::<String, ScheduledWakeupModel>(automation.scheduled_wakeups, wakeup_id)
}

impl ControlPlaneStateModel {
    /// The automation under `automation_id`.
    pub open spec fn automation(self, automation_id: Seq<char>) -> Option<ManagedAutomationModel> {
        automation_in(self.automations, automation_id)
    }

    /// This state with `automation` under `automation_id`.
    pub open spec fn with_automation(
        self,
        automation_id: Seq<char>,
        automation: ManagedAutomationModel,
    ) -> Self {
        ControlPlaneStateModel {
            automations: with_entry::<String, ManagedAutomationModel>(
                self.automations,
                automation_id,
                automation,
            ),
            ..self
        }
    }

    /// This state with `event` at the end of its trace.
    pub open spec fn traced(self, at: i64, event: TraceEventModel) -> Self {
        ControlPlaneStateModel {
            traces: self.traces.push(TraceRecordModel { at, event }),
            ..self
        }
    }

    /// This state with `events` at the end of its trace.
    pub open spec fn traced_all(self, at: i64, events: Seq<TraceEventModel>) -> Self {
        ControlPlaneStateModel {
            traces: self.traces + events.map_values(
                |event: TraceEventModel| TraceRecordModel { at, event },
            ),
            ..self
        }
    }
}

/// The revision that a registration makes under the number `revision_id`.
pub open spec fn revision_of(
    request: RegistrationRequestModel,
    artifact_sha256: Seq<char>,
    registration: RegistrationResponseModel,
    revision_id: RevisionId,
    now: i64,
) -> RegisteredRevisionModel {
    RegisteredRevisionModel {
        revision_id,
        artifact_path: request.artifact_path,
        artifact_sha256,
        registered_at: now,
        descriptor: registration.descriptor,
        config: request.config,
        initial_state: registration.initial_state,
    }
}

/// The state after a registration: a new revision, under the next number.
pub open spec fn registered(
    state: ControlPlaneStateModel,
    request: RegistrationRequestModel,
    artifact_sha256: Seq<char>,
    registration: RegistrationResponseModel,
    now: i64,
) -> ControlPlaneStateModel {
    let revision_id = (state.next_revision_id + 1) as u64;
    let automation = match state.automation(request.automation_id) {
        Some(automation) => automation,
        None => ManagedAutomationModel::fresh(request.automation_id),
    };
    let revision = revision_of(request, artifact_sha256, registration, revision_id, now);
    ControlPlaneStateModel {
        next_revision_id: revision_id,
        ..state.with_automation(
            request.automation_id,
            ManagedAutomationModel {
                revisions: with_entry::<RevisionId, RegisteredRevisionModel>(
                    automation.revisions,
                    revision_id,
                    revision,
                ),
                ..automation
            },
        ).traced(
            now,
            TraceEventModel::RevisionRegistered {
                automation_id: request.automation_id,
                revision_id,
                artifact_sha256,
            },
        )
    }
}

/// The revision that was activated last for an automation, as the trace tells.
pub open spec fn last_activated(
    traces: Seq<TraceRecordModel>,
    automation_id: Seq<char>,
) -> Option<RevisionId>
    decreases traces.len(),
{
    if traces.len() == 0 {
        None
    } else {
        match traces.last().event {
            TraceEventModel::RevisionActivated {
                automation_id: activated_id,
                revision_id,
                mode,
            } if activated_id == automation_id => Some(revision_id),
            _ => last_activated(traces.drop_last(), automation_id),
        }
    }
}

/// The revision whose state an automation keeps: the active one or, where none is
/// active, the one that was activated last.
pub open spec fn state_revision(
    state: ControlPlaneStateModel,
    automation_id: Seq<char>,
) -> Option<RevisionId> {
    match state.automation(automation_id) {
        Some(automation) => match automation.active_revision_id {
            Some(active) => Some(active),
            None => last_activated(state.traces, automation_id),
        },
        None => None,
    }
}

/// Whether an automation keeps state of another schema than that of `revision`.
pub open spec fn state_is_incompatible(
    state: ControlPlaneStateModel,
    automation_id: Seq<char>,
    revision: RegisteredRevisionModel,
) -> bool {
    &&& state.automation(automation_id) matches Some(automation)
    &&& automation.current_state is Some
    &&& state_revision(state, automation_id) matches Some(kept)
    &&& revision_in(automation, kept) matches Some(previous)
    &&& previous.descriptor.state_schema_version != revision.descriptor.state_schema_version
}

/// The state after the activation of `revision_id`, or why it is refused.
pub open spec fn activated(
    state: ControlPlaneStateModel,
    automation_id: Seq<char>,
    revision_id: RevisionId,
    mode: ActivationMode,
    now: i64,
) -> Result<ControlPlaneStateModel, AutomationsErrorModel> {
    match state.automation(automation_id) {
        None => Err(AutomationsErrorModel::AutomationNotFound(automation_id)),
        Some(automation) => match revision_in(automation, revision_id) {
            None => Err(AutomationsErrorModel::RevisionNotFound { automation_id, revision_id }),
            Some(revision) => if mode == ActivationMode::PreserveState && state_is_incompatible(
                state,
                automation_id,
                revision,
            ) {
                Err(AutomationsErrorModel::IncompatibleState { automation_id, revision_id })
            } else {
                Ok(
                    state.with_automation(
                        automation_id,
                        ManagedAutomationModel {
                            active_revision_id: Some(revision_id),
                            current_state: if mode == ActivationMode::ColdStart
                                || automation.current_state is None {
                                Some(revision.initial_state)
                            } else {
                                automation.current_state
                            },
                            scheduled_wakeups: Seq::empty(),
                            last_status: None,
                            ..automation
                        },
                    ).traced(
                        now,
                        TraceEventModel::RevisionActivated { automation_id, revision_id, mode },
                    ),
                )
            },
        },
    }
}

/// The state after a deactivation, or why it is refused.
pub open spec fn deactivated(
    state: ControlPlaneStateModel,
    automation_id: Seq<char>,
    now: i64,
) -> Result<ControlPlaneStateModel, AutomationsErrorModel> {
    match state.automation(automation_id) {
        None => Err(AutomationsErrorModel::AutomationNotFound(automation_id)),
        Some(automation) => match automation.active_revision_id {
            None => Err(AutomationsErrorModel::NoActiveRevision { automation_id }),
            Some(revision_id) => Ok(
                state.with_automation(
                    automation_id,
                    ManagedAutomationModel {
                        active_revision_id: None,
                        scheduled_wakeups: Seq::empty(),
                        last_status: Some("deactivated"@),
                        ..automation
                    },
                ).traced(
                    now,
                    TraceEventModel::AutomationDeactivated { automation_id, revision_id },
                ),
            ),
        },
    }
}

/// The state after a deletion, or why it is refused.
pub open spec fn deleted(
    state: ControlPlaneStateModel,
    automation_id: Seq<char>,
    now: i64,
) -> Result<ControlPlaneStateModel, AutomationsErrorModel> {
    if state.automation(automation_id) is None {
        Err(AutomationsErrorModel::AutomationNotFound(automation_id))
    } else {
        Ok(
            ControlPlaneStateModel {
                automations: without_entry::<String, ManagedAutomationModel>(
                    state.automations,
                    automation_id,
                ),
                ..state
            }.traced(now, TraceEventModel::AutomationDeleted { automation_id }),
        )
    }
}

/// The state after a due wakeup was taken off its schedule, or why it cannot be.
pub open spec fn dispatched(
    state: ControlPlaneStateModel,
    automation_id: Seq<char>,
    revision_id: RevisionId,
    wakeup_id: Seq<char>,
    at: i64,
    now: i64,
) -> Result<ControlPlaneStateModel, AutomationsErrorModel> {
    match state.automation(automation_id) {
        None => Err(AutomationsErrorModel::AutomationNotFound(automation_id)),
        Some(automation) => Ok(
            state.with_automation(
                automation_id,
                ManagedAutomationModel {
                    scheduled_wakeups: without_entry::<String, ScheduledWakeupModel>(
                        automation.scheduled_wakeups,
                        wakeup_id,
                    ),
                    ..automation
                },
            ).traced(
                now,
                TraceEventModel::WakeupDispatched { automation_id, revision_id, wakeup_id, at },
            ),
        ),
    }
}

/// What the guest of `automation_id` is asked for `event`, with the revision
/// that answers, or why nothing can be asked.
pub open spec fn advance_request_for(
    state: ControlPlaneStateModel,
    automation_id: Seq<char>,
    event: AutomationEventModel,
    now: i64,
) -> Result<(RegisteredRevisionModel, AdvanceRequestModel), AutomationsErrorModel> {
    match state.automation(automation_id) {
        None => Err(AutomationsErrorModel::AutomationNotFound(automation_id)),
        Some(automation) => match automation.active_revision_id {
            None => Err(AutomationsErrorModel::NoActiveRevision { automation_id }),
            Some(revision_id) => match revision_in(automation, revision_id) {
                None => Err(AutomationsErrorModel::RevisionNotFound { automation_id, revision_id }),
                Some(revision) => Ok(
                    (
                        revision,
                        AdvanceRequestModel {
                            automation_id,
                            revision_id,
                            now,
                            config: revision.config,
                            state: match automation.current_state {
                                Some(current) => current,
                                None => revision.initial_state,
                            },
                            event,
                        },
                    ),
                ),
            },
        },
    }
}

/// Whether the control plane settles effects of this kind by itself.
pub open spec fn is_scheduling(kind: EffectKindModel) -> bool {
    kind is ScheduleWakeup || kind is CancelWakeup
}

/// The wakeups after `effects`, in their order: one scheduled under a name
/// replaces what the name had, one cancelled is gone.
pub open spec fn wakeups_after(
    wakeups: Seq<(Seq<char>, ScheduledWakeupModel)>,
    effects: Seq<EffectRequestModel>,
) -> Seq<(Seq<char>, ScheduledWakeupModel)>
    decreases effects.len(),
{
    if effects.len() == 0 {
        wakeups
    } else {
        let before = wakeups_after(wakeups, effects.drop_last());
        match effects.last().kind {
            EffectKindModel::ScheduleWakeup { wakeup_id, at } => with_entry::<
                String,
                ScheduledWakeupModel,
            >(before, wakeup_id, ScheduledWakeupModel { wakeup_id, at }),
            EffectKindModel::CancelWakeup { wakeup_id } => without_entry::<
                String,
                ScheduledWakeupModel,
            >(before, wakeup_id),
            _ => before,
        }
    }
}

/// What the trace holds of one effect that a guest asked for.
pub open spec fn trace_of_effect(
    automation_id: Seq<char>,
    revision_id: RevisionId,
    effect: EffectRequestModel,
) -> TraceEventModel {
    match effect.kind {
        EffectKindModel::ScheduleWakeup { wakeup_id, at } => TraceEventModel::WakeupScheduled {
            automation_id,
            revision_id,
            wakeup_id,
            at,
        },
        EffectKindModel::CancelWakeup { wakeup_id } => TraceEventModel::WakeupCancelled {
            automation_id,
            revision_id,
            wakeup_id,
        },
        _ => TraceEventModel::EffectRequested {
            automation_id,
            revision_id,
            effect_id: effect.effect_id,
            effect_kind: label_of_kind(effect.kind),
        },
    }
}

/// What the trace holds of one answer of a guest.
pub open spec fn traces_of_response(
    automation_id: Seq<char>,
    revision_id: RevisionId,
    event: AutomationEventModel,
    response: AdvanceResponseModel,
) -> Seq<TraceEventModel> {
    seq![
        TraceEventModel::EventSubmitted { automation_id, revision_id, event },
        TraceEventModel::StateAdvanced { automation_id, revision_id, response },
    ] + response.effects.map_values(
        |effect: EffectRequestModel| trace_of_effect(automation_id, revision_id, effect),
    )
}

/// The effects that a host must handle, in the order in which they were asked.
pub open spec fn host_effects(effects: Seq<EffectRequestModel>) -> Seq<EffectRequestModel> {
    effects.filter(|effect: EffectRequestModel| !is_scheduling(effect.kind))
}

/// The state after the answer of a guest was taken over, or why it is not.
pub open spec fn persisted(
    state: ControlPlaneStateModel,
    automation_id: Seq<char>,
    revision_id: RevisionId,
    event: AutomationEventModel,
    now: i64,
    response: AdvanceResponseModel,
) -> Result<ControlPlaneStateModel, AutomationsErrorModel> {
    match state.automation(automation_id) {
        None => Err(AutomationsErrorModel::AutomationNotFound(automation_id)),
        Some(automation) => if automation.active_revision_id != Some(revision_id) {
            Err(AutomationsErrorModel::RevisionNotFound { automation_id, revision_id })
        } else {
            Ok(
                state.with_automation(
                    automation_id,
                    ManagedAutomationModel {
                        current_state: Some(response.state),
                        last_status: response.status,
                        scheduled_wakeups: wakeups_after(
                            automation.scheduled_wakeups,
                            response.effects,
                        ),
                        ..automation
                    },
                ).traced_all(
                    now,
                    traces_of_response(automation_id, revision_id, event, response),
                ),
            )
        },
    }
}

/// Why an effect of this kind may not be handled for the automation, if it may not.
pub open spec fn capability_refusal(
    state: ControlPlaneStateModel,
    automation_id: Seq<char>,
    revision_id: RevisionId,
    kind: EffectKindModel,
) -> Option<AutomationsErrorModel> {
    match state.automation(automation_id) {
        None => Some(AutomationsErrorModel::AutomationNotFound(automation_id)),
        Some(automation) => match revision_in(automation, revision_id) {
            None => Some(AutomationsErrorModel::RevisionNotFound { automation_id, revision_id }),
            Some(revision) => if revision.descriptor.capabilities.contains(
                capability_of_kind(kind),
            ) {
                None
            } else {
                Some(
                    AutomationsErrorModel::MissingCapability {
                        automation_id,
                        capability: name_of_capability(capability_of_kind(kind)),
                    },
                )
            },
        },
    }
}

/// The state after an effect was handled.
pub open spec fn effect_recorded(
    state: ControlPlaneStateModel,
    automation_id: Seq<char>,
    revision_id: RevisionId,
    effect_id: Seq<char>,
    follow_up_events: usize,
    now: i64,
) -> ControlPlaneStateModel {
    state.traced(
        now,
        TraceEventModel::EffectHandled { automation_id, revision_id, effect_id, follow_up_events },
    )
}

/// Whether `revision` stands under its number among those of an automation.
pub open spec fn lists_revision(
    state: ControlPlaneStateModel,
    automation_id: Seq<char>,
    revision: RegisteredRevisionModel,
) -> bool {
    &&& state.automation(automation_id) matches Some(automation)
    &&& revision_in(automation, revision.revision_id) == Some(revision)
}

/// What a transition with the model `outcome` did to a state and returned.
pub open spec fn took<T>(
    before: ControlPlaneStateModel,
    after: ControlPlaneStateModel,
    result: Result<T, AutomationsError>,
    outcome: Result<ControlPlaneStateModel, AutomationsErrorModel>,
) -> bool {
    match outcome {
        Ok(next) => result is Ok && after == next,
        Err(error) => result is Err && result->Err_0.deep_view() == error && after == before,
    }
}

impl ControlPlaneState {
    fn push_trace(&mut self, at: i64, event: TraceEvent)
        ensures
            final(self).deep_view() == old(self).deep_view().traced(at, event.deep_view()),
    {
        let ghost record = TraceRecordModel { at, event: event.deep_view() };
        self.traces.push(TraceRecord { at, event });
        assert(self.traces.deep_view() =~= old(self).traces.deep_view().push(record));
    }

    /// Register a guest artifact as a new revision of its automation, which is
    /// made when it is not there. Nothing is activated.
    pub fn register_revision(
        &mut self,
        request: &RegistrationRequest,
        artifact_sha256: &String,
        registration: &RegistrationResponse,
        now: i64,
    ) -> (revision: RegisteredRevision)
        requires
            old(self).next_revision_id < u64::MAX,
        ensures
            final(self).deep_view() == registered(
                old(self).deep_view(),
                request.deep_view(),
                artifact_sha256@,
                registration.deep_view(),
                now,
            ),
            revision.deep_view() == revision_of(
                request.deep_view(),
                artifact_sha256@,
                registration.deep_view(),
                (old(self).next_revision_id + 1) as u64,
                now,
            ),
            lists_revision(
                final(self).deep_view(),
                request.deep_view().automation_id,
                revision.deep_view(),
            ),
    {
        self.automations.keeps_order();
        let revision_id = self.allocate_revision_id();
        let mut automation = match self.automations.get(&request.automation_id) {
            Some(automation) => automation.clone(),
            None => ManagedAutomation::new(request.automation_id.clone()),
        };
        let revision = RegisteredRevision {
            revision_id,
            artifact_path: request.artifact_path.clone(),
            artifact_sha256: artifact_sha256.clone(),
            registered_at: now,
            descriptor: registration.descriptor.clone(),
            config: request.config.clone(),
            initial_state: registration.initial_state.clone(),
        };
        automation.revisions.keeps_order();
        proof {
            with_entry_is_read_back::<RevisionId, RegisteredRevisionModel>(
                automation.revisions.deep_view(),
                revision_id,
                revision.deep_view(),
            );
        }
        automation.revisions.insert(revision_id, revision.clone());
        proof {
            with_entry_is_read_back::<String, ManagedAutomationModel>(
                self.automations.deep_view(),
                request.automation_id@,
                automation.deep_view(),
            );
        }
        self.automations.insert(request.automation_id.clone(), automation);
        self.push_trace(
            now,
            TraceEvent::RevisionRegistered {
                automation_id: request.automation_id.clone(),
                revision_id,
                artifact_sha256: artifact_sha256.clone(),
            },
        );
        revision
    }

    /// The revision that was activated last for an automation, as the trace tells.
    pub fn last_activated_revision(&self, automation_id: &String) -> (revision_id: Option<
        RevisionId,
    >)
        ensures
            revision_id == last_activated(self.deep_view().traces, automation_id@),
    {
        let ghost traces = self.deep_view().traces;
        let mut i: usize = self.traces.len();
        assert(traces.take(i as int) =~= traces);
        while i > 0
            invariant
                i <= self.traces.len(),
                traces == self.traces.deep_view(),
                last_activated(traces, automation_id@) == last_activated(
                    traces.take(i as int),
                    automation_id@,
                ),
            decreases i,
        {
            let record = &self.traces[i - 1];
            assert(traces.take(i as int).last() == record.deep_view());
            assert(traces.take(i as int).drop_last() =~= traces.take(i - 1));
            if let TraceEvent::RevisionActivated {
                automation_id: activated_id,
                revision_id,
                mode: _,
            } = &record.event {
                if *activated_id == *automation_id {
                    return Some(*revision_id);
                }
            }
            i -= 1;
        }
        None
    }

    /// Make `revision_id` the active revision of its automation.
    pub fn activate(
        &mut self,
        automation_id: &String,
        revision_id: RevisionId,
        mode: ActivationMode,
        now: i64,
    ) -> (result: Result<(), AutomationsError>)
        ensures
            took(
                old(self).deep_view(),
                final(self).deep_view(),
                result,
                activated(old(self).deep_view(), automation_id@, revision_id, mode, now),
            ),
    {
        let mut automation = match self.automations.get(automation_id) {
            Some(automation) => automation.clone(),
            None => {
                return Err(AutomationsError::AutomationNotFound(automation_id.clone()));
            },
        };
        let initial_state = match automation.revisions.get(&revision_id) {
            Some(revision) => {
                if mode == ActivationMode::PreserveState {
                    let kept = match automation.active_revision_id {
                        Some(active) => Some(active),
                        None => self.last_activated_revision(automation_id),
                    };
                    if let Some(kept) = kept {
                        if let Some(previous) = automation.revisions.get(&kept) {
                            if automation.current_state.is_some()
                                && previous.descriptor.state_schema_version
                                != revision.descriptor.state_schema_version {
                                return Err(
                                    AutomationsError::IncompatibleState {
                                        automation_id: automation_id.clone(),
                                        revision_id,
                                    },
                                );
                            }
                        }
                    }
                }
                revision.initial_state.clone()
            },
            None => {
                return Err(
                    AutomationsError::RevisionNotFound {
                        automation_id: automation_id.clone(),
                        revision_id,
                    },
                );
            },
        };
        automation.active_revision_id = Some(revision_id);
        if mode == ActivationMode::ColdStart || automation.current_state.is_none() {
            automation.current_state = Some(initial_state);
        }
        automation.scheduled_wakeups.clear();
        automation.last_status = None;
        self.automations.insert(automation_id.clone(), automation);
        self.push_trace(
            now,
            TraceEvent::RevisionActivated {
                automation_id: automation_id.clone(),
                revision_id,
                mode,
            },
        );
        Ok(())
    }

    /// Leave the automation without an active revision. Its revisions and its
    /// current state stay.
    pub fn deactivate(&mut self, automation_id: &String, now: i64) -> (result: Result<
        (),
        AutomationsError,
    >)
        ensures
            took(
                old(self).deep_view(),
                final(self).deep_view(),
                result,
                deactivated(old(self).deep_view(), automation_id@, now),
            ),
    {
        let mut automation = match self.automations.get(automation_id) {
            Some(automation) => automation.clone(),
            None => {
                return Err(AutomationsError::AutomationNotFound(automation_id.clone()));
            },
        };
        let revision_id = match automation.active_revision_id {
            Some(revision_id) => revision_id,
            None => {
                return Err(
                    AutomationsError::NoActiveRevision { automation_id: automation_id.clone() },
                );
            },
        };
        automation.active_revision_id = None;
        automation.scheduled_wakeups.clear();
        automation.last_status = Some("deactivated".to_string());
        self.automations.insert(automation_id.clone(), automation);
        self.push_trace(
            now,
            TraceEvent::AutomationDeactivated { automation_id: automation_id.clone(), revision_id },
        );
        Ok(())
    }

    /// Forget the automation with all that it holds. The trace stays.
    pub fn delete(&mut self, automation_id: &String, now: i64) -> (result: Result<
        (),
        AutomationsError,
    >)
        ensures
            took(
                old(self).deep_view(),
                final(self).deep_view(),
                result,
                deleted(old(self).deep_view(), automation_id@, now),
            ),
    {
        if !self.automations.contains_key(automation_id) {
            return Err(AutomationsError::AutomationNotFound(automation_id.clone()));
        }
        self.automations.remove(automation_id);
        self.push_trace(
            now,
            TraceEvent::AutomationDeleted { automation_id: automation_id.clone() },
        );
        Ok(())
    }

    /// Take a due wakeup off its schedule.
    pub fn dispatch_wakeup(
        &mut self,
        automation_id: &String,
        revision_id: RevisionId,
        wakeup_id: &String,
        at: i64,
        now: i64,
    ) -> (result: Result<(), AutomationsError>)
        ensures
            took(
                old(self).deep_view(),
                final(self).deep_view(),
                result,
                dispatched(
                    old(self).deep_view(),
                    automation_id@,
                    revision_id,
                    wakeup_id@,
                    at,
                    now,
                ),
            ),
    {
        let mut automation = match self.automations.get(automation_id) {
            Some(automation) => automation.clone(),
            None => {
                return Err(AutomationsError::AutomationNotFound(automation_id.clone()));
            },
        };
        automation.scheduled_wakeups.remove(wakeup_id);
        self.automations.insert(automation_id.clone(), automation);
        self.push_trace(
            now,
            TraceEvent::WakeupDispatched {
                automation_id: automation_id.clone(),
                revision_id,
                wakeup_id: wakeup_id.clone(),
                at,
            },
        );
        Ok(())
    }

    /// What the guest of the automation is asked for `event`.
    pub fn advance_request(
        &self,
        automation_id: &String,
        event: &AutomationEvent,
        now: i64,
    ) -> (result: Result<(RegisteredRevision, AdvanceRequest), AutomationsError>)
        ensures
            match advance_request_for(self.deep_view(), automation_id@, event.deep_view(), now) {
                Ok(asked) => result is Ok && result->Ok_0.0.deep_view() == asked.0
                    && result->Ok_0.1.deep_view() == asked.1,
                Err(error) => result is Err && result->Err_0.deep_view() == error,
            },
    {
        let automation = match self.automations.get(automation_id) {
            Some(automation) => automation,
            None => {
                return Err(AutomationsError::AutomationNotFound(automation_id.clone()));
            },
        };
        let revision_id = match automation.active_revision_id {
            Some(revision_id) => revision_id,
            None => {
                return Err(
                    AutomationsError::NoActiveRevision { automation_id: automation_id.clone() },
                );
            },
        };
        let revision = match automation.revisions.get(&revision_id) {
            Some(revision) => revision.clone(),
            None => {
                return Err(
                    AutomationsError::RevisionNotFound {
                        automation_id: automation_id.clone(),
                        revision_id,
                    },
                );
            },
        };
        let current_state = match &automation.current_state {
            Some(current) => current.clone(),
            None => revision.initial_state.clone(),
        };
        let request = AdvanceRequest {
            automation_id: automation_id.clone(),
            revision_id,
            now,
            config: revision.config.clone(),
            state: current_state,
            event: event.clone(),
        };
        Ok((revision, request))
    }

    /// Take over the answer of a guest. Wakeups are scheduled and cancelled
    /// here; the other effects are returned for the host.
    pub fn persist_response(
        &mut self,
        automation_id: &String,
        revision_id: RevisionId,
        event: &AutomationEvent,
        now: i64,
        response: &AdvanceResponse,
    ) -> (result: Result<Vec<EffectRequest>, AutomationsError>)
        ensures
            took(
                old(self).deep_view(),
                final(self).deep_view(),
                result,
                persisted(
                    old(self).deep_view(),
                    automation_id@,
                    revision_id,
                    event.deep_view(),
                    now,
                    response.deep_view(),
                ),
            ),
            result is Ok ==> result->Ok_0.deep_view() == host_effects(response.deep_view().effects),
    {
        let mut automation = match self.automations.get(automation_id) {
            Some(automation) => automation.clone(),
            None => {
                return Err(AutomationsError::AutomationNotFound(automation_id.clone()));
            },
        };
        if automation.active_revision_id != Some(revision_id) {
            return Err(
                AutomationsError::RevisionNotFound {
                    automation_id: automation_id.clone(),
                    revision_id,
                },
            );
        }
        let ghost model = response.deep_view();
        let ghost wakeups = automation.scheduled_wakeups.deep_view();
        let ghost all_traces = traces_of_response(
            automation_id@,
            revision_id,
            event.deep_view(),
            model,
        );
        let ghost unscheduled = |effect: EffectRequestModel| !is_scheduling(effect.kind);
        let mut external_effects: Vec<EffectRequest> = Vec::new();
        let mut trace_events: Vec<TraceEvent> = Vec::new();
        trace_events.push(
            TraceEvent::EventSubmitted {
                automation_id: automation_id.clone(),
                revision_id,
                event: event.clone(),
            },
        );
        trace_events.push(
            TraceEvent::StateAdvanced {
                automation_id: automation_id.clone(),
                revision_id,
                response: response.clone(),
            },
        );
        automation.current_state = Some(response.state.clone());
        automation.last_status = response.status.clone();
        let ghost kept = automation.deep_view();
        assert(trace_events.deep_view() =~= all_traces.take(2));
        assert(external_effects.deep_view() =~= model.effects.take(0).filter(unscheduled));
        let mut i: usize = 0;
        while i < response.effects.len()
            invariant
                i <= response.effects.len(),
                model == response.deep_view(),
                kept == (ManagedAutomationModel {
                    scheduled_wakeups: kept.scheduled_wakeups,
                    ..automation.deep_view()
                }),
                automation.scheduled_wakeups.deep_view() == wakeups_after(
                    wakeups,
                    model.effects.take(i as int),
                ),
                all_traces == traces_of_response(
                    automation_id@,
                    revision_id,
                    event.deep_view(),
                    model,
                ),
                trace_events.deep_view() == all_traces.take(i + 2),
                unscheduled == (|effect: EffectRequestModel| !is_scheduling(effect.kind)),
                external_effects.deep_view() == model.effects.take(i as int).filter(unscheduled),
            decreases response.effects.len() - i,
        {
            let effect = &response.effects[i];
            let ghost asked = effect.deep_view();
            let ghost taken = trace_events.deep_view();
            let ghost handed = external_effects.deep_view();
            proof {
                assert(model.effects[i as int] == asked);
                assert(model.effects.take(i + 1).drop_last() =~= model.effects.take(i as int));
                assert(model.effects.take(i + 1).last() == asked);
                reveal(Seq::filter);
            }
            match &effect.kind {
                EffectKind::ScheduleWakeup { wakeup_id, at } => {
                    automation.scheduled_wakeups.insert(
                        wakeup_id.clone(),
                        ScheduledWakeup { wakeup_id: wakeup_id.clone(), at: *at },
                    );
                    trace_events.push(
                        TraceEvent::WakeupScheduled {
                            automation_id: automation_id.clone(),
                            revision_id,
                            wakeup_id: wakeup_id.clone(),
                            at: *at,
                        },
                    );
                },
                EffectKind::CancelWakeup { wakeup_id } => {
                    automation.scheduled_wakeups.remove(wakeup_id);
                    trace_events.push(
                        TraceEvent::WakeupCancelled {
                            automation_id: automation_id.clone(),
                            revision_id,
                            wakeup_id: wakeup_id.clone(),
                        },
                    );
                },
                other => {
                    external_effects.push(effect.clone());
                    trace_events.push(
                        TraceEvent::EffectRequested {
                            automation_id: automation_id.clone(),
                            revision_id,
                            effect_id: effect.effect_id.clone(),
                            effect_kind: effect_kind_label(other).to_string(),
                        },
                    );
                    assert(external_effects.deep_view() =~= handed.push(asked));
                },
            }
            assert(trace_events.deep_view() =~= taken.push(
                trace_of_effect(automation_id@, revision_id, asked),
            ));
            assert(all_traces[i + 2] == trace_of_effect(automation_id@, revision_id, asked));
            assert(all_traces.take(i + 3) =~= all_traces.take(i + 2).push(all_traces[i + 2]));
            i += 1;
        }
        assert(model.effects.take(i as int) =~= model.effects);
        assert(all_traces.take(i + 2) =~= all_traces);
        self.automations.insert(automation_id.clone(), automation);
        self.push_traces(now, trace_events);
        Ok(external_effects)
    }

    fn push_traces(&mut self, at: i64, events: Vec<TraceEvent>)
        ensures
            final(self).deep_view() == old(self).deep_view().traced_all(at, events.deep_view()),
    {
        let ghost records = events.deep_view().map_values(
            |event: TraceEventModel| TraceRecordModel { at, event },
        );
        let ghost before = self.traces.deep_view();
        let mut i: usize = 0;
        assert(before + records.take(0) =~= before);
        while i < events.len()
            invariant
                i <= events.len(),
                records == events.deep_view().map_values(
                    |event: TraceEventModel| TraceRecordModel { at, event },
                ),
                before == old(self).traces.deep_view(),
                self.deep_view() == (ControlPlaneStateModel {
                    traces: before + records.take(i as int),
                    ..old(self).deep_view()
                }),
            decreases events.len() - i,
        {
            self.push_trace(at, events[i].clone());
            assert(before + records.take(i + 1) =~= (before + records.take(i as int)).push(
                records[i as int],
            ));
            i += 1;
        }
        assert(records.take(i as int) =~= records);
    }

    /// Whether the revision may have an effect of this kind handled.
    pub fn ensure_capability(
        &self,
        automation_id: &String,
        revision_id: RevisionId,
        kind: &EffectKind,
    ) -> (result: Result<(), AutomationsError>)
        ensures
            match capability_refusal(self.deep_view(), automation_id@, revision_id, kind.deep_view()) {
                None => result is Ok,
                Some(error) => result is Err && result->Err_0.deep_view() == error,
            },
    {
        let automation = match self.automations.get(automation_id) {
            Some(automation) => automation,
            None => {
                return Err(AutomationsError::AutomationNotFound(automation_id.clone()));
            },
        };
        let revision = match automation.revisions.get(&revision_id) {
            Some(revision) => revision,
            None => {
                return Err(
                    AutomationsError::RevisionNotFound {
                        automation_id: automation_id.clone(),
                        revision_id,
                    },
                );
            },
        };
        let required = capability_for_effect(kind);
        let capabilities = &revision.descriptor.capabilities;
        let ghost declared = revision.deep_view().descriptor.capabilities;
        let mut i: usize = 0;
        while i < capabilities.len()
            invariant
                i <= capabilities.len(),
                declared == capabilities.deep_view(),
                required == capability_of_kind(kind.deep_view()),
                revision_in(automation.deep_view(), revision_id) == Some(revision.deep_view()),
                self.deep_view().automation(automation_id@) == Some(automation.deep_view()),
                declared == revision.deep_view().descriptor.capabilities,
                forall|j: int| 0 <= j < i ==> declared[j] != required,
            decreases capabilities.len() - i,
        {
            assert(declared[i as int] == capabilities@[i as int]);
            if capabilities[i] == required {
                return Ok(());
            }
            i += 1;
        }
        Err(
            AutomationsError::MissingCapability {
                automation_id: automation_id.clone(),
                capability: capability_name(required).to_string(),
            },
        )
    }

    /// Trace that an effect was handled.
    pub fn record_effect(
        &mut self,
        automation_id: &String,
        revision_id: RevisionId,
        effect_id: &String,
        follow_up_events: usize,
        now: i64,
    )
        ensures
            final(self).deep_view() == effect_recorded(
                old(self).deep_view(),
                automation_id@,
                revision_id,
                effect_id@,
                follow_up_events,
                now,
            ),
    {
        self.push_trace(
            now,
            TraceEvent::EffectHandled {
                automation_id: automation_id.clone(),
                revision_id,
                effect_id: effect_id.clone(),
                follow_up_events,
            },
        );
    }
}

}
