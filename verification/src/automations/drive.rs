//! Driving an automation through one submitted event and all that follows.
//!
//! A drive holds the events that wait for the guest and the effects that wait
//! for the host. It says what is to be done next and takes in what came of it.

use crate::automations::domain::{
    capability_of_kind, ControlPlaneState, ControlPlaneStateModel, EffectHandlerOutcome,
    EffectHandlerOutcomeModel, EffectObservation, EffectObservationModel, EventSubmission,
    EventSubmissionModel, RevisionId,
};
use crate::automations::error::{AutomationsError, AutomationsErrorModel};
use crate::automations::transitions::{
    advance_request_for, capability_refusal, effect_recorded, host_effects, is_scheduling,
    persisted, revision_in, took,
};
use crate::model::FaithfulClone;
use crate::protocol::{
    AdvanceRequest, AdvanceRequestModel, AdvanceResponse, AdvanceResponseModel, AutomationEvent,
    AutomationEventModel, EffectRequest, EffectRequestModel, EventDisposition,
};
use vstd::prelude::*;

verus! {

/// What is to be done next.
#[derive(Debug, PartialEq)]
pub enum DriveAction {
    /// Ask the guest in `artifact_path` for `request`.
    AdvanceGuest {
        artifact_path: String,
        request: AdvanceRequest,
    },
    /// Have the host handle `effect`.
    HandleEffect {
        revision_id: RevisionId,
        effect: EffectRequest,
    },
    /// Nothing is left to do.
    Finished(EventSubmission),
}

/// What a [`DriveAction`] holds.
#[verifier::ext_equal]
pub enum DriveActionModel {
    AdvanceGuest {
        artifact_path: Seq<char>,
        request: AdvanceRequestModel,
    },
    HandleEffect {
        revision_id: RevisionId,
        effect: EffectRequestModel,
    },
    Finished(EventSubmissionModel),
}

impl DeepView for DriveAction {
    type V = DriveActionModel;

    open spec fn deep_view(&self) -> DriveActionModel {
        match self {
            DriveAction::AdvanceGuest { artifact_path, request } => DriveActionModel::AdvanceGuest {
                artifact_path: artifact_path.deep_view(),
                request: request.deep_view(),
            },
            DriveAction::HandleEffect { revision_id, effect } => DriveActionModel::HandleEffect {
                revision_id: *revision_id,
                effect: effect.deep_view(),
            },
            DriveAction::Finished(value) => DriveActionModel::Finished(value.deep_view()),
        }
    }
}

impl Clone for DriveAction {
    fn clone(&self) -> (copy: Self)
        ensures
            copy.deep_view() == self.deep_view(),
    {
        match self {
            DriveAction::AdvanceGuest { artifact_path, request } => DriveAction::AdvanceGuest {
                artifact_path: artifact_path.clone(),
                request: request.clone(),
            },
            DriveAction::HandleEffect { revision_id, effect } => DriveAction::HandleEffect {
                revision_id: *revision_id,
                effect: effect.clone(),
            },
            DriveAction::Finished(value) => DriveAction::Finished(value.clone()),
        }
    }
}

impl FaithfulClone for DriveAction {
    proof fn clone_keeps_model(original: Self, copy: Self) {
    }
}

/// An event on its way through an automation.
#[derive(Debug, PartialEq)]
pub struct EventDrive {
    pub automation_id: String,
    pub now: i64,
    /// Events that the guest has not answered yet, the next one first.
    pub pending: Vec<AutomationEvent>,
    /// The revision that asked for `effects`.
    pub revision_id: RevisionId,
    /// Effects that the host has not handled yet, the next one first.
    pub effects: Vec<EffectRequest>,
    /// What the guest made of the submitted event.
    pub disposition: Option<EventDisposition>,
    pub observations: Vec<EffectObservation>,
}

/// What a [`EventDrive`] holds.
#[verifier::ext_equal]
pub struct EventDriveModel {
    pub automation_id: Seq<char>,
    pub now: i64,
    pub pending: Seq<AutomationEventModel>,
    pub revision_id: RevisionId,
    pub effects: Seq<EffectRequestModel>,
    pub disposition: Option<EventDisposition>,
    pub observations: Seq<EffectObservationModel>,
}

impl DeepView for EventDrive {
    type V = EventDriveModel;

    open spec fn deep_view(&self) -> EventDriveModel {
        EventDriveModel {
            automation_id: self.automation_id.deep_view(),
            now: self.now,
            pending: self.pending.deep_view(),
            revision_id: self.revision_id,
            effects: self.effects.deep_view(),
            disposition: self.disposition,
            observations: self.observations.deep_view(),
        }
    }
}

impl Clone for EventDrive {
    fn clone(&self) -> (copy: Self)
        ensures
            copy.deep_view() == self.deep_view(),
    {
        let copy = EventDrive {
            automation_id: self.automation_id.clone(),
            now: self.now,
            pending: self.pending.clone(),
            revision_id: self.revision_id,
            effects: self.effects.clone(),
            disposition: self.disposition,
            observations: self.observations.clone(),
        };
        assert(copy.pending.deep_view() =~= self.pending.deep_view());
        assert(copy.effects.deep_view() =~= self.effects.deep_view());
        assert(copy.observations.deep_view() =~= self.observations.deep_view());
        copy
    }
}

impl FaithfulClone for EventDrive {
    proof fn clone_keeps_model(original: Self, copy: Self) {
    }
}

impl EventDriveModel {
    /// The drive of `event`, before the guest has seen it.
    pub open spec fn started(
        automation_id: Seq<char>,
        event: AutomationEventModel,
        now: i64,
    ) -> Self {
        EventDriveModel {
            automation_id,
            now,
            pending: seq![event],
            revision_id: 0,
            effects: Seq::empty(),
            disposition: None,
            observations: Seq::empty(),
        }
    }

    /// What is to be done next, or why the drive cannot go on: the host handles
    /// what the guest asked for before the guest sees the next event.
    pub open spec fn action(self, state: ControlPlaneStateModel) -> Result<
        DriveActionModel,
        AutomationsErrorModel,
    > {
        if self.effects.len() > 0 {
            match capability_refusal(
                state,
                self.automation_id,
                self.revision_id,
                self.effects[0].kind,
            ) {
                Some(error) => Err(error),
                None => Ok(
                    DriveActionModel::HandleEffect {
                        revision_id: self.revision_id,
                        effect: self.effects[0],
                    },
                ),
            }
        } else if self.pending.len() > 0 {
            match advance_request_for(state, self.automation_id, self.pending[0], self.now) {
                Err(error) => Err(error),
                Ok(asked) => Ok(
                    DriveActionModel::AdvanceGuest {
                        artifact_path: asked.0.artifact_path,
                        request: asked.1,
                    },
                ),
            }
        } else {
            Ok(
                DriveActionModel::Finished(
                    EventSubmissionModel {
                        disposition: match self.disposition {
                            Some(disposition) => disposition,
                            None => EventDisposition::Handled,
                        },
                        observations: self.observations,
                    },
                ),
            )
        }
    }

    /// The drive after the guest answered the next event with `response`.
    pub open spec fn answered(self, revision_id: RevisionId, response: AdvanceResponseModel) -> Self {
        EventDriveModel {
            pending: self.pending.drop_first(),
            revision_id,
            effects: host_effects(response.effects),
            disposition: match self.disposition {
                Some(disposition) => Some(disposition),
                None => Some(response.disposition),
            },
            ..self
        }
    }

    /// The drive after the host handled the next effect.
    pub open spec fn handled(self, outcome: EffectHandlerOutcomeModel) -> Self {
        EventDriveModel {
            pending: self.pending + outcome.follow_up_events,
            effects: self.effects.drop_first(),
            observations: self.observations + outcome.observations,
            ..self
        }
    }

    /// Whether every effect that waits is one for the host.
    pub open spec fn waits_for_host(self) -> bool {
        forall|i: int|
            0 <= i < self.effects.len() ==> !is_scheduling((#[trigger] self.effects[i]).kind)
    }
}

/// A drive starts with nothing for the host.
pub proof fn started_drive_waits_for_host(
    automation_id: Seq<char>,
    event: AutomationEventModel,
    now: i64,
)
    ensures
        EventDriveModel::started(automation_id, event, now).waits_for_host(),
{
}

/// An answer hands the host no effect that schedules or cancels a wakeup.
pub proof fn answered_drive_waits_for_host(
    drive: EventDriveModel,
    revision_id: RevisionId,
    response: AdvanceResponseModel,
)
    ensures
        drive.answered(revision_id, response).waits_for_host(),
{
    let unscheduled = |effect: EffectRequestModel| !is_scheduling(effect.kind);
    let kept = host_effects(response.effects);
    assert forall|i: int| 0 <= i < kept.len() implies !is_scheduling(
        (#[trigger] kept[i]).kind,
    ) by {
        response.effects.lemma_filter_pred(unscheduled, i);
    }
}

/// Handling an effect brings the host no effect that schedules or cancels a wakeup.
pub proof fn handled_drive_waits_for_host(
    drive: EventDriveModel,
    outcome: EffectHandlerOutcomeModel,
)
    requires
        drive.waits_for_host(),
        drive.effects.len() > 0,
    ensures
        drive.handled(outcome).waits_for_host(),
{
    assert forall|i: int| 0 <= i < drive.handled(outcome).effects.len() implies !is_scheduling(
        (#[trigger] drive.handled(outcome).effects[i]).kind,
    ) by {
        assert(drive.handled(outcome).effects[i] == drive.effects[i + 1]);
    }
}

/// The host is asked only for effects whose capability the revision declares,
/// and never for one that schedules or cancels a wakeup.
pub proof fn host_is_asked_for_declared_effects(
    drive: EventDriveModel,
    state: ControlPlaneStateModel,
)
    requires
        drive.waits_for_host(),
    ensures
        drive.action(state) matches Ok(DriveActionModel::HandleEffect { revision_id, effect })
            ==> {
            &&& !is_scheduling(effect.kind)
            &&& state.automation(drive.automation_id) matches Some(automation)
            &&& revision_in(automation, revision_id) matches Some(revision)
            &&& revision.descriptor.capabilities.contains(capability_of_kind(effect.kind))
        },
{
}

/// The guest is asked only through the revision that is active.
pub proof fn guest_is_asked_through_active_revision(
    drive: EventDriveModel,
    state: ControlPlaneStateModel,
)
    ensures
        drive.action(state) matches Ok(DriveActionModel::AdvanceGuest { artifact_path, request })
            ==> {
            &&& request.automation_id == drive.automation_id
            &&& request.event == drive.pending[0]
            &&& state.automation(drive.automation_id) matches Some(automation)
            &&& automation.active_revision_id == Some(request.revision_id)
            &&& revision_in(automation, request.revision_id) matches Some(revision)
            &&& revision.artifact_path == artifact_path
        },
{
}

/// Events reach the guest in the order in which they came: those that waited
/// stay in front of what an effect brings.
pub proof fn events_keep_their_order(
    drive: EventDriveModel,
    outcome: EffectHandlerOutcomeModel,
    i: int,
)
    requires
        0 <= i < drive.pending.len(),
    ensures
        drive.handled(outcome).pending[i] == drive.pending[i],
        drive.handled(outcome).pending.len() == drive.pending.len()
            + outcome.follow_up_events.len(),
{
}

impl EventDrive {
    /// Start to drive `event` through the automation.
    pub fn new(automation_id: String, event: AutomationEvent, now: i64) -> (drive: Self)
        ensures
            drive.deep_view() == EventDriveModel::started(
                automation_id@,
                event.deep_view(),
                now,
            ),
    {
        let ghost first = event.deep_view();
        let mut pending: Vec<AutomationEvent> = Vec::new();
        pending.push(event);
        assert(pending.deep_view() =~= seq![first]);
        let drive = EventDrive {
            automation_id,
            now,
            pending,
            revision_id: 0,
            effects: Vec::new(),
            disposition: None,
            observations: Vec::new(),
        };
        assert(drive.effects.deep_view() =~= Seq::empty());
        assert(drive.observations.deep_view() =~= Seq::empty());
        drive
    }

    /// What is to be done next.
    pub fn next_action(&self, state: &ControlPlaneState) -> (result: Result<
        DriveAction,
        AutomationsError,
    >)
        ensures
            match self.deep_view().action(state.deep_view()) {
                Ok(action) => result is Ok && result->Ok_0.deep_view() == action,
                Err(error) => result is Err && result->Err_0.deep_view() == error,
            },
    {
        if self.effects.len() > 0 {
            let effect = &self.effects[0];
            assert(self.deep_view().effects[0] == effect.deep_view());
            match state.ensure_capability(&self.automation_id, self.revision_id, &effect.kind) {
                Ok(()) => Ok(
                    DriveAction::HandleEffect {
                        revision_id: self.revision_id,
                        effect: effect.clone(),
                    },
                ),
                Err(error) => Err(error),
            }
        } else if self.pending.len() > 0 {
            let event = &self.pending[0];
            assert(self.deep_view().pending[0] == event.deep_view());
            match state.advance_request(&self.automation_id, event, self.now) {
                Ok((revision, request)) => Ok(
                    DriveAction::AdvanceGuest { artifact_path: revision.artifact_path, request },
                ),
                Err(error) => Err(error),
            }
        } else {
            let disposition = match self.disposition {
                Some(disposition) => disposition,
                None => EventDisposition::Handled,
            };
            let observations = self.observations.clone();
            assert(observations.deep_view() =~= self.observations.deep_view());
            Ok(DriveAction::Finished(EventSubmission { disposition, observations }))
        }
    }

    /// Take in the answer of the guest to the next event.
    pub fn guest_answered(
        &mut self,
        state: &mut ControlPlaneState,
        revision_id: RevisionId,
        response: &AdvanceResponse,
    ) -> (result: Result<(), AutomationsError>)
        requires
            old(self).effects.len() == 0,
            old(self).pending.len() > 0,
        ensures
            took(
                old(state).deep_view(),
                final(state).deep_view(),
                result,
                persisted(
                    old(state).deep_view(),
                    old(self).deep_view().automation_id,
                    revision_id,
                    old(self).deep_view().pending[0],
                    old(self).now,
                    response.deep_view(),
                ),
            ),
            final(self).deep_view() == if result is Ok {
                old(self).deep_view().answered(revision_id, response.deep_view())
            } else {
                old(self).deep_view()
            },
    {
        assert(self.deep_view().pending[0] == self.pending@[0].deep_view());
        match state.persist_response(
            &self.automation_id,
            revision_id,
            &self.pending[0],
            self.now,
            response,
        ) {
            Ok(effects) => {
                self.pending.remove(0);
                self.effects = effects;
                self.revision_id = revision_id;
                if self.disposition.is_none() {
                    self.disposition = Some(response.disposition);
                }
                assert(self.pending.deep_view() =~= old(self).pending.deep_view().drop_first());
                Ok(())
            },
            Err(error) => Err(error),
        }
    }

    /// Take in what came of the next effect.
    pub fn effect_handled(&mut self, state: &mut ControlPlaneState, outcome: EffectHandlerOutcome)
        requires
            old(self).effects.len() > 0,
        ensures
            final(state).deep_view() == effect_recorded(
                old(state).deep_view(),
                old(self).deep_view().automation_id,
                old(self).revision_id,
                old(self).deep_view().effects[0].effect_id,
                outcome.follow_up_events.len(),
                old(self).now,
            ),
            final(self).deep_view() == old(self).deep_view().handled(outcome.deep_view()),
    {
        let ghost came = outcome.deep_view();
        let EffectHandlerOutcome { mut follow_up_events, mut observations } = outcome;
        assert(self.deep_view().effects[0] == self.effects@[0].deep_view());
        state.record_effect(
            &self.automation_id,
            self.revision_id,
            &self.effects[0].effect_id,
            follow_up_events.len(),
            self.now,
        );
        self.effects.remove(0);
        self.pending.append(&mut follow_up_events);
        self.observations.append(&mut observations);
        assert(self.effects.deep_view() =~= old(self).effects.deep_view().drop_first());
        assert(self.pending.deep_view() =~= old(self).pending.deep_view() + came.follow_up_events);
        assert(self.observations.deep_view() =~= old(self).observations.deep_view()
            + came.observations);
    }
}

}
