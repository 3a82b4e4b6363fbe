//! The data that the control plane keeps of its automations.

use crate::json::{JsonModel, JsonValue};
use crate::model::FaithfulClone;
use crate::ordered_map::OrderedMap;
use crate::protocol::{
    AdvanceResponse, AdvanceResponseModel, AutomationDescriptor, AutomationDescriptorModel,
    AutomationEvent, AutomationEventModel, Capability, EffectKind, EffectKindModel,
    EventDisposition,
};
use vstd::prelude::*;

verus! {

/// The number of a registered revision. Numbers grow with each registration.
pub type RevisionId = u64;

/// How a revision takes over the state of its automation.
#[derive(Debug, Clone, Copy, PartialEq, Eq, Structural)]
pub enum ActivationMode {
    ColdStart,
    PreserveState,
}

/// A guest artifact that was registered for an automation.
#[derive(Debug, PartialEq)]
pub struct RegisteredRevision {
    pub revision_id: RevisionId,
    pub artifact_path: String,
    pub artifact_sha256: String,
    pub registered_at: i64,
    pub descriptor: AutomationDescriptor,
    pub config: JsonValue,
    pub initial_state: JsonValue,
}

/// What a [`RegisteredRevision`] holds.
#[verifier::ext_equal]
pub struct RegisteredRevisionModel {
    pub revision_id: RevisionId,
    pub artifact_path: Seq<char>,
    pub artifact_sha256: Seq<char>,
    pub registered_at: i64,
    pub descriptor: AutomationDescriptorModel,
    pub config: JsonModel,
    pub initial_state: JsonModel,
}

impl DeepView for RegisteredRevision {
    type V = RegisteredRevisionModel;

    open spec fn deep_view(&self) -> RegisteredRevisionModel {
        RegisteredRevisionModel {
            revision_id: self.revision_id,
            artifact_path: self.artifact_path.deep_view(),
            artifact_sha256: self.artifact_sha256.deep_view(),
            registered_at: self.registered_at,
            descriptor: self.descriptor.deep_view(),
            config: self.config.deep_view(),
            initial_state: self.initial_state.deep_view(),
        }
    }
}

impl Clone for RegisteredRevision {
    fn clone(&self) -> (copy: Self)
        ensures
            copy.deep_view() == self.deep_view(),
    {
        let copy = RegisteredRevision {
            revision_id: self.revision_id,
            artifact_path: self.artifact_path.clone(),
            artifact_sha256: self.artifact_sha256.clone(),
            registered_at: self.registered_at,
            descriptor: self.descriptor.clone(),
            config: self.config.clone(),
            initial_state: self.initial_state.clone(),
        };
        copy
    }
}

impl FaithfulClone for RegisteredRevision {
    proof fn clone_keeps_model(original: Self, copy: Self) {
    }
}

/// A wakeup that an automation asked for.
#[derive(Debug, PartialEq, Eq)]
pub struct ScheduledWakeup {
    pub wakeup_id: String,
    pub at: i64,
}

/// What a [`ScheduledWakeup`] holds.
#[verifier::ext_equal]
pub struct ScheduledWakeupModel {
    pub wakeup_id: Seq<char>,
    pub at: i64,
}

impl DeepView for ScheduledWakeup {
    type V = ScheduledWakeupModel;

    open spec fn deep_view(&self) -> ScheduledWakeupModel {
        ScheduledWakeupModel {
            wakeup_id: self.wakeup_id.deep_view(),
            at: self.at,
        }
    }
}

impl Clone for ScheduledWakeup {
    fn clone(&self) -> (copy: Self)
        ensures
            copy.deep_view() == self.deep_view(),
    {
        let copy = ScheduledWakeup {
            wakeup_id: self.wakeup_id.clone(),
            at: self.at,
        };
        copy
    }
}

impl FaithfulClone for ScheduledWakeup {
    proof fn clone_keeps_model(original: Self, copy: Self) {
    }
}

/// What the control plane keeps of one automation.
#[derive(Debug, PartialEq)]
pub struct ManagedAutomation {
    pub automation_id: String,
    pub revisions: OrderedMap<RevisionId, RegisteredRevision>,
    pub active_revision_id: Option<RevisionId>,
    pub current_state: Option<JsonValue>,
    pub scheduled_wakeups: OrderedMap<String, ScheduledWakeup>,
    pub last_status: Option<String>,
}

/// What a [`ManagedAutomation`] holds.
#[verifier::ext_equal]
pub struct ManagedAutomationModel {
    pub automation_id: Seq<char>,
    pub revisions: Seq<(RevisionId, RegisteredRevisionModel)>,
    pub active_revision_id: Option<RevisionId>,
    pub current_state: Option<JsonModel>,
    pub scheduled_wakeups: Seq<(Seq<char>, ScheduledWakeupModel)>,
    pub last_status: Option<Seq<char>>,
}

impl DeepView for ManagedAutomation {
    type V = ManagedAutomationModel;

    open spec fn deep_view(&self) -> ManagedAutomationModel {
        ManagedAutomationModel {
            automation_id: self.automation_id.deep_view(),
            revisions: self.revisions.deep_view(),
            active_revision_id: self.active_revision_id,
            current_state: self.current_state.deep_view(),
            scheduled_wakeups: self.scheduled_wakeups.deep_view(),
            last_status: self.last_status.deep_view(),
        }
    }
}

impl Clone for ManagedAutomation {
    fn clone(&self) -> (copy: Self)
        ensures
            copy.deep_view() == self.deep_view(),
    {
        let copy = ManagedAutomation {
            automation_id: self.automation_id.clone(),
            revisions: self.revisions.clone(),
            active_revision_id: self.active_revision_id,
            current_state: self.current_state.clone(),
            scheduled_wakeups: self.scheduled_wakeups.clone(),
            last_status: self.last_status.clone(),
        };
        copy
    }
}

impl FaithfulClone for ManagedAutomation {
    proof fn clone_keeps_model(original: Self, copy: Self) {
    }
}

/// One thing that happened to an automation.
#[derive(Debug, PartialEq)]
pub enum TraceEvent {
    RevisionRegistered {
        automation_id: String,
        revision_id: RevisionId,
        artifact_sha256: String,
    },
    RevisionActivated {
        automation_id: String,
        revision_id: RevisionId,
        mode: ActivationMode,
    },
    AutomationDeactivated {
        automation_id: String,
        revision_id: RevisionId,
    },
    AutomationDeleted { automation_id: String },
    EventSubmitted {
        automation_id: String,
        revision_id: RevisionId,
        event: AutomationEvent,
    },
    StateAdvanced {
        automation_id: String,
        revision_id: RevisionId,
        response: AdvanceResponse,
    },
    WakeupScheduled {
        automation_id: String,
        revision_id: RevisionId,
        wakeup_id: String,
        at: i64,
    },
    WakeupCancelled {
        automation_id: String,
        revision_id: RevisionId,
        wakeup_id: String,
    },
    WakeupDispatched {
        automation_id: String,
        revision_id: RevisionId,
        wakeup_id: String,
        at: i64,
    },
    EffectRequested {
        automation_id: String,
        revision_id: RevisionId,
        effect_id: String,
        effect_kind: String,
    },
    EffectHandled {
        automation_id: String,
        revision_id: RevisionId,
        effect_id: String,
        follow_up_events: usize,
    },
}

/// What a [`TraceEvent`] holds.
#[verifier::ext_equal]
pub enum TraceEventModel {
    RevisionRegistered {
        automation_id: Seq<char>,
        revision_id: RevisionId,
        artifact_sha256: Seq<char>,
    },
    RevisionActivated {
        automation_id: Seq<char>,
        revision_id: RevisionId,
        mode: ActivationMode,
    },
    AutomationDeactivated {
        automation_id: Seq<char>,
        revision_id: RevisionId,
    },
    AutomationDeleted { automation_id: Seq<char> },
    EventSubmitted {
        automation_id: Seq<char>,
        revision_id: RevisionId,
        event: AutomationEventModel,
    },
    StateAdvanced {
        automation_id: Seq<char>,
        revision_id: RevisionId,
        response: AdvanceResponseModel,
    },
    WakeupScheduled {
        automation_id: Seq<char>,
        revision_id: RevisionId,
        wakeup_id: Seq<char>,
        at: i64,
    },
    WakeupCancelled {
        automation_id: Seq<char>,
        revision_id: RevisionId,
        wakeup_id: Seq<char>,
    },
    WakeupDispatched {
        automation_id: Seq<char>,
        revision_id: RevisionId,
        wakeup_id: Seq<char>,
        at: i64,
    },
    EffectRequested {
        automation_id: Seq<char>,
        revision_id: RevisionId,
        effect_id: Seq<char>,
        effect_kind: Seq<char>,
    },
    EffectHandled {
        automation_id: Seq<char>,
        revision_id: RevisionId,
        effect_id: Seq<char>,
        follow_up_events: usize,
    },
}

impl DeepView for TraceEvent {
    type V = TraceEventModel;

    open spec fn deep_view(&self) -> TraceEventModel {
        match self {
            TraceEvent::RevisionRegistered { automation_id, revision_id, artifact_sha256 } => TraceEventModel::RevisionRegistered {
                automation_id: automation_id.deep_view(),
                revision_id: *revision_id,
                artifact_sha256: artifact_sha256.deep_view(),
            },
            TraceEvent::RevisionActivated { automation_id, revision_id, mode } => TraceEventModel::RevisionActivated {
                automation_id: automation_id.deep_view(),
                revision_id: *revision_id,
                mode: *mode,
            },
            TraceEvent::AutomationDeactivated { automation_id, revision_id } => TraceEventModel::AutomationDeactivated {
                automation_id: automation_id.deep_view(),
                revision_id: *revision_id,
            },
            TraceEvent::AutomationDeleted { automation_id } => TraceEventModel::AutomationDeleted {
                automation_id: automation_id.deep_view(),
            },
            TraceEvent::EventSubmitted { automation_id, revision_id, event } => TraceEventModel::EventSubmitted {
                automation_id: automation_id.deep_view(),
                revision_id: *revision_id,
                event: event.deep_view(),
            },
            TraceEvent::StateAdvanced { automation_id, revision_id, response } => TraceEventModel::StateAdvanced {
                automation_id: automation_id.deep_view(),
                revision_id: *revision_id,
                response: response.deep_view(),
            },
            TraceEvent::WakeupScheduled { automation_id, revision_id, wakeup_id, at } => TraceEventModel::WakeupScheduled {
                automation_id: automation_id.deep_view(),
                revision_id: *revision_id,
                wakeup_id: wakeup_id.deep_view(),
                at: *at,
            },
            TraceEvent::WakeupCancelled { automation_id, revision_id, wakeup_id } => TraceEventModel::WakeupCancelled {
                automation_id: automation_id.deep_view(),
                revision_id: *revision_id,
                wakeup_id: wakeup_id.deep_view(),
            },
            TraceEvent::WakeupDispatched { automation_id, revision_id, wakeup_id, at } => TraceEventModel::WakeupDispatched {
                automation_id: automation_id.deep_view(),
                revision_id: *revision_id,
                wakeup_id: wakeup_id.deep_view(),
                at: *at,
            },
            TraceEvent::EffectRequested { automation_id, revision_id, effect_id, effect_kind } => TraceEventModel::EffectRequested {
                automation_id: automation_id.deep_view(),
                revision_id: *revision_id,
                effect_id: effect_id.deep_view(),
                effect_kind: effect_kind.deep_view(),
            },
            TraceEvent::EffectHandled { automation_id, revision_id, effect_id, follow_up_events } => TraceEventModel::EffectHandled {
                automation_id: automation_id.deep_view(),
                revision_id: *revision_id,
                effect_id: effect_id.deep_view(),
                follow_up_events: *follow_up_events,
            },
        }
    }
}

impl Clone for TraceEvent {
    fn clone(&self) -> (copy: Self)
        ensures
            copy.deep_view() == self.deep_view(),
    {
        match self {
            TraceEvent::RevisionRegistered { automation_id, revision_id, artifact_sha256 } => TraceEvent::RevisionRegistered {
                automation_id: automation_id.clone(),
                revision_id: *revision_id,
                artifact_sha256: artifact_sha256.clone(),
            },
            TraceEvent::RevisionActivated { automation_id, revision_id, mode } => TraceEvent::RevisionActivated {
                automation_id: automation_id.clone(),
                revision_id: *revision_id,
                mode: *mode,
            },
            TraceEvent::AutomationDeactivated { automation_id, revision_id } => TraceEvent::AutomationDeactivated {
                automation_id: automation_id.clone(),
                revision_id: *revision_id,
            },
            TraceEvent::AutomationDeleted { automation_id } => TraceEvent::AutomationDeleted {
                automation_id: automation_id.clone(),
            },
            TraceEvent::EventSubmitted { automation_id, revision_id, event } => TraceEvent::EventSubmitted {
                automation_id: automation_id.clone(),
                revision_id: *revision_id,
                event: event.clone(),
            },
            TraceEvent::StateAdvanced { automation_id, revision_id, response } => TraceEvent::StateAdvanced {
                automation_id: automation_id.clone(),
                revision_id: *revision_id,
                response: response.clone(),
            },
            TraceEvent::WakeupScheduled { automation_id, revision_id, wakeup_id, at } => TraceEvent::WakeupScheduled {
                automation_id: automation_id.clone(),
                revision_id: *revision_id,
                wakeup_id: wakeup_id.clone(),
                at: *at,
            },
            TraceEvent::WakeupCancelled { automation_id, revision_id, wakeup_id } => TraceEvent::WakeupCancelled {
                automation_id: automation_id.clone(),
                revision_id: *revision_id,
                wakeup_id: wakeup_id.clone(),
            },
            TraceEvent::WakeupDispatched { automation_id, revision_id, wakeup_id, at } => TraceEvent::WakeupDispatched {
                automation_id: automation_id.clone(),
                revision_id: *revision_id,
                wakeup_id: wakeup_id.clone(),
                at: *at,
            },
            TraceEvent::EffectRequested { automation_id, revision_id, effect_id, effect_kind } => TraceEvent::EffectRequested {
                automation_id: automation_id.clone(),
                revision_id: *revision_id,
                effect_id: effect_id.clone(),
                effect_kind: effect_kind.clone(),
            },
            TraceEvent::EffectHandled { automation_id, revision_id, effect_id, follow_up_events } => TraceEvent::EffectHandled {
                automation_id: automation_id.clone(),
                revision_id: *revision_id,
                effect_id: effect_id.clone(),
                follow_up_events: *follow_up_events,
            },
        }
    }
}

impl FaithfulClone for TraceEvent {
    proof fn clone_keeps_model(original: Self, copy: Self) {
    }
}

/// A trace entry with its host time.
#[derive(Debug, PartialEq)]
pub struct TraceRecord {
    pub at: i64,
    pub event: TraceEvent,
}

/// What a [`TraceRecord`] holds.
#[verifier::ext_equal]
pub struct TraceRecordModel {
    pub at: i64,
    pub event: TraceEventModel,
}

impl DeepView for TraceRecord {
    type V = TraceRecordModel;

    open spec fn deep_view(&self) -> TraceRecordModel {
        TraceRecordModel {
            at: self.at,
            event: self.event.deep_view(),
        }
    }
}

impl Clone for TraceRecord {
    fn clone(&self) -> (copy: Self)
        ensures
            copy.deep_view() == self.deep_view(),
    {
        let copy = TraceRecord {
            at: self.at,
            event: self.event.clone(),
        };
        copy
    }
}

impl FaithfulClone for TraceRecord {
    proof fn clone_keeps_model(original: Self, copy: Self) {
    }
}

/// Everything that the control plane persists.
#[derive(Debug, PartialEq)]
pub struct ControlPlaneState {
    pub automations: OrderedMap<String, ManagedAutomation>,
    pub traces: Vec<TraceRecord>,
    pub next_revision_id: RevisionId,
}

/// What a [`ControlPlaneState`] holds.
#[verifier::ext_equal]
pub struct ControlPlaneStateModel {
    pub automations: Seq<(Seq<char>, ManagedAutomationModel)>,
    pub traces: Seq<TraceRecordModel>,
    pub next_revision_id: RevisionId,
}

impl DeepView for ControlPlaneState {
    type V = ControlPlaneStateModel;

    open spec fn deep_view(&self) -> ControlPlaneStateModel {
        ControlPlaneStateModel {
            automations: self.automations.deep_view(),
            traces: self.traces.deep_view(),
            next_revision_id: self.next_revision_id,
        }
    }
}

impl Clone for ControlPlaneState {
    fn clone(&self) -> (copy: Self)
        ensures
            copy.deep_view() == self.deep_view(),
    {
        let copy = ControlPlaneState {
            automations: self.automations.clone(),
            traces: self.traces.clone(),
            next_revision_id: self.next_revision_id,
        };
        assert(copy.traces.deep_view() =~= self.traces.deep_view());
        copy
    }
}

impl FaithfulClone for ControlPlaneState {
    proof fn clone_keeps_model(original: Self, copy: Self) {
    }
}

/// What a host saw while it handled an effect.
#[derive(Debug, PartialEq)]
pub enum EffectObservation {
    Notification {
        effect_id: String,
        channel: String,
        title: String,
        body: String,
        metadata: JsonValue,
    },
}

/// What a [`EffectObservation`] holds.
#[verifier::ext_equal]
pub enum EffectObservationModel {
    Notification {
        effect_id: Seq<char>,
        channel: Seq<char>,
        title: Seq<char>,
        body: Seq<char>,
        metadata: JsonModel,
    },
}

impl DeepView for EffectObservation {
    type V = EffectObservationModel;

    open spec fn deep_view(&self) -> EffectObservationModel {
        match self {
            EffectObservation::Notification { effect_id, channel, title, body, metadata } => EffectObservationModel::Notification {
                effect_id: effect_id.deep_view(),
                channel: channel.deep_view(),
                title: title.deep_view(),
                body: body.deep_view(),
                metadata: metadata.deep_view(),
            },
        }
    }
}

impl Clone for EffectObservation {
    fn clone(&self) -> (copy: Self)
        ensures
            copy.deep_view() == self.deep_view(),
    {
        match self {
            EffectObservation::Notification { effect_id, channel, title, body, metadata } => EffectObservation::Notification {
                effect_id: effect_id.clone(),
                channel: channel.clone(),
                title: title.clone(),
                body: body.clone(),
                metadata: metadata.clone(),
            },
        }
    }
}

impl FaithfulClone for EffectObservation {
    proof fn clone_keeps_model(original: Self, copy: Self) {
    }
}

/// What became of an event that was submitted.
#[derive(Debug, PartialEq)]
pub struct EventSubmission {
    pub disposition: EventDisposition,
    pub observations: Vec<EffectObservation>,
}

/// What a [`EventSubmission`] holds.
#[verifier::ext_equal]
pub struct EventSubmissionModel {
    pub disposition: EventDisposition,
    pub observations: Seq<EffectObservationModel>,
}

impl DeepView for EventSubmission {
    type V = EventSubmissionModel;

    open spec fn deep_view(&self) -> EventSubmissionModel {
        EventSubmissionModel {
            disposition: self.disposition,
            observations: self.observations.deep_view(),
        }
    }
}

impl Clone for EventSubmission {
    fn clone(&self) -> (copy: Self)
        ensures
            copy.deep_view() == self.deep_view(),
    {
        let copy = EventSubmission {
            disposition: self.disposition,
            observations: self.observations.clone(),
        };
        assert(copy.observations.deep_view() =~= self.observations.deep_view());
        copy
    }
}

impl FaithfulClone for EventSubmission {
    proof fn clone_keeps_model(original: Self, copy: Self) {
    }
}

/// What a handled effect leads to.
#[derive(Debug, PartialEq)]
pub struct EffectHandlerOutcome {
    pub follow_up_events: Vec<AutomationEvent>,
    pub observations: Vec<EffectObservation>,
}

/// What a [`EffectHandlerOutcome`] holds.
#[verifier::ext_equal]
pub struct EffectHandlerOutcomeModel {
    pub follow_up_events: Seq<AutomationEventModel>,
    pub observations: Seq<EffectObservationModel>,
}

impl DeepView for EffectHandlerOutcome {
    type V = EffectHandlerOutcomeModel;

    open spec fn deep_view(&self) -> EffectHandlerOutcomeModel {
        EffectHandlerOutcomeModel {
            follow_up_events: self.follow_up_events.deep_view(),
            observations: self.observations.deep_view(),
        }
    }
}

impl Clone for EffectHandlerOutcome {
    fn clone(&self) -> (copy: Self)
        ensures
            copy.deep_view() == self.deep_view(),
    {
        let copy = EffectHandlerOutcome {
            follow_up_events: self.follow_up_events.clone(),
            observations: self.observations.clone(),
        };
        assert(copy.follow_up_events.deep_view() =~= self.follow_up_events.deep_view());
        assert(copy.observations.deep_view() =~= self.observations.deep_view());
        copy
    }
}

impl FaithfulClone for EffectHandlerOutcome {
    proof fn clone_keeps_model(original: Self, copy: Self) {
    }
}

/// A request to register a guest artifact.
#[derive(Debug, PartialEq)]
pub struct RegistrationRequest {
    pub automation_id: String,
    pub artifact_path: String,
    pub config: JsonValue,
}

/// What a [`RegistrationRequest`] holds.
#[verifier::ext_equal]
pub struct RegistrationRequestModel {
    pub automation_id: Seq<char>,
    pub artifact_path: Seq<char>,
    pub config: JsonModel,
}

impl DeepView for RegistrationRequest {
    type V = RegistrationRequestModel;

    open spec fn deep_view(&self) -> RegistrationRequestModel {
        RegistrationRequestModel {
            automation_id: self.automation_id.deep_view(),
            artifact_path: self.artifact_path.deep_view(),
            config: self.config.deep_view(),
        }
    }
}

impl Clone for RegistrationRequest {
    fn clone(&self) -> (copy: Self)
        ensures
            copy.deep_view() == self.deep_view(),
    {
        let copy = RegistrationRequest {
            automation_id: self.automation_id.clone(),
            artifact_path: self.artifact_path.clone(),
            config: self.config.clone(),
        };
        copy
    }
}

impl FaithfulClone for RegistrationRequest {
    proof fn clone_keeps_model(original: Self, copy: Self) {
    }
}

impl ManagedAutomationModel {
    /// An automation of which nothing is registered yet.
    pub open spec fn fresh(automation_id: Seq<char>) -> Self {
        ManagedAutomationModel {
            automation_id,
            revisions: Seq::empty(),
            active_revision_id: None,
            current_state: None,
            scheduled_wakeups: Seq::empty(),
            last_status: None,
        }
    }
}

impl ManagedAutomation {
    /// An automation of which nothing is registered yet.
    pub fn new(automation_id: String) -> (automation: Self)
        ensures
            automation.deep_view() == ManagedAutomationModel::fresh(automation_id@),
    {
        ManagedAutomation {
            automation_id,
            revisions: OrderedMap::new(),
            active_revision_id: None,
            current_state: None,
            scheduled_wakeups: OrderedMap::new(),
            last_status: None,
        }
    }
}

impl ControlPlaneStateModel {
    /// The state before anything was registered.
    pub open spec fn empty() -> Self {
        ControlPlaneStateModel {
            automations: Seq::empty(),
            traces: Seq::empty(),
            next_revision_id: 0,
        }
    }
}

impl Default for ControlPlaneState {
    fn default() -> (state: Self)
        ensures
            state.deep_view() == ControlPlaneStateModel::empty(),
    {
        let state = ControlPlaneState {
            automations: OrderedMap::new(),
            traces: Vec::new(),
            next_revision_id: 0,
        };
        assert(state.traces.deep_view() =~= Seq::empty());
        state
    }
}

impl ControlPlaneState {
    /// Take the next revision number.
    pub fn allocate_revision_id(&mut self) -> (revision_id: RevisionId)
        requires
            old(self).next_revision_id < u64::MAX,
        ensures
            revision_id == old(self).next_revision_id + 1,
            final(self).deep_view() == (ControlPlaneStateModel {
                next_revision_id: revision_id,
                ..old(self).deep_view()
            }),
    {
        self.next_revision_id = self.next_revision_id + 1;
        self.next_revision_id
    }
}

impl Default for EffectHandlerOutcome {
    fn default() -> (outcome: Self)
        ensures
            outcome.deep_view() == (EffectHandlerOutcomeModel {
                follow_up_events: Seq::empty(),
                observations: Seq::empty(),
            }),
    {
        let outcome = EffectHandlerOutcome {
            follow_up_events: Vec::new(),
            observations: Vec::new(),
        };
        assert(outcome.follow_up_events.deep_view() =~= Seq::empty());
        assert(outcome.observations.deep_view() =~= Seq::empty());
        outcome
    }
}

/// The name under which effects of this kind are traced.
pub open spec fn label_of_kind(kind: EffectKindModel) -> Seq<char> {
    match kind {
        EffectKindModel::ScheduleWakeup { .. } => "schedule_wakeup"@,
        EffectKindModel::CancelWakeup { .. } => "cancel_wakeup"@,
        EffectKindModel::EmitNotification { .. } => "emit_notification"@,
        EffectKindModel::FetchHttp { .. } => "fetch_http"@,
        EffectKindModel::ReadProfile { .. } => "read_profile"@,
        EffectKindModel::CallTool { .. } => "call_tool"@,
        EffectKindModel::RunCommand { .. } => "run_command"@,
        EffectKindModel::RunInference { .. } => "run_inference"@,
        EffectKindModel::RunModel { .. } => "run_model"@,
    }
}

/// The name under which effects of this kind are traced.
pub fn effect_kind_label(kind: &EffectKind) -> (label: &'static str)
    ensures
        label@ == label_of_kind(kind.deep_view()),
{
    match kind {
        EffectKind::ScheduleWakeup { .. } => "schedule_wakeup",
        EffectKind::CancelWakeup { .. } => "cancel_wakeup",
        EffectKind::EmitNotification { .. } => "emit_notification",
        EffectKind::FetchHttp { .. } => "fetch_http",
        EffectKind::ReadProfile { .. } => "read_profile",
        EffectKind::CallTool { .. } => "call_tool",
        EffectKind::RunCommand { .. } => "run_command",
        EffectKind::RunInference { .. } => "run_inference",
        EffectKind::RunModel { .. } => "run_model",
    }
}

/// The capability that a guest must declare for an effect of this kind.
pub open spec fn capability_of_kind(kind: EffectKindModel) -> Capability {
    match kind {
        EffectKindModel::ScheduleWakeup { .. } => Capability::ScheduleWakeups,
        EffectKindModel::CancelWakeup { .. } => Capability::ScheduleWakeups,
        EffectKindModel::EmitNotification { .. } => Capability::EmitNotifications,
        EffectKindModel::FetchHttp { .. } => Capability::FetchHttp,
        EffectKindModel::ReadProfile { .. } => Capability::ReadProfile,
        EffectKindModel::CallTool { .. } => Capability::CallTools,
        EffectKindModel::RunCommand { .. } => Capability::RunCommand,
        EffectKindModel::RunInference { .. } => Capability::RunInference,
        EffectKindModel::RunModel { .. } => Capability::RunModel,
    }
}

/// The capability that a guest must declare for an effect of this kind.
pub fn capability_for_effect(kind: &EffectKind) -> (capability: Capability)
    ensures
        capability == capability_of_kind(kind.deep_view()),
{
    match kind {
        EffectKind::ScheduleWakeup { .. } => Capability::ScheduleWakeups,
        EffectKind::CancelWakeup { .. } => Capability::ScheduleWakeups,
        EffectKind::EmitNotification { .. } => Capability::EmitNotifications,
        EffectKind::FetchHttp { .. } => Capability::FetchHttp,
        EffectKind::ReadProfile { .. } => Capability::ReadProfile,
        EffectKind::CallTool { .. } => Capability::CallTools,
        EffectKind::RunCommand { .. } => Capability::RunCommand,
        EffectKind::RunInference { .. } => Capability::RunInference,
        EffectKind::RunModel { .. } => Capability::RunModel,
    }
}

/// The name of a capability.
pub open spec fn name_of_capability(capability: Capability) -> Seq<char> {
    match capability {
        Capability::EmitNotifications => "EmitNotifications"@,
        Capability::CallTools => "CallTools"@,
        Capability::FetchHttp => "FetchHttp"@,
        Capability::ReadProfile => "ReadProfile"@,
        Capability::RunCommand => "RunCommand"@,
        Capability::RunInference => "RunInference"@,
        Capability::RunModel => "RunModel"@,
        Capability::ScheduleWakeups => "ScheduleWakeups"@,
    }
}

/// The name of a capability.
pub fn capability_name(capability: Capability) -> (name: &'static str)
    ensures
        name@ == name_of_capability(capability),
{
    match capability {
        Capability::EmitNotifications => "EmitNotifications",
        Capability::CallTools => "CallTools",
        Capability::FetchHttp => "FetchHttp",
        Capability::ReadProfile => "ReadProfile",
        Capability::RunCommand => "RunCommand",
        Capability::RunInference => "RunInference",
        Capability::RunModel => "RunModel",
        Capability::ScheduleWakeups => "ScheduleWakeups",
    }
}

}
