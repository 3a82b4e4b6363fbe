//! Shared host/guest contract for automations.
//!
//! These types are the boundary between the guest artifact, the control plane
//! that registers, activates and drives it, and the simulator that replays the
//! same contract.

use crate::json::{JsonModel, JsonValue};
use crate::model::FaithfulClone;
use vstd::prelude::*;

verus! {

/// The version of the raw guest interface that this host speaks.
pub const AUTOMATION_ABI_VERSION: u32 = 1;

/// The version of the guest kit that descriptors carry.
pub const AUTOMATION_SDK_VERSION: u32 = 1;

/// What a guest may ask of its host.
#[derive(Debug, Clone, Copy, PartialEq, Eq, Structural)]
pub enum Capability {
    EmitNotifications,
    CallTools,
    FetchHttp,
    ReadProfile,
    RunCommand,
    RunInference,
    RunModel,
    ScheduleWakeups,
}

impl DeepView for Capability {
    type V = Capability;

    open spec fn deep_view(&self) -> Capability {
        *self
    }
}

/// Whether a guest took an event up.
#[derive(Debug, Clone, Copy, PartialEq, Eq, Structural)]
pub enum EventDisposition {
    Unhandled,
    Handled,
}

impl Default for EventDisposition {
    fn default() -> (disposition: Self)
        ensures
            disposition == EventDisposition::Handled,
    {
        EventDisposition::Handled
    }
}

/// What a guest says of itself when it is registered.
#[derive(Debug, PartialEq, Eq)]
pub struct AutomationDescriptor {
    pub sdk_version: u32,
    pub automation_name: String,
    pub description: String,
    pub state_schema_version: u32,
    pub capabilities: Vec<Capability>,
}

/// What a [`AutomationDescriptor`] holds.
#[verifier::ext_equal]
pub struct AutomationDescriptorModel {
    pub sdk_version: u32,
    pub automation_name: Seq<char>,
    pub description: Seq<char>,
    pub state_schema_version: u32,
    pub capabilities: Seq<Capability>,
}

impl DeepView for AutomationDescriptor {
    type V = AutomationDescriptorModel;

    open spec fn deep_view(&self) -> AutomationDescriptorModel {
        AutomationDescriptorModel {
            sdk_version: self.sdk_version,
            automation_name: self.automation_name.deep_view(),
            description: self.description.deep_view(),
            state_schema_version: self.state_schema_version,
            capabilities: self.capabilities.deep_view(),
        }
    }
}

impl Clone for AutomationDescriptor {
    fn clone(&self) -> (copy: Self)
        ensures
            copy.deep_view() == self.deep_view(),
    {
        let copy = AutomationDescriptor {
            sdk_version: self.sdk_version,
            automation_name: self.automation_name.clone(),
            description: self.description.clone(),
            state_schema_version: self.state_schema_version,
            capabilities: self.capabilities.clone(),
        };
        assert(copy.capabilities.deep_view() =~= self.capabilities.deep_view());
        copy
    }
}

impl FaithfulClone for AutomationDescriptor {
    proof fn clone_keeps_model(original: Self, copy: Self) {
    }
}

/// The answer of a guest to its registration.
#[derive(Debug, PartialEq)]
pub struct RegistrationResponse {
    pub descriptor: AutomationDescriptor,
    pub initial_state: JsonValue,
}

/// What a [`RegistrationResponse`] holds.
#[verifier::ext_equal]
pub struct RegistrationResponseModel {
    pub descriptor: AutomationDescriptorModel,
    pub initial_state: JsonModel,
}

impl DeepView for RegistrationResponse {
    type V = RegistrationResponseModel;

    open spec fn deep_view(&self) -> RegistrationResponseModel {
        RegistrationResponseModel {
            descriptor: self.descriptor.deep_view(),
            initial_state: self.initial_state.deep_view(),
        }
    }
}

impl Clone for RegistrationResponse {
    fn clone(&self) -> (copy: Self)
        ensures
            copy.deep_view() == self.deep_view(),
    {
        let copy = RegistrationResponse {
            descriptor: self.descriptor.clone(),
            initial_state: self.initial_state.clone(),
        };
        copy
    }
}

impl FaithfulClone for RegistrationResponse {
    proof fn clone_keeps_model(original: Self, copy: Self) {
    }
}

/// A registration answer as it crosses the boundary.
#[derive(Debug, PartialEq)]
pub enum RegistrationEnvelope {
    Success(RegistrationResponse),
    Failure(String),
}

/// What a [`RegistrationEnvelope`] holds.
#[verifier::ext_equal]
pub enum RegistrationEnvelopeModel {
    Success(RegistrationResponseModel),
    Failure(Seq<char>),
}

impl DeepView for RegistrationEnvelope {
    type V = RegistrationEnvelopeModel;

    open spec fn deep_view(&self) -> RegistrationEnvelopeModel {
        match self {
            RegistrationEnvelope::Success(value) => RegistrationEnvelopeModel::Success(value.deep_view()),
            RegistrationEnvelope::Failure(value) => RegistrationEnvelopeModel::Failure(value.deep_view()),
        }
    }
}

impl Clone for RegistrationEnvelope {
    fn clone(&self) -> (copy: Self)
        ensures
            copy.deep_view() == self.deep_view(),
    {
        match self {
            RegistrationEnvelope::Success(value) => RegistrationEnvelope::Success(value.clone()),
            RegistrationEnvelope::Failure(value) => RegistrationEnvelope::Failure(value.clone()),
        }
    }
}

impl FaithfulClone for RegistrationEnvelope {
    proof fn clone_keeps_model(original: Self, copy: Self) {
    }
}

/// How an effect ended.
#[derive(Debug, PartialEq)]
pub enum EffectResult {
    Success(JsonValue),
    Failure(String),
}

/// What a [`EffectResult`] holds.
#[verifier::ext_equal]
pub enum EffectResultModel {
    Success(JsonModel),
    Failure(Seq<char>),
}

impl DeepView for EffectResult {
    type V = EffectResultModel;

    open spec fn deep_view(&self) -> EffectResultModel {
        match self {
            EffectResult::Success(value) => EffectResultModel::Success(value.deep_view()),
            EffectResult::Failure(value) => EffectResultModel::Failure(value.deep_view()),
        }
    }
}

impl Clone for EffectResult {
    fn clone(&self) -> (copy: Self)
        ensures
            copy.deep_view() == self.deep_view(),
    {
        match self {
            EffectResult::Success(value) => EffectResult::Success(value.clone()),
            EffectResult::Failure(value) => EffectResult::Failure(value.clone()),
        }
    }
}

impl FaithfulClone for EffectResult {
    proof fn clone_keeps_model(original: Self, copy: Self) {
    }
}

/// An event that the host delivers to a guest.
#[derive(Debug, PartialEq)]
pub enum AutomationEvent {
    Activated { at: i64 },
    TriggerFired {
        trigger: String,
        payload: JsonValue,
        at: i64,
    },
    WakeupFired {
        wakeup_id: String,
        at: i64,
    },
    UserSignal {
        signal: String,
        payload: JsonValue,
        at: i64,
    },
    EffectCompleted {
        effect_id: String,
        result: EffectResult,
        at: i64,
    },
}

/// What a [`AutomationEvent`] holds.
#[verifier::ext_equal]
pub enum AutomationEventModel {
    Activated { at: i64 },
    TriggerFired {
        trigger: Seq<char>,
        payload: JsonModel,
        at: i64,
    },
    WakeupFired {
        wakeup_id: Seq<char>,
        at: i64,
    },
    UserSignal {
        signal: Seq<char>,
        payload: JsonModel,
        at: i64,
    },
    EffectCompleted {
        effect_id: Seq<char>,
        result: EffectResultModel,
        at: i64,
    },
}

impl DeepView for AutomationEvent {
    type V = AutomationEventModel;

    open spec fn deep_view(&self) -> AutomationEventModel {
        match self {
            AutomationEvent::Activated { at } => AutomationEventModel::Activated {
                at: *at,
            },
            AutomationEvent::TriggerFired { trigger, payload, at } => AutomationEventModel::TriggerFired {
                trigger: trigger.deep_view(),
                payload: payload.deep_view(),
                at: *at,
            },
            AutomationEvent::WakeupFired { wakeup_id, at } => AutomationEventModel::WakeupFired {
                wakeup_id: wakeup_id.deep_view(),
                at: *at,
            },
            AutomationEvent::UserSignal { signal, payload, at } => AutomationEventModel::UserSignal {
                signal: signal.deep_view(),
                payload: payload.deep_view(),
                at: *at,
            },
            AutomationEvent::EffectCompleted { effect_id, result, at } => AutomationEventModel::EffectCompleted {
                effect_id: effect_id.deep_view(),
                result: result.deep_view(),
                at: *at,
            },
        }
    }
}

impl Clone for AutomationEvent {
    fn clone(&self) -> (copy: Self)
        ensures
            copy.deep_view() == self.deep_view(),
    {
        match self {
            AutomationEvent::Activated { at } => AutomationEvent::Activated {
                at: *at,
            },
            AutomationEvent::TriggerFired { trigger, payload, at } => AutomationEvent::TriggerFired {
                trigger: trigger.clone(),
                payload: payload.clone(),
                at: *at,
            },
            AutomationEvent::WakeupFired { wakeup_id, at } => AutomationEvent::WakeupFired {
                wakeup_id: wakeup_id.clone(),
                at: *at,
            },
            AutomationEvent::UserSignal { signal, payload, at } => AutomationEvent::UserSignal {
                signal: signal.clone(),
                payload: payload.clone(),
                at: *at,
            },
            AutomationEvent::EffectCompleted { effect_id, result, at } => AutomationEvent::EffectCompleted {
                effect_id: effect_id.clone(),
                result: result.clone(),
                at: *at,
            },
        }
    }
}

impl FaithfulClone for AutomationEvent {
    proof fn clone_keeps_model(original: Self, copy: Self) {
    }
}

/// What a guest asks its host to do.
#[derive(Debug, PartialEq)]
pub enum EffectKind {
    ScheduleWakeup {
        wakeup_id: String,
        at: i64,
    },
    CancelWakeup { wakeup_id: String },
    EmitNotification {
        channel: String,
        title: String,
        body: String,
        metadata: JsonValue,
    },
    FetchHttp { url: String },
    ReadProfile { keys: Vec<String> },
    CallTool {
        slug: String,
        input: JsonValue,
    },
    RunCommand {
        program: String,
        args: Vec<String>,
    },
    RunInference {
        capability: String,
        input: JsonValue,
    },
    RunModel {
        prompt: String,
        system: Option<String>,
    },
}

/// What a [`EffectKind`] holds.
#[verifier::ext_equal]
pub enum EffectKindModel {
    ScheduleWakeup {
        wakeup_id: Seq<char>,
        at: i64,
    },
    CancelWakeup { wakeup_id: Seq<char> },
    EmitNotification {
        channel: Seq<char>,
        title: Seq<char>,
        body: Seq<char>,
        metadata: JsonModel,
    },
    FetchHttp { url: Seq<char> },
    ReadProfile { keys: Seq<Seq<char>> },
    CallTool {
        slug: Seq<char>,
        input: JsonModel,
    },
    RunCommand {
        program: Seq<char>,
        args: Seq<Seq<char>>,
    },
    RunInference {
        capability: Seq<char>,
        input: JsonModel,
    },
    RunModel {
        prompt: Seq<char>,
        system: Option<Seq<char>>,
    },
}

impl DeepView for EffectKind {
    type V = EffectKindModel;

    open spec fn deep_view(&self) -> EffectKindModel {
        match self {
            EffectKind::ScheduleWakeup { wakeup_id, at } => EffectKindModel::ScheduleWakeup {
                wakeup_id: wakeup_id.deep_view(),
                at: *at,
            },
            EffectKind::CancelWakeup { wakeup_id } => EffectKindModel::CancelWakeup {
                wakeup_id: wakeup_id.deep_view(),
            },
            EffectKind::EmitNotification { channel, title, body, metadata } => EffectKindModel::EmitNotification {
                channel: channel.deep_view(),
                title: title.deep_view(),
                body: body.deep_view(),
                metadata: metadata.deep_view(),
            },
            EffectKind::FetchHttp { url } => EffectKindModel::FetchHttp {
                url: url.deep_view(),
            },
            EffectKind::ReadProfile { keys } => EffectKindModel::ReadProfile {
                keys: keys.deep_view(),
            },
            EffectKind::CallTool { slug, input } => EffectKindModel::CallTool {
                slug: slug.deep_view(),
                input: input.deep_view(),
            },
            EffectKind::RunCommand { program, args } => EffectKindModel::RunCommand {
                program: program.deep_view(),
                args: args.deep_view(),
            },
            EffectKind::RunInference { capability, input } => EffectKindModel::RunInference {
                capability: capability.deep_view(),
                input: input.deep_view(),
            },
            EffectKind::RunModel { prompt, system } => EffectKindModel::RunModel {
                prompt: prompt.deep_view(),
                system: system.deep_view(),
            },
        }
    }
}

impl Clone for EffectKind {
    fn clone(&self) -> (copy: Self)
        ensures
            copy.deep_view() == self.deep_view(),
    {
        match self {
            EffectKind::ScheduleWakeup { wakeup_id, at } => EffectKind::ScheduleWakeup {
                wakeup_id: wakeup_id.clone(),
                at: *at,
            },
            EffectKind::CancelWakeup { wakeup_id } => EffectKind::CancelWakeup {
                wakeup_id: wakeup_id.clone(),
            },
            EffectKind::EmitNotification { channel, title, body, metadata } => EffectKind::EmitNotification {
                channel: channel.clone(),
                title: title.clone(),
                body: body.clone(),
                metadata: metadata.clone(),
            },
            EffectKind::FetchHttp { url } => EffectKind::FetchHttp {
                url: url.clone(),
            },
            EffectKind::ReadProfile { keys } => {
                let keys_copy = keys.clone();
                assert(keys_copy.deep_view() =~= keys.deep_view());
                EffectKind::ReadProfile {
                    keys: keys_copy,
                }
            },
            EffectKind::CallTool { slug, input } => EffectKind::CallTool {
                slug: slug.clone(),
                input: input.clone(),
            },
            EffectKind::RunCommand { program, args } => {
                let args_copy = args.clone();
                assert(args_copy.deep_view() =~= args.deep_view());
                EffectKind::RunCommand {
                    program: program.clone(),
                    args: args_copy,
                }
            },
            EffectKind::RunInference { capability, input } => EffectKind::RunInference {
                capability: capability.clone(),
                input: input.clone(),
            },
            EffectKind::RunModel { prompt, system } => EffectKind::RunModel {
                prompt: prompt.clone(),
                system: system.clone(),
            },
        }
    }
}

impl FaithfulClone for EffectKind {
    proof fn clone_keeps_model(original: Self, copy: Self) {
    }
}

/// One effect that a guest asks for.
#[derive(Debug, PartialEq)]
pub struct EffectRequest {
    pub effect_id: String,
    pub kind: EffectKind,
}

/// What a [`EffectRequest`] holds.
#[verifier::ext_equal]
pub struct EffectRequestModel {
    pub effect_id: Seq<char>,
    pub kind: EffectKindModel,
}

impl DeepView for EffectRequest {
    type V = EffectRequestModel;

    open spec fn deep_view(&self) -> EffectRequestModel {
        EffectRequestModel {
            effect_id: self.effect_id.deep_view(),
            kind: self.kind.deep_view(),
        }
    }
}

impl Clone for EffectRequest {
    fn clone(&self) -> (copy: Self)
        ensures
            copy.deep_view() == self.deep_view(),
    {
        let copy = EffectRequest {
            effect_id: self.effect_id.clone(),
            kind: self.kind.clone(),
        };
        copy
    }
}

impl FaithfulClone for EffectRequest {
    proof fn clone_keeps_model(original: Self, copy: Self) {
    }
}

/// One transition that the host asks of a guest.
#[derive(Debug, PartialEq)]
pub struct AdvanceRequest {
    pub automation_id: String,
    pub revision_id: u64,
    pub now: i64,
    pub config: JsonValue,
    pub state: JsonValue,
    pub event: AutomationEvent,
}

/// What a [`AdvanceRequest`] holds.
#[verifier::ext_equal]
pub struct AdvanceRequestModel {
    pub automation_id: Seq<char>,
    pub revision_id: u64,
    pub now: i64,
    pub config: JsonModel,
    pub state: JsonModel,
    pub event: AutomationEventModel,
}

impl DeepView for AdvanceRequest {
    type V = AdvanceRequestModel;

    open spec fn deep_view(&self) -> AdvanceRequestModel {
        AdvanceRequestModel {
            automation_id: self.automation_id.deep_view(),
            revision_id: self.revision_id,
            now: self.now,
            config: self.config.deep_view(),
            state: self.state.deep_view(),
            event: self.event.deep_view(),
        }
    }
}

impl Clone for AdvanceRequest {
    fn clone(&self) -> (copy: Self)
        ensures
            copy.deep_view() == self.deep_view(),
    {
        let copy = AdvanceRequest {
            automation_id: self.automation_id.clone(),
            revision_id: self.revision_id,
            now: self.now,
            config: self.config.clone(),
            state: self.state.clone(),
            event: self.event.clone(),
        };
        copy
    }
}

impl FaithfulClone for AdvanceRequest {
    proof fn clone_keeps_model(original: Self, copy: Self) {
    }
}

/// The answer of a guest to a transition.
#[derive(Debug, PartialEq)]
pub struct AdvanceResponse {
    pub state: JsonValue,
    pub effects: Vec<EffectRequest>,
    pub status: Option<String>,
    pub disposition: EventDisposition,
}

/// What a [`AdvanceResponse`] holds.
#[verifier::ext_equal]
pub struct AdvanceResponseModel {
    pub state: JsonModel,
    pub effects: Seq<EffectRequestModel>,
    pub status: Option<Seq<char>>,
    pub disposition: EventDisposition,
}

impl DeepView for AdvanceResponse {
    type V = AdvanceResponseModel;

    open spec fn deep_view(&self) -> AdvanceResponseModel {
        AdvanceResponseModel {
            state: self.state.deep_view(),
            effects: self.effects.deep_view(),
            status: self.status.deep_view(),
            disposition: self.disposition,
        }
    }
}

impl Clone for AdvanceResponse {
    fn clone(&self) -> (copy: Self)
        ensures
            copy.deep_view() == self.deep_view(),
    {
        let copy = AdvanceResponse {
            state: self.state.clone(),
            effects: self.effects.clone(),
            status: self.status.clone(),
            disposition: self.disposition,
        };
        assert(copy.effects.deep_view() =~= self.effects.deep_view());
        copy
    }
}

impl FaithfulClone for AdvanceResponse {
    proof fn clone_keeps_model(original: Self, copy: Self) {
    }
}

/// A transition answer as it crosses the boundary.
#[derive(Debug, PartialEq)]
pub enum AdvanceEnvelope {
    Success(AdvanceResponse),
    Failure(String),
}

/// What a [`AdvanceEnvelope`] holds.
#[verifier::ext_equal]
pub enum AdvanceEnvelopeModel {
    Success(AdvanceResponseModel),
    Failure(Seq<char>),
}

impl DeepView for AdvanceEnvelope {
    type V = AdvanceEnvelopeModel;

    open spec fn deep_view(&self) -> AdvanceEnvelopeModel {
        match self {
            AdvanceEnvelope::Success(value) => AdvanceEnvelopeModel::Success(value.deep_view()),
            AdvanceEnvelope::Failure(value) => AdvanceEnvelopeModel::Failure(value.deep_view()),
        }
    }
}

impl Clone for AdvanceEnvelope {
    fn clone(&self) -> (copy: Self)
        ensures
            copy.deep_view() == self.deep_view(),
    {
        match self {
            AdvanceEnvelope::Success(value) => AdvanceEnvelope::Success(value.clone()),
            AdvanceEnvelope::Failure(value) => AdvanceEnvelope::Failure(value.clone()),
        }
    }
}

impl FaithfulClone for AdvanceEnvelope {
    proof fn clone_keeps_model(original: Self, copy: Self) {
    }
}

impl AutomationDescriptor {
    /// Describe an automation at the current kit version.
    pub fn new(
        automation_name: String,
        description: String,
        state_schema_version: u32,
        capabilities: Vec<Capability>,
    ) -> (descriptor: Self)
        ensures
            descriptor.deep_view() == (AutomationDescriptorModel {
                sdk_version: AUTOMATION_SDK_VERSION,
                automation_name: automation_name@,
                description: description@,
                state_schema_version,
                capabilities: capabilities.deep_view(),
            }),
    {
        AutomationDescriptor {
            sdk_version: AUTOMATION_SDK_VERSION,
            automation_name,
            description,
            state_schema_version,
            capabilities,
        }
    }
}

impl EffectRequest {
    /// Ask for the effect `kind` under the name `effect_id`.
    pub fn new(effect_id: String, kind: EffectKind) -> (request: Self)
        ensures
            request.deep_view() == (EffectRequestModel {
                effect_id: effect_id@,
                kind: kind.deep_view(),
            }),
    {
        EffectRequest { effect_id, kind }
    }
}

}
