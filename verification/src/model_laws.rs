//! What the models of what guests and the host exchange hold.

use crate::{guest_sdk, protocol};
use vstd::prelude::*;

verus! {

/// The model of an [`AutomationDescriptor`](protocol::AutomationDescriptor)
/// holds all that it holds itself.
pub proof fn automation_descriptor_is_told_by_its_model(kept: &protocol::AutomationDescriptor)
    ensures
        kept.deep_view().sdk_version == kept.sdk_version,
        kept.deep_view().automation_name == kept.automation_name@,
        kept.deep_view().description == kept.description@,
        kept.deep_view().state_schema_version == kept.state_schema_version,
        kept.deep_view().capabilities == kept.capabilities.deep_view(),
{
}

/// The model of a [`RegistrationResponse`](protocol::RegistrationResponse)
/// holds all that it holds itself.
pub proof fn registration_response_is_told_by_its_model(kept: &protocol::RegistrationResponse)
    ensures
        kept.deep_view().descriptor == kept.descriptor.deep_view(),
        kept.deep_view().initial_state == kept.initial_state.deep_view(),
{
}

/// The model of a [`RegistrationEnvelope`](protocol::RegistrationEnvelope)
/// holds all that it holds itself.
pub proof fn registration_envelope_is_told_by_its_model(kept: &protocol::RegistrationEnvelope)
    ensures
        match kept {
            protocol::RegistrationEnvelope::Success(value) => kept.deep_view()
                == protocol::RegistrationEnvelopeModel::Success(value.deep_view()),
            protocol::RegistrationEnvelope::Failure(value) => kept.deep_view()
                == protocol::RegistrationEnvelopeModel::Failure(value.deep_view()),
        },
{
}

/// The model of an [`EffectResult`](protocol::EffectResult) holds all that it holds itself.
pub proof fn effect_result_is_told_by_its_model(kept: &protocol::EffectResult)
    ensures
        match kept {
            protocol::EffectResult::Success(value) => kept.deep_view()
                == protocol::EffectResultModel::Success(value.deep_view()),
            protocol::EffectResult::Failure(value) => kept.deep_view()
                == protocol::EffectResultModel::Failure(value.deep_view()),
        },
{
}

/// The model of an [`AutomationEvent`](protocol::AutomationEvent) holds all that it holds itself.
pub proof fn automation_event_is_told_by_its_model(kept: &protocol::AutomationEvent)
    ensures
        match kept {
            protocol::AutomationEvent::Activated { at } => kept.deep_view() == (
            protocol::AutomationEventModel::Activated {
                at: *at,
            }),
            protocol::AutomationEvent::TriggerFired {
                trigger,
                payload,
                at,
            } => kept.deep_view() == (protocol::AutomationEventModel::TriggerFired {
                trigger: trigger.deep_view(),
                payload: payload.deep_view(),
                at: *at,
            }),
            protocol::AutomationEvent::WakeupFired { wakeup_id, at } => kept.deep_view() == (
            protocol::AutomationEventModel::WakeupFired {
                wakeup_id: wakeup_id.deep_view(),
                at: *at,
            }),
            protocol::AutomationEvent::UserSignal { signal, payload, at } => kept.deep_view() == (
            protocol::AutomationEventModel::UserSignal {
                signal: signal.deep_view(),
                payload: payload.deep_view(),
                at: *at,
            }),
            protocol::AutomationEvent::EffectCompleted {
                effect_id,
                result,
                at,
            } => kept.deep_view() == (protocol::AutomationEventModel::EffectCompleted {
                effect_id: effect_id.deep_view(),
                result: result.deep_view(),
                at: *at,
            }),
        },
{
}

/// The model of an [`EffectKind`](protocol::EffectKind) holds all that it holds itself.
pub proof fn effect_kind_is_told_by_its_model(kept: &protocol::EffectKind)
    ensures
        match kept {
            protocol::EffectKind::ScheduleWakeup { wakeup_id, at } => kept.deep_view() == (
            protocol::EffectKindModel::ScheduleWakeup {
                wakeup_id: wakeup_id.deep_view(),
                at: *at,
            }),
            protocol::EffectKind::CancelWakeup { wakeup_id } => kept.deep_view() == (
            protocol::EffectKindModel::CancelWakeup {
                wakeup_id: wakeup_id.deep_view(),
            }),
            protocol::EffectKind::EmitNotification {
                channel,
                title,
                body,
                metadata,
            } => kept.deep_view() == (protocol::EffectKindModel::EmitNotification {
                channel: channel.deep_view(),
                title: title.deep_view(),
                body: body.deep_view(),
                metadata: metadata.deep_view(),
            }),
            protocol::EffectKind::FetchHttp { url } => kept.deep_view() == (
            protocol::EffectKindModel::FetchHttp {
                url: url.deep_view(),
            }),
            protocol::EffectKind::ReadProfile { keys } => kept.deep_view() == (
            protocol::EffectKindModel::ReadProfile {
                keys: keys.deep_view(),
            }),
            protocol::EffectKind::CallTool { slug, input } => kept.deep_view() == (
            protocol::EffectKindModel::CallTool {
                slug: slug.deep_view(),
                input: input.deep_view(),
            }),
            protocol::EffectKind::RunCommand { program, args } => kept.deep_view() == (
            protocol::EffectKindModel::RunCommand {
                program: program.deep_view(),
                args: args.deep_view(),
            }),
            protocol::EffectKind::RunInference { capability, input } => kept.deep_view() == (
            protocol::EffectKindModel::RunInference {
                capability: capability.deep_view(),
                input: input.deep_view(),
            }),
            protocol::EffectKind::RunModel { prompt, system } => kept.deep_view() == (
            protocol::EffectKindModel::RunModel {
                prompt: prompt.deep_view(),
                system: system.deep_view(),
            }),
        },
{
}

/// The model of an [`EffectRequest`](protocol::EffectRequest) holds all that it holds itself.
pub proof fn effect_request_is_told_by_its_model(kept: &protocol::EffectRequest)
    ensures
        kept.deep_view().effect_id == kept.effect_id@,
        kept.deep_view().kind == kept.kind.deep_view(),
{
}

/// The model of an [`AdvanceRequest`](protocol::AdvanceRequest) holds all that it holds itself.
pub proof fn advance_request_is_told_by_its_model(kept: &protocol::AdvanceRequest)
    ensures
        kept.deep_view().automation_id == kept.automation_id@,
        kept.deep_view().revision_id == kept.revision_id,
        kept.deep_view().now == kept.now,
        kept.deep_view().config == kept.config.deep_view(),
        kept.deep_view().state == kept.state.deep_view(),
        kept.deep_view().event == kept.event.deep_view(),
{
}

/// The model of an [`AdvanceResponse`](protocol::AdvanceResponse) holds all that it holds itself.
pub proof fn advance_response_is_told_by_its_model(kept: &protocol::AdvanceResponse)
    ensures
        kept.deep_view().state == kept.state.deep_view(),
        kept.deep_view().effects == kept.effects.deep_view(),
        kept.deep_view().status == kept.status.deep_view(),
        kept.deep_view().disposition == kept.disposition,
{
}

/// The model of an [`AdvanceEnvelope`](protocol::AdvanceEnvelope) holds all that it holds itself.
pub proof fn advance_envelope_is_told_by_its_model(kept: &protocol::AdvanceEnvelope)
    ensures
        match kept {
            protocol::AdvanceEnvelope::Success(value) => kept.deep_view()
                == protocol::AdvanceEnvelopeModel::Success(value.deep_view()),
            protocol::AdvanceEnvelope::Failure(value) => kept.deep_view()
                == protocol::AdvanceEnvelopeModel::Failure(value.deep_view()),
        },
{
}

/// The model of a [`GuestContext`](guest_sdk::GuestContext) holds all that it holds itself.
pub proof fn guest_context_is_told_by_its_model(kept: &guest_sdk::GuestContext)
    ensures
        kept.deep_view().automation_id == kept.automation_id@,
        kept.deep_view().revision_id == kept.revision_id,
        kept.deep_view().now == kept.now,
        kept.deep_view().config == kept.config.deep_view(),
{
}

/// The model of a [`GuestSdkError`](guest_sdk::GuestSdkError) holds all that it holds itself.
pub proof fn guest_sdk_error_is_told_by_its_model(kept: &guest_sdk::GuestSdkError)
    ensures
        match kept {
            guest_sdk::GuestSdkError::RegistrationEncode(value) => kept.deep_view()
                == guest_sdk::GuestSdkErrorModel::RegistrationEncode(value.deep_view()),
            guest_sdk::GuestSdkError::AdvanceEncode(value) => kept.deep_view()
                == guest_sdk::GuestSdkErrorModel::AdvanceEncode(value.deep_view()),
            guest_sdk::GuestSdkError::AdvanceDecode(value) => kept.deep_view()
                == guest_sdk::GuestSdkErrorModel::AdvanceDecode(value.deep_view()),
            guest_sdk::GuestSdkError::StateEncode(value) => kept.deep_view()
                == guest_sdk::GuestSdkErrorModel::StateEncode(value.deep_view()),
            guest_sdk::GuestSdkError::StateDecode(value) => kept.deep_view()
                == guest_sdk::GuestSdkErrorModel::StateDecode(value.deep_view()),
            guest_sdk::GuestSdkError::Automation(value) => kept.deep_view()
                == guest_sdk::GuestSdkErrorModel::Automation(value.deep_view()),
        },
{
}

}
