//! What the models of the control plane and of the bundle host hold.

use crate::automations::{bundle_host, domain, drive, due, error, providers};
use vstd::prelude::*;

verus! {

/// The model of a [`RegisteredRevision`](domain::RegisteredRevision)
/// holds all that it holds itself.
pub proof fn registered_revision_is_told_by_its_model(kept: &domain::RegisteredRevision)
    ensures
        kept.deep_view().revision_id == kept.revision_id,
        kept.deep_view().artifact_path == kept.artifact_path@,
        kept.deep_view().artifact_sha256 == kept.artifact_sha256@,
        kept.deep_view().registered_at == kept.registered_at,
        kept.deep_view().descriptor == kept.descriptor.deep_view(),
        kept.deep_view().config == kept.config.deep_view(),
        kept.deep_view().initial_state == kept.initial_state.deep_view(),
{
}

/// The model of a [`ScheduledWakeup`](domain::ScheduledWakeup) holds all that it holds itself.
pub proof fn scheduled_wakeup_is_told_by_its_model(kept: &domain::ScheduledWakeup)
    ensures
        kept.deep_view().wakeup_id == kept.wakeup_id@,
        kept.deep_view().at == kept.at,
{
}

/// The model of a [`ManagedAutomation`](domain::ManagedAutomation) holds all that it holds itself.
pub proof fn managed_automation_is_told_by_its_model(kept: &domain::ManagedAutomation)
    ensures
        kept.deep_view().automation_id == kept.automation_id@,
        kept.deep_view().revisions == kept.revisions.deep_view(),
        kept.deep_view().active_revision_id == kept.active_revision_id,
        kept.deep_view().current_state == kept.current_state.deep_view(),
        kept.deep_view().scheduled_wakeups == kept.scheduled_wakeups.deep_view(),
        kept.deep_view().last_status == kept.last_status.deep_view(),
{
}

/// The model of a [`TraceEvent`](domain::TraceEvent) holds all that it holds itself.
pub proof fn trace_event_is_told_by_its_model(kept: &domain::TraceEvent)
    ensures
        match kept {
            domain::TraceEvent::RevisionRegistered {
                automation_id,
                revision_id,
                artifact_sha256,
            } => kept.deep_view() == (domain::TraceEventModel::RevisionRegistered {
                automation_id: automation_id.deep_view(),
                revision_id: *revision_id,
                artifact_sha256: artifact_sha256.deep_view(),
            }),
            domain::TraceEvent::RevisionActivated {
                automation_id,
                revision_id,
                mode,
            } => kept.deep_view() == (domain::TraceEventModel::RevisionActivated {
                automation_id: automation_id.deep_view(),
                revision_id: *revision_id,
                mode: *mode,
            }),
            domain::TraceEvent::AutomationDeactivated {
                automation_id,
                revision_id,
            } => kept.deep_view() == (domain::TraceEventModel::AutomationDeactivated {
                automation_id: automation_id.deep_view(),
                revision_id: *revision_id,
            }),
            domain::TraceEvent::AutomationDeleted { automation_id } => kept.deep_view() == (
            domain::TraceEventModel::AutomationDeleted {
                automation_id: automation_id.deep_view(),
            }),
            domain::TraceEvent::EventSubmitted {
                automation_id,
                revision_id,
                event,
            } => kept.deep_view() == (domain::TraceEventModel::EventSubmitted {
                automation_id: automation_id.deep_view(),
                revision_id: *revision_id,
                event: event.deep_view(),
            }),
            domain::TraceEvent::StateAdvanced {
                automation_id,
                revision_id,
                response,
            } => kept.deep_view() == (domain::TraceEventModel::StateAdvanced {
                automation_id: automation_id.deep_view(),
                revision_id: *revision_id,
                response: response.deep_view(),
            }),
            domain::TraceEvent::WakeupScheduled {
                automation_id,
                revision_id,
                wakeup_id,
                at,
            } => kept.deep_view() == (domain::TraceEventModel::WakeupScheduled {
                automation_id: automation_id.deep_view(),
                revision_id: *revision_id,
                wakeup_id: wakeup_id.deep_view(),
                at: *at,
            }),
            domain::TraceEvent::WakeupCancelled {
                automation_id,
                revision_id,
                wakeup_id,
            } => kept.deep_view() == (domain::TraceEventModel::WakeupCancelled {
                automation_id: automation_id.deep_view(),
                revision_id: *revision_id,
                wakeup_id: wakeup_id.deep_view(),
            }),
            domain::TraceEvent::WakeupDispatched {
                automation_id,
                revision_id,
                wakeup_id,
                at,
            } => kept.deep_view() == (domain::TraceEventModel::WakeupDispatched {
                automation_id: automation_id.deep_view(),
                revision_id: *revision_id,
                wakeup_id: wakeup_id.deep_view(),
                at: *at,
            }),
            domain::TraceEvent::EffectRequested {
                automation_id,
                revision_id,
                effect_id,
                effect_kind,
            } => kept.deep_view() == (domain::TraceEventModel::EffectRequested {
                automation_id: automation_id.deep_view(),
                revision_id: *revision_id,
                effect_id: effect_id.deep_view(),
                effect_kind: effect_kind.deep_view(),
            }),
            domain::TraceEvent::EffectHandled {
                automation_id,
                revision_id,
                effect_id,
                follow_up_events,
            } => kept.deep_view() == (domain::TraceEventModel::EffectHandled {
                automation_id: automation_id.deep_view(),
                revision_id: *revision_id,
                effect_id: effect_id.deep_view(),
                follow_up_events: *follow_up_events,
            }),
        },
{
}

/// The model of a [`TraceRecord`](domain::TraceRecord) holds all that it holds itself.
pub proof fn trace_record_is_told_by_its_model(kept: &domain::TraceRecord)
    ensures
        kept.deep_view().at == kept.at,
        kept.deep_view().event == kept.event.deep_view(),
{
}

/// The model of a [`ControlPlaneState`](domain::ControlPlaneState) holds all that it holds itself.
pub proof fn control_plane_state_is_told_by_its_model(kept: &domain::ControlPlaneState)
    ensures
        kept.deep_view().automations == kept.automations.deep_view(),
        kept.deep_view().traces == kept.traces.deep_view(),
        kept.deep_view().next_revision_id == kept.next_revision_id,
{
}

/// The model of an [`EffectObservation`](domain::EffectObservation) holds all that it holds itself.
pub proof fn effect_observation_is_told_by_its_model(kept: &domain::EffectObservation)
    ensures
        match kept {
            domain::EffectObservation::Notification {
                effect_id,
                channel,
                title,
                body,
                metadata,
            } => kept.deep_view() == (domain::EffectObservationModel::Notification {
                effect_id: effect_id.deep_view(),
                channel: channel.deep_view(),
                title: title.deep_view(),
                body: body.deep_view(),
                metadata: metadata.deep_view(),
            }),
        },
{
}

/// The model of an [`EventSubmission`](domain::EventSubmission) holds all that it holds itself.
pub proof fn event_submission_is_told_by_its_model(kept: &domain::EventSubmission)
    ensures
        kept.deep_view().disposition == kept.disposition,
        kept.deep_view().observations == kept.observations.deep_view(),
{
}

/// The model of an [`EffectHandlerOutcome`](domain::EffectHandlerOutcome)
/// holds all that it holds itself.
pub proof fn effect_handler_outcome_is_told_by_its_model(kept: &domain::EffectHandlerOutcome)
    ensures
        kept.deep_view().follow_up_events == kept.follow_up_events.deep_view(),
        kept.deep_view().observations == kept.observations.deep_view(),
{
}

/// The model of a [`RegistrationRequest`](domain::RegistrationRequest)
/// holds all that it holds itself.
pub proof fn registration_request_is_told_by_its_model(kept: &domain::RegistrationRequest)
    ensures
        kept.deep_view().automation_id == kept.automation_id@,
        kept.deep_view().artifact_path == kept.artifact_path@,
        kept.deep_view().config == kept.config.deep_view(),
{
}

/// The model of a [`DriveAction`](drive::DriveAction) holds all that it holds itself.
pub proof fn drive_action_is_told_by_its_model(kept: &drive::DriveAction)
    ensures
        match kept {
            drive::DriveAction::AdvanceGuest { artifact_path, request } => kept.deep_view() == (
            drive::DriveActionModel::AdvanceGuest {
                artifact_path: artifact_path.deep_view(),
                request: request.deep_view(),
            }),
            drive::DriveAction::HandleEffect { revision_id, effect } => kept.deep_view() == (
            drive::DriveActionModel::HandleEffect {
                revision_id: *revision_id,
                effect: effect.deep_view(),
            }),
            drive::DriveAction::Finished(value) => kept.deep_view()
                == drive::DriveActionModel::Finished(value.deep_view()),
        },
{
}

/// The model of an [`EventDrive`](drive::EventDrive) holds all that it holds itself.
pub proof fn event_drive_is_told_by_its_model(kept: &drive::EventDrive)
    ensures
        kept.deep_view().automation_id == kept.automation_id@,
        kept.deep_view().now == kept.now,
        kept.deep_view().pending == kept.pending.deep_view(),
        kept.deep_view().revision_id == kept.revision_id,
        kept.deep_view().effects == kept.effects.deep_view(),
        kept.deep_view().disposition == kept.disposition,
        kept.deep_view().observations == kept.observations.deep_view(),
{
}

/// The model of a [`DueWakeup`](due::DueWakeup) holds all that it holds itself.
pub proof fn due_wakeup_is_told_by_its_model(kept: &due::DueWakeup)
    ensures
        kept.deep_view().automation_id == kept.automation_id@,
        kept.deep_view().revision_id == kept.revision_id,
        kept.deep_view().wakeup_id == kept.wakeup_id@,
        kept.deep_view().at == kept.at,
{
}

/// The model of a [`ProviderInvocation`](providers::ProviderInvocation)
/// holds all that it holds itself.
pub proof fn provider_invocation_is_told_by_its_model(kept: &providers::ProviderInvocation)
    ensures
        kept.deep_view().slug == kept.slug@,
        kept.deep_view().config == kept.config.deep_view(),
        kept.deep_view().input == kept.input.deep_view(),
{
}

/// The model of a [`ProviderInvocationResult`](providers::ProviderInvocationResult)
/// holds all that it holds itself.
pub proof fn provider_invocation_result_is_told_by_its_model(kept: &providers::ProviderInvocationResult)
    ensures
        match kept {
            providers::ProviderInvocationResult::Success { output } => kept.deep_view() == (
            providers::ProviderInvocationResultModel::Success {
                output: output.deep_view(),
            }),
            providers::ProviderInvocationResult::Failure { message } => kept.deep_view() == (
            providers::ProviderInvocationResultModel::Failure {
                message: message.deep_view(),
            }),
        },
{
}

/// The model of a [`BundleBuildStep`](providers::BundleBuildStep) holds all that it holds itself.
pub proof fn bundle_build_step_is_told_by_its_model(kept: &providers::BundleBuildStep)
    ensures
        match kept {
            providers::BundleBuildStep::Cargo {
                package,
                lib,
                bin,
                target,
                release,
                features,
            } => kept.deep_view() == (providers::BundleBuildStepModel::Cargo {
                package: package.deep_view(),
                lib: *lib,
                bin: bin.deep_view(),
                target: target.deep_view(),
                release: *release,
                features: features.deep_view(),
            }),
        },
{
}

/// The model of a [`CapabilityTransport`](providers::CapabilityTransport)
/// holds all that it holds itself.
pub proof fn capability_transport_is_told_by_its_model(kept: &providers::CapabilityTransport)
    ensures
        match kept {
            providers::CapabilityTransport::Command { program, args, env } => kept.deep_view() == (
            providers::CapabilityTransportModel::Command {
                program: program.deep_view(),
                args: args.deep_view(),
                env: env.deep_view(),
            }),
        },
{
}

/// The model of a [`CapabilityBinding`](providers::CapabilityBinding)
/// holds all that it holds itself.
pub proof fn capability_binding_is_told_by_its_model(kept: &providers::CapabilityBinding)
    ensures
        kept.deep_view().slug == kept.slug@,
        kept.deep_view().config == kept.config.deep_view(),
        kept.deep_view().transport == kept.transport.deep_view(),
{
}

/// The model of an [`AutomationBundleManifest`](providers::AutomationBundleManifest)
/// holds all that it holds itself.
pub proof fn automation_bundle_manifest_is_told_by_its_model(kept: &providers::AutomationBundleManifest)
    ensures
        kept.deep_view().name == kept.name@,
        kept.deep_view().artifact == kept.artifact@,
        kept.deep_view().trigger_subscriptions == kept.trigger_subscriptions.deep_view(),
        kept.deep_view().build_steps == kept.build_steps.deep_view(),
        kept.deep_view().tools == kept.tools.deep_view(),
        kept.deep_view().inference == kept.inference.deep_view(),
{
}

/// The model of a [`CommandJsonCapabilityProvider`](providers::CommandJsonCapabilityProvider)
/// holds all that it holds itself.
pub proof fn command_json_capability_provider_is_told_by_its_model(
    kept: &providers::CommandJsonCapabilityProvider,
)
    ensures
        kept.deep_view().program == kept.program@,
        kept.deep_view().args == kept.args.deep_view(),
        kept.deep_view().env == kept.env.deep_view(),
{
}

/// The model of a [`CommandOutput`](providers::CommandOutput) holds all that it holds itself.
pub proof fn command_output_is_told_by_its_model(kept: &providers::CommandOutput)
    ensures
        kept.deep_view().success == kept.success,
        kept.deep_view().status == kept.status@,
        kept.deep_view().stdout == kept.stdout.deep_view(),
        kept.deep_view().stderr == kept.stderr.deep_view(),
{
}

/// The model of a [`CapabilityProvider`](providers::CapabilityProvider)
/// holds all that it holds itself.
pub proof fn capability_provider_is_told_by_its_model<P>(kept: &providers::CapabilityProvider<P>)
    ensures
        match kept {
            providers::CapabilityProvider::Command(command) => kept.deep_view()
                == providers::CapabilityProviderModel::<P>::Command(command.deep_view()),
            providers::CapabilityProvider::Other(provider) => kept.deep_view()
                == providers::CapabilityProviderModel::Other(*provider),
        },
{
}

/// The model of a [`RegisteredCapability`](providers::RegisteredCapability)
/// holds all that it holds itself.
pub proof fn registered_capability_is_told_by_its_model<P>(kept: &providers::RegisteredCapability<P>)
    ensures
        kept.deep_view().config == kept.config.deep_view(),
        kept.deep_view().provider == kept.provider.deep_view(),
{
}

/// The model of an [`AutomationsError`](error::AutomationsError) holds all that it holds itself.
pub proof fn automations_error_is_told_by_its_model(kept: &error::AutomationsError)
    ensures
        match kept {
            error::AutomationsError::State(value) => kept.deep_view()
                == error::AutomationsErrorModel::State(value.deep_view()),
            error::AutomationsError::Io(value) => kept.deep_view()
                == error::AutomationsErrorModel::Io(value.deep_view()),
            error::AutomationsError::Guest(value) => kept.deep_view()
                == error::AutomationsErrorModel::Guest(value.deep_view()),
            error::AutomationsError::Provider(value) => kept.deep_view()
                == error::AutomationsErrorModel::Provider(value.deep_view()),
            error::AutomationsError::AutomationNotFound(value) => kept.deep_view()
                == error::AutomationsErrorModel::AutomationNotFound(value.deep_view()),
            error::AutomationsError::NoActiveRevision { automation_id } => kept.deep_view() == (
            error::AutomationsErrorModel::NoActiveRevision {
                automation_id: automation_id.deep_view(),
            }),
            error::AutomationsError::RevisionNotFound {
                automation_id,
                revision_id,
            } => kept.deep_view() == (error::AutomationsErrorModel::RevisionNotFound {
                automation_id: automation_id.deep_view(),
                revision_id: *revision_id,
            }),
            error::AutomationsError::IncompatibleState {
                automation_id,
                revision_id,
            } => kept.deep_view() == (error::AutomationsErrorModel::IncompatibleState {
                automation_id: automation_id.deep_view(),
                revision_id: *revision_id,
            }),
            error::AutomationsError::MissingCapability {
                automation_id,
                capability,
            } => kept.deep_view() == (error::AutomationsErrorModel::MissingCapability {
                automation_id: automation_id.deep_view(),
                capability: capability.deep_view(),
            }),
        },
{
}

/// The model of a [`BundleTriggerEvent`](bundle_host::BundleTriggerEvent)
/// holds all that it holds itself.
pub proof fn bundle_trigger_event_is_told_by_its_model(kept: &bundle_host::BundleTriggerEvent)
    ensures
        kept.deep_view().name == kept.name@,
        kept.deep_view().payload == kept.payload.deep_view(),
{
}

/// The model of a [`BundleDispatchOutcome`](bundle_host::BundleDispatchOutcome)
/// holds all that it holds itself.
pub proof fn bundle_dispatch_outcome_is_told_by_its_model(kept: &bundle_host::BundleDispatchOutcome)
    ensures
        kept.deep_view().handled_automations == kept.handled_automations.deep_view(),
        kept.deep_view().observations == kept.observations.deep_view(),
{
}

/// The model of a [`BundleActivation`](bundle_host::BundleActivation)
/// holds all that it holds itself.
pub proof fn bundle_activation_is_told_by_its_model(kept: &bundle_host::BundleActivation)
    ensures
        match kept {
            bundle_host::BundleActivation::Active => kept.deep_view()
                == bundle_host::BundleActivationModel::Active,
            bundle_host::BundleActivation::Activate { revision_id } => kept.deep_view() == (
            bundle_host::BundleActivationModel::Activate {
                revision_id: *revision_id,
            }),
            bundle_host::BundleActivation::Register(value) => kept.deep_view()
                == bundle_host::BundleActivationModel::Register(value.deep_view()),
        },
{
}

/// The model of a [`BundleStart`](bundle_host::BundleStart) holds all that it holds itself.
pub proof fn bundle_start_is_told_by_its_model(kept: &bundle_host::BundleStart)
    ensures
        match kept {
            bundle_host::BundleStart::Active => kept.deep_view()
                == bundle_host::BundleStartModel::Active,
            bundle_host::BundleStart::Started(drive) => kept.deep_view()
                == bundle_host::BundleStartModel::Started(drive.deep_view()),
            bundle_host::BundleStart::Register(request) => kept.deep_view()
                == bundle_host::BundleStartModel::Register(request.deep_view()),
        },
{
}

/// The model of an [`EffectPlan`](bundle_host::EffectPlan) holds all that it holds itself.
pub proof fn effect_plan_is_told_by_its_model<'a, P>(kept: &bundle_host::EffectPlan<'a, P>)
    ensures
        match kept {
            bundle_host::EffectPlan::Done(value) => kept.deep_view()
                == bundle_host::EffectPlanModel::<P>::Done(value.deep_view()),
            bundle_host::EffectPlan::Invoke { provider, invocation } => kept.deep_view() == (
            bundle_host::EffectPlanModel::Invoke {
                provider: (**provider).deep_view(),
                invocation: invocation.deep_view(),
            }),
            bundle_host::EffectPlan::Unsupported => kept.deep_view()
                == bundle_host::EffectPlanModel::<P>::Unsupported,
        },
{
}

}
