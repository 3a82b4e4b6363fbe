//! What the models of activations hold.

use crate::automation_control::{error, store};
use vstd::prelude::*;

verus! {

/// The model of a [`ControlPlaneError`](error::ControlPlaneError) holds all that it holds itself.
pub proof fn control_plane_error_is_told_by_its_model(kept: &error::ControlPlaneError)
    ensures
        match kept {
            error::ControlPlaneError::Store(value) => kept.deep_view()
                == error::ControlPlaneErrorModel::Store(value.deep_view()),
            error::ControlPlaneError::Runtime(value) => kept.deep_view()
                == error::ControlPlaneErrorModel::Runtime(value.deep_view()),
            error::ControlPlaneError::Artifact(value) => kept.deep_view()
                == error::ControlPlaneErrorModel::Artifact(value.deep_view()),
            error::ControlPlaneError::RevisionNotFound(value) => kept.deep_view()
                == error::ControlPlaneErrorModel::RevisionNotFound(*value),
            error::ControlPlaneError::ActivationNotFound(value) => kept.deep_view()
                == error::ControlPlaneErrorModel::ActivationNotFound(*value),
            error::ControlPlaneError::AbiVersionMismatch {
                expected,
                actual,
            } => kept.deep_view() == (error::ControlPlaneErrorModel::AbiVersionMismatch {
                expected: *expected,
                actual: *actual,
            }),
        },
{
}

/// The model of a [`RegisteredRevision`](store::RegisteredRevision) holds all that it holds itself.
pub proof fn registered_revision_is_told_by_its_model(kept: &store::RegisteredRevision)
    ensures
        kept.deep_view().revision_id == kept.revision_id,
        kept.deep_view().artifact_hash == kept.artifact_hash@,
        kept.deep_view().artifact_path == kept.artifact_path@,
        kept.deep_view().registration == kept.registration.deep_view(),
{
}

/// The model of a [`Wakeup`](store::Wakeup) holds all that it holds itself.
pub proof fn wakeup_is_told_by_its_model(kept: &store::Wakeup)
    ensures
        kept.deep_view().token == kept.token@,
        kept.deep_view().at == kept.at,
{
}

/// The model of an [`ActivationTraceRecord`](store::ActivationTraceRecord)
/// holds all that it holds itself.
pub proof fn activation_trace_record_is_told_by_its_model(kept: &store::ActivationTraceRecord)
    ensures
        kept.deep_view().at == kept.at,
        kept.deep_view().event == kept.event.deep_view(),
        kept.deep_view().commands == kept.commands.deep_view(),
        kept.deep_view().guest_trace == kept.guest_trace.deep_view(),
{
}

/// The model of an [`ActivationRecord`](store::ActivationRecord) holds all that it holds itself.
pub proof fn activation_record_is_told_by_its_model(kept: &store::ActivationRecord)
    ensures
        kept.deep_view().activation_id == kept.activation_id,
        kept.deep_view().revision_id == kept.revision_id,
        kept.deep_view().profile == kept.profile.deep_view(),
        kept.deep_view().state == kept.state.deep_view(),
        kept.deep_view().wakeups == kept.wakeups.deep_view(),
        kept.deep_view().trace_log == kept.trace_log.deep_view(),
{
}

/// The model of a [`ControlPlaneState`](store::ControlPlaneState) holds all that it holds itself.
pub proof fn control_plane_state_is_told_by_its_model(kept: &store::ControlPlaneState)
    ensures
        kept.deep_view().revisions == kept.revisions.deep_view(),
        kept.deep_view().activations == kept.activations.deep_view(),
        kept.deep_view().next_revision_id == kept.next_revision_id,
        kept.deep_view().next_activation_id == kept.next_activation_id,
{
}

}
