//! The ways in which the control plane and its parts fail.

use crate::model::FaithfulClone;
use crate::text::{decimal, decimal_text};
use vstd::prelude::*;

verus! {

/// A failure of the control plane.
#[derive(Debug, PartialEq)]
pub enum AutomationsError {
    State(String),
    Io(String),
    Guest(String),
    Provider(String),
    AutomationNotFound(String),
    NoActiveRevision { automation_id: String },
    RevisionNotFound {
        automation_id: String,
        revision_id: u64,
    },
    IncompatibleState {
        automation_id: String,
        revision_id: u64,
    },
    MissingCapability {
        automation_id: String,
        capability: String,
    },
}

/// What a [`AutomationsError`] holds.
#[verifier::ext_equal]
pub enum AutomationsErrorModel {
    State(Seq<char>),
    Io(Seq<char>),
    Guest(Seq<char>),
    Provider(Seq<char>),
    AutomationNotFound(Seq<char>),
    NoActiveRevision { automation_id: Seq<char> },
    RevisionNotFound {
        automation_id: Seq<char>,
        revision_id: u64,
    },
    IncompatibleState {
        automation_id: Seq<char>,
        revision_id: u64,
    },
    MissingCapability {
        automation_id: Seq<char>,
        capability: Seq<char>,
    },
}

impl DeepView for AutomationsError {
    type V = AutomationsErrorModel;

    open spec fn deep_view(&self) -> AutomationsErrorModel {
        match self {
            AutomationsError::State(value) => AutomationsErrorModel::State(value.deep_view()),
            AutomationsError::Io(value) => AutomationsErrorModel::Io(value.deep_view()),
            AutomationsError::Guest(value) => AutomationsErrorModel::Guest(value.deep_view()),
            AutomationsError::Provider(value) => AutomationsErrorModel::Provider(value.deep_view()),
            AutomationsError::AutomationNotFound(value) => AutomationsErrorModel::AutomationNotFound(value.deep_view()),
            AutomationsError::NoActiveRevision { automation_id } => AutomationsErrorModel::NoActiveRevision {
                automation_id: automation_id.deep_view(),
            },
            AutomationsError::RevisionNotFound { automation_id, revision_id } => AutomationsErrorModel::RevisionNotFound {
                automation_id: automation_id.deep_view(),
                revision_id: *revision_id,
            },
            AutomationsError::IncompatibleState { automation_id, revision_id } => AutomationsErrorModel::IncompatibleState {
                automation_id: automation_id.deep_view(),
                revision_id: *revision_id,
            },
            AutomationsError::MissingCapability { automation_id, capability } => AutomationsErrorModel::MissingCapability {
                automation_id: automation_id.deep_view(),
                capability: capability.deep_view(),
            },
        }
    }
}

impl Clone for AutomationsError {
    fn clone(&self) -> (copy: Self)
        ensures
            copy.deep_view() == self.deep_view(),
    {
        match self {
            AutomationsError::State(value) => AutomationsError::State(value.clone()),
            AutomationsError::Io(value) => AutomationsError::Io(value.clone()),
            AutomationsError::Guest(value) => AutomationsError::Guest(value.clone()),
            AutomationsError::Provider(value) => AutomationsError::Provider(value.clone()),
            AutomationsError::AutomationNotFound(value) => AutomationsError::AutomationNotFound(value.clone()),
            AutomationsError::NoActiveRevision { automation_id } => AutomationsError::NoActiveRevision {
                automation_id: automation_id.clone(),
            },
            AutomationsError::RevisionNotFound { automation_id, revision_id } => AutomationsError::RevisionNotFound {
                automation_id: automation_id.clone(),
                revision_id: *revision_id,
            },
            AutomationsError::IncompatibleState { automation_id, revision_id } => AutomationsError::IncompatibleState {
                automation_id: automation_id.clone(),
                revision_id: *revision_id,
            },
            AutomationsError::MissingCapability { automation_id, capability } => AutomationsError::MissingCapability {
                automation_id: automation_id.clone(),
                capability: capability.clone(),
            },
        }
    }
}

impl FaithfulClone for AutomationsError {
    proof fn clone_keeps_model(original: Self, copy: Self) {
    }
}

impl AutomationsErrorModel {
    /// The error as a sentence.
    pub open spec fn sentence(self) -> Seq<char> {
        match self {
            AutomationsErrorModel::State(reason) => "state backend failed: "@ + reason,
            AutomationsErrorModel::Io(reason) => "control plane I/O failed: "@ + reason,
            AutomationsErrorModel::Guest(reason) => "wasm guest failed: "@ + reason,
            AutomationsErrorModel::Provider(reason) => "provider invocation failed: "@ + reason,
            AutomationsErrorModel::AutomationNotFound(automation_id) => "automation `"@
                + automation_id + "` was not found"@,
            AutomationsErrorModel::NoActiveRevision { automation_id } => "automation `"@
                + automation_id + "` has no active revision"@,
            AutomationsErrorModel::RevisionNotFound { automation_id, revision_id } => "revision "@
                + decimal(revision_id as nat) + " for automation `"@ + automation_id
                + "` was not found"@,
            AutomationsErrorModel::IncompatibleState { automation_id, revision_id } => "revision "@
                + decimal(revision_id as nat) + " for automation `"@ + automation_id
                + "` is incompatible with the current state"@,
            AutomationsErrorModel::MissingCapability { automation_id, capability } => "automation `"@
                + automation_id + "` does not declare capability `"@ + capability + "`"@,
        }
    }
}

impl AutomationsError {
    /// The error as a sentence.
    pub fn message(&self) -> (text: String)
        ensures
            text@ == self.deep_view().sentence(),
    {
        match self {
            AutomationsError::State(reason) => "state backend failed: ".to_string().concat(
                reason.as_str(),
            ),
            AutomationsError::Io(reason) => "control plane I/O failed: ".to_string().concat(
                reason.as_str(),
            ),
            AutomationsError::Guest(reason) => "wasm guest failed: ".to_string().concat(
                reason.as_str(),
            ),
            AutomationsError::Provider(reason) => "provider invocation failed: ".to_string().concat(
                reason.as_str(),
            ),
            AutomationsError::AutomationNotFound(automation_id) => "automation `".to_string().concat(
                automation_id.as_str(),
            ).concat("` was not found"),
            AutomationsError::NoActiveRevision { automation_id } => "automation `".to_string().concat(
                automation_id.as_str(),
            ).concat("` has no active revision"),
            AutomationsError::RevisionNotFound {
                automation_id,
                revision_id,
            } => "revision ".to_string().concat(decimal_text(*revision_id).as_str()).concat(
                " for automation `",
            ).concat(automation_id.as_str()).concat("` was not found"),
            AutomationsError::IncompatibleState {
                automation_id,
                revision_id,
            } => "revision ".to_string().concat(decimal_text(*revision_id).as_str()).concat(
                " for automation `",
            ).concat(automation_id.as_str()).concat("` is incompatible with the current state"),
            AutomationsError::MissingCapability {
                automation_id,
                capability,
            } => "automation `".to_string().concat(automation_id.as_str()).concat(
                "` does not declare capability `",
            ).concat(capability.as_str()).concat("`"),
        }
    }
}

}
