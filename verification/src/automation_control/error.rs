//! The ways in which activations and their parts fail.

use crate::model::FaithfulClone;
use crate::text::{decimal, decimal_text};
use vstd::prelude::*;

verus! {

/// A failure of the activation control plane.
#[derive(Debug, PartialEq)]
pub enum ControlPlaneError {
    Store(String),
    Runtime(String),
    Artifact(String),
    RevisionNotFound(u64),
    ActivationNotFound(u64),
    AbiVersionMismatch {
        expected: u32,
        actual: u32,
    },
}

/// What a [`ControlPlaneError`] holds.
#[verifier::ext_equal]
pub enum ControlPlaneErrorModel {
    Store(Seq<char>),
    Runtime(Seq<char>),
    Artifact(Seq<char>),
    RevisionNotFound(u64),
    ActivationNotFound(u64),
    AbiVersionMismatch {
        expected: u32,
        actual: u32,
    },
}

impl DeepView for ControlPlaneError {
    type V = ControlPlaneErrorModel;

    open spec fn deep_view(&self) -> ControlPlaneErrorModel {
        match self {
            ControlPlaneError::Store(value) => ControlPlaneErrorModel::Store(value.deep_view()),
            ControlPlaneError::Runtime(value) => ControlPlaneErrorModel::Runtime(value.deep_view()),
            ControlPlaneError::Artifact(value) => ControlPlaneErrorModel::Artifact(value.deep_view()),
            ControlPlaneError::RevisionNotFound(value) => ControlPlaneErrorModel::RevisionNotFound(*value),
            ControlPlaneError::ActivationNotFound(value) => ControlPlaneErrorModel::ActivationNotFound(*value),
            ControlPlaneError::AbiVersionMismatch { expected, actual } => ControlPlaneErrorModel::AbiVersionMismatch {
                expected: *expected,
                actual: *actual,
            },
        }
    }
}

impl Clone for ControlPlaneError {
    fn clone(&self) -> (copy: Self)
        ensures
            copy.deep_view() == self.deep_view(),
    {
        match self {
            ControlPlaneError::Store(value) => ControlPlaneError::Store(value.clone()),
            ControlPlaneError::Runtime(value) => ControlPlaneError::Runtime(value.clone()),
            ControlPlaneError::Artifact(value) => ControlPlaneError::Artifact(value.clone()),
            ControlPlaneError::RevisionNotFound(value) => ControlPlaneError::RevisionNotFound(*value),
            ControlPlaneError::ActivationNotFound(value) => ControlPlaneError::ActivationNotFound(*value),
            ControlPlaneError::AbiVersionMismatch { expected, actual } => ControlPlaneError::AbiVersionMismatch {
                expected: *expected,
                actual: *actual,
            },
        }
    }
}

impl FaithfulClone for ControlPlaneError {
    proof fn clone_keeps_model(original: Self, copy: Self) {
    }
}

impl ControlPlaneErrorModel {
    /// The error as a sentence.
    pub open spec fn sentence(self) -> Seq<char> {
        match self {
            ControlPlaneErrorModel::Store(reason) => "store failed: "@ + reason,
            ControlPlaneErrorModel::Runtime(reason) => "runtime failed: "@ + reason,
            ControlPlaneErrorModel::Artifact(reason) => "artifact store failed: "@ + reason,
            ControlPlaneErrorModel::RevisionNotFound(revision_id) => "revision "@ + decimal(
                revision_id as nat,
            ) + " was not found"@,
            ControlPlaneErrorModel::ActivationNotFound(activation_id) => "activation "@ + decimal(
                activation_id as nat,
            ) + " was not found"@,
            ControlPlaneErrorModel::AbiVersionMismatch {
                expected,
                actual,
            } => "guest ABI version mismatch: expected "@ + decimal(expected as nat) + ", got "@
                + decimal(actual as nat),
        }
    }
}

impl ControlPlaneError {
    /// The error as a sentence.
    pub fn message(&self) -> (text: String)
        ensures
            text@ == self.deep_view().sentence(),
    {
        match self {
            ControlPlaneError::Store(reason) => "store failed: ".to_string().concat(
                reason.as_str(),
            ),
            ControlPlaneError::Runtime(reason) => "runtime failed: ".to_string().concat(
                reason.as_str(),
            ),
            ControlPlaneError::Artifact(reason) => "artifact store failed: ".to_string().concat(
                reason.as_str(),
            ),
            ControlPlaneError::RevisionNotFound(revision_id) => "revision ".to_string().concat(
                decimal_text(*revision_id).as_str(),
            ).concat(" was not found"),
            ControlPlaneError::ActivationNotFound(activation_id) => "activation ".to_string().concat(
                decimal_text(*activation_id).as_str(),
            ).concat(" was not found"),
            ControlPlaneError::AbiVersionMismatch {
                expected,
                actual,
            } => "guest ABI version mismatch: expected ".to_string().concat(
                decimal_text(*expected as u64).as_str(),
            ).concat(", got ").concat(decimal_text(*actual as u64).as_str()),
        }
    }
}

/// Each error says what failed, and with what.
pub proof fn errors_say_what_failed(reason: Seq<char>, id: u64, expected: u32, actual: u32)
    ensures
        ControlPlaneErrorModel::Store(reason).sentence() == "store failed: "@ + reason,
        ControlPlaneErrorModel::Runtime(reason).sentence() == "runtime failed: "@ + reason,
        ControlPlaneErrorModel::Artifact(reason).sentence() == "artifact store failed: "@ + reason,
        ControlPlaneErrorModel::RevisionNotFound(id).sentence() == "revision "@ + decimal(
            id as nat,
        ) + " was not found"@,
        ControlPlaneErrorModel::ActivationNotFound(id).sentence() == "activation "@ + decimal(
            id as nat,
        ) + " was not found"@,
        (ControlPlaneErrorModel::AbiVersionMismatch { expected, actual }).sentence()
            == "guest ABI version mismatch: expected "@ + decimal(expected as nat) + ", got "@
            + decimal(actual as nat),
{
}

}
