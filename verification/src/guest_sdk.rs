//! The guest side of automations.
//!
//! A guest implements [`Automation`]. The host reaches it through encoded requests;
//! what lies between decoding and encoding is here.

use crate::json::{JsonModel, JsonValue};
use crate::json_text::{json_string, json_string_text};
use crate::model::FaithfulClone;
use crate::protocol::{
    AdvanceRequest, AdvanceResponse, AdvanceResponseModel, AutomationDescriptor, AutomationEvent,
    EffectKind, EffectRequest, EffectRequestModel, EventDisposition, RegistrationResponse,
    RegistrationResponseModel,
};
use vstd::prelude::*;

verus! {

/// What a guest is told besides its state and the event.
#[derive(Debug, PartialEq)]
pub struct GuestContext {
    pub automation_id: String,
    pub revision_id: u64,
    pub now: i64,
    pub config: JsonValue,
}

/// What a [`GuestContext`] holds.
#[verifier::ext_equal]
pub struct GuestContextModel {
    pub automation_id: Seq<char>,
    pub revision_id: u64,
    pub now: i64,
    pub config: JsonModel,
}

impl DeepView for GuestContext {
    type V = GuestContextModel;

    open spec fn deep_view(&self) -> GuestContextModel {
        GuestContextModel {
            automation_id: self.automation_id.deep_view(),
            revision_id: self.revision_id,
            now: self.now,
            config: self.config.deep_view(),
        }
    }
}

impl Clone for GuestContext {
    fn clone(&self) -> (copy: Self)
        ensures
            copy.deep_view() == self.deep_view(),
    {
        let copy = GuestContext {
            automation_id: self.automation_id.clone(),
            revision_id: self.revision_id,
            now: self.now,
            config: self.config.clone(),
        };
        copy
    }
}

impl FaithfulClone for GuestContext {
    proof fn clone_keeps_model(original: Self, copy: Self) {
    }
}

/// What a guest makes of an event.
#[derive(Debug, Clone, PartialEq)]
pub struct Decision<S> {
    pub state: S,
    pub effects: Vec<EffectRequest>,
    pub status: Option<String>,
    pub disposition: EventDisposition,
}

impl<S> Decision<S> {
    /// Go on with `state` and ask for nothing.
    pub fn new(state: S) -> (decision: Self)
        ensures
            decision.state == state,
            decision.effects@.len() == 0,
            decision.status is None,
            decision.disposition == EventDisposition::Handled,
    {
        Decision {
            state,
            effects: Vec::new(),
            status: None,
            disposition: EventDisposition::Handled,
        }
    }

    /// This decision, with `effect` asked for after the others.
    pub fn with_effect(self, effect: EffectRequest) -> (decision: Self)
        ensures
            decision.effects@ == self.effects@.push(effect),
            decision.state == self.state,
            decision.status == self.status,
            decision.disposition == self.disposition,
    {
        let mut decision = self;
        decision.effects.push(effect);
        decision
    }

    /// This decision under another status.
    pub fn with_status(self, status: String) -> (decision: Self)
        ensures
            decision == (Decision { status: Some(status), ..self }),
    {
        let mut decision = self;
        decision.status = Some(status);
        decision
    }

    /// This decision, with the event taken up.
    pub fn handled(self) -> (decision: Self)
        ensures
            decision == (Decision { disposition: EventDisposition::Handled, ..self }),
    {
        let mut decision = self;
        decision.disposition = EventDisposition::Handled;
        decision
    }

    /// This decision, with the event left to others.
    pub fn unhandled(self) -> (decision: Self)
        ensures
            decision == (Decision { disposition: EventDisposition::Unhandled, ..self }),
    {
        let mut decision = self;
        decision.disposition = EventDisposition::Unhandled;
        decision
    }
}

/// An automation as its author writes it.
pub trait Automation: Sized {
    /// What the automation remembers between events.
    type State;

    /// What the automation says of itself.
    fn descriptor(&self) -> AutomationDescriptor;

    /// What the automation remembers at first.
    fn initial_state(&self) -> Self::State;

    /// What the automation makes of one event, or why it rejects it.
    fn reduce(
        &self,
        state: Self::State,
        event: AutomationEvent,
        ctx: GuestContext,
    ) -> Result<Decision<Self::State>, String>;
}

/// Why a guest cannot answer.
#[derive(Debug, PartialEq)]
pub enum GuestSdkError {
    RegistrationEncode(String),
    AdvanceEncode(String),
    AdvanceDecode(String),
    StateEncode(String),
    StateDecode(String),
    Automation(String),
}

/// What a [`GuestSdkError`] holds.
#[verifier::ext_equal]
pub enum GuestSdkErrorModel {
    RegistrationEncode(Seq<char>),
    AdvanceEncode(Seq<char>),
    AdvanceDecode(Seq<char>),
    StateEncode(Seq<char>),
    StateDecode(Seq<char>),
    Automation(Seq<char>),
}

impl DeepView for GuestSdkError {
    type V = GuestSdkErrorModel;

    open spec fn deep_view(&self) -> GuestSdkErrorModel {
        match self {
            GuestSdkError::RegistrationEncode(value) => GuestSdkErrorModel::RegistrationEncode(value.deep_view()),
            GuestSdkError::AdvanceEncode(value) => GuestSdkErrorModel::AdvanceEncode(value.deep_view()),
            GuestSdkError::AdvanceDecode(value) => GuestSdkErrorModel::AdvanceDecode(value.deep_view()),
            GuestSdkError::StateEncode(value) => GuestSdkErrorModel::StateEncode(value.deep_view()),
            GuestSdkError::StateDecode(value) => GuestSdkErrorModel::StateDecode(value.deep_view()),
            GuestSdkError::Automation(value) => GuestSdkErrorModel::Automation(value.deep_view()),
        }
    }
}

impl Clone for GuestSdkError {
    fn clone(&self) -> (copy: Self)
        ensures
            copy.deep_view() == self.deep_view(),
    {
        match self {
            GuestSdkError::RegistrationEncode(value) => GuestSdkError::RegistrationEncode(value.clone()),
            GuestSdkError::AdvanceEncode(value) => GuestSdkError::AdvanceEncode(value.clone()),
            GuestSdkError::AdvanceDecode(value) => GuestSdkError::AdvanceDecode(value.clone()),
            GuestSdkError::StateEncode(value) => GuestSdkError::StateEncode(value.clone()),
            GuestSdkError::StateDecode(value) => GuestSdkError::StateDecode(value.clone()),
            GuestSdkError::Automation(value) => GuestSdkError::Automation(value.clone()),
        }
    }
}

impl FaithfulClone for GuestSdkError {
    proof fn clone_keeps_model(original: Self, copy: Self) {
    }
}

impl GuestSdkErrorModel {
    /// The error as a sentence.
    pub open spec fn sentence(self) -> Seq<char> {
        match self {
            GuestSdkErrorModel::RegistrationEncode(
                reason,
            ) => "failed to serialize registration response: "@ + reason,
            GuestSdkErrorModel::AdvanceEncode(reason) => "failed to serialize advance response: "@
                + reason,
            GuestSdkErrorModel::AdvanceDecode(reason) => "failed to decode advance request: "@
                + reason,
            GuestSdkErrorModel::StateEncode(reason) => "failed to encode state as JSON: "@ + reason,
            GuestSdkErrorModel::StateDecode(reason) => "failed to decode state from JSON: "@
                + reason,
            GuestSdkErrorModel::Automation(reason) => "automation returned an error: "@ + reason,
        }
    }
}

impl GuestSdkError {
    /// The error as a sentence.
    pub fn message(&self) -> (text: String)
        ensures
            text@ == self.deep_view().sentence(),
    {
        match self {
            GuestSdkError::RegistrationEncode(
                reason,
            ) => "failed to serialize registration response: ".to_string().concat(reason.as_str()),
            GuestSdkError::AdvanceEncode(
                reason,
            ) => "failed to serialize advance response: ".to_string().concat(reason.as_str()),
            GuestSdkError::AdvanceDecode(
                reason,
            ) => "failed to decode advance request: ".to_string().concat(reason.as_str()),
            GuestSdkError::StateEncode(
                reason,
            ) => "failed to encode state as JSON: ".to_string().concat(reason.as_str()),
            GuestSdkError::StateDecode(
                reason,
            ) => "failed to decode state from JSON: ".to_string().concat(reason.as_str()),
            GuestSdkError::Automation(
                reason,
            ) => "automation returned an error: ".to_string().concat(reason.as_str()),
        }
    }
}

/// The registration of an automation whose first state is encoded as
/// `initial_state`.
pub fn registration_response(
    descriptor: AutomationDescriptor,
    initial_state: JsonValue,
) -> (response: RegistrationResponse)
    ensures
        response.deep_view() == (RegistrationResponseModel {
            descriptor: descriptor.deep_view(),
            initial_state: initial_state.deep_view(),
        }),
{
    RegistrationResponse { descriptor, initial_state }
}

/// What a guest is told of a request besides its state and the event.
pub open spec fn context_of(request: AdvanceRequest) -> GuestContext {
    GuestContext {
        automation_id: request.automation_id,
        revision_id: request.revision_id,
        now: request.now,
        config: request.config,
    }
}

/// Have the automation reduce a request whose state was decoded to `state`.
///
/// The automation gets the event of the request and its context. What it decides
/// is handed on as it is.
pub fn advance<A: Automation>(automation: &A, state: A::State, request: AdvanceRequest) -> (result:
    Result<Decision<A::State>, GuestSdkError>)
    ensures
        exists|answer: Result<Decision<A::State>, String>|
            {
                &&& #[trigger] call_ensures(
                    A::reduce,
                    (automation, state, request.event, context_of(request)),
                    answer,
                )
                &&& match answer {
                    Ok(decision) => result == Ok::<Decision<A::State>, GuestSdkError>(decision),
                    Err(reason) => result is Err && result->Err_0.deep_view()
                        == GuestSdkErrorModel::Automation(reason@),
                }
            },
{
    let ctx = GuestContext {
        automation_id: request.automation_id,
        revision_id: request.revision_id,
        now: request.now,
        config: request.config,
    };
    match automation.reduce(state, request.event, ctx) {
        Ok(decision) => Ok(decision),
        Err(reason) => Err(GuestSdkError::Automation(reason)),
    }
}

/// The response for a decision whose state was encoded as `state`.
pub fn advance_response<S>(decision: Decision<S>, state: JsonValue) -> (response: AdvanceResponse)
    ensures
        response.deep_view() == (AdvanceResponseModel {
            state: state.deep_view(),
            effects: decision.effects.deep_view(),
            status: decision.status.deep_view(),
            disposition: decision.disposition,
        }),
{
    AdvanceResponse {
        state,
        effects: decision.effects,
        status: decision.status,
        disposition: decision.disposition,
    }
}

/// The envelope that reports an error, as it crosses the boundary.
pub open spec fn error_envelope(message: Seq<char>) -> Seq<char> {
    "{\"Err\":"@ + json_string(message) + "}"@
}

fn error_payload(message: &str) -> (payload: String)
    ensures
        payload@ == error_envelope(message@),
{
    "{\"Err\":".to_string().concat(json_string_text(message).as_str()).concat("}")
}

/// The encoded envelope of a registration that failed.
pub fn error_registration_payload(message: &str) -> (payload: String)
    ensures
        payload@ == error_envelope(message@),
{
    error_payload(message)
}

/// The encoded envelope of a transition that failed.
pub fn error_advance_payload(message: &str) -> (payload: String)
    ensures
        payload@ == error_envelope(message@),
{
    error_payload(message)
}

/// Ask for the effect `kind` under the name `effect_id`.
pub fn effect(effect_id: String, kind: EffectKind) -> (request: EffectRequest)
    ensures
        request.deep_view() == (EffectRequestModel {
            effect_id: effect_id@,
            kind: kind.deep_view(),
        }),
{
    EffectRequest::new(effect_id, kind)
}

/// Each error says what failed, and why.
pub proof fn errors_say_what_failed(reason: Seq<char>)
    ensures
        GuestSdkErrorModel::RegistrationEncode(reason).sentence()
            == "failed to serialize registration response: "@ + reason,
        GuestSdkErrorModel::AdvanceEncode(reason).sentence()
            == "failed to serialize advance response: "@ + reason,
        GuestSdkErrorModel::AdvanceDecode(reason).sentence()
            == "failed to decode advance request: "@ + reason,
        GuestSdkErrorModel::StateEncode(reason).sentence() == "failed to encode state as JSON: "@
            + reason,
        GuestSdkErrorModel::StateDecode(reason).sentence() == "failed to decode state from JSON: "@
            + reason,
        GuestSdkErrorModel::Automation(reason).sentence() == "automation returned an error: "@
            + reason,
{
}

/// An automation is told who it is, which of its revisions runs, what time it is and how
/// it is configured, as the request says.
pub proof fn automation_is_told_of_its_request(request: AdvanceRequest)
    ensures
        context_of(request).automation_id == request.automation_id,
        context_of(request).revision_id == request.revision_id,
        context_of(request).now == request.now,
        context_of(request).config == request.config,
{
}

/// A failure crosses the boundary as an object with its message under `Err`.
pub proof fn failures_cross_under_their_name(message: Seq<char>)
    ensures
        error_envelope(message) == "{\"Err\":"@ + json_string(message) + "}"@,
{
}

}
