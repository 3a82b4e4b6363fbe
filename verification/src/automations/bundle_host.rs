//! The host of automation bundles: which bundle takes which trigger, and what the
//! effects of a bundle lead to.

use crate::automations::clock::Clock;
use crate::automations::control_plane::AutomationsControlPlane;
use crate::automations::domain::{
    ActivationMode, ControlPlaneStateModel, EffectHandlerOutcome, EffectHandlerOutcomeModel,
    EffectObservation, EffectObservationModel, EventSubmission, EventSubmissionModel,
    ManagedAutomation, ManagedAutomationModel, RegisteredRevisionModel, RegistrationRequest,
    RegistrationRequestModel, RevisionId, TraceRecord,
};
use crate::automations::drive::{EventDrive, EventDriveModel};
use crate::automations::error::{AutomationsError, AutomationsErrorModel};
use crate::automations::guest::WasmAutomationRuntime;
use crate::automations::laws::{
    activation_takes_a_registered_revision, answer_is_taken_over, consistent, leaves_others,
    registration_adds_a_revision_and_activates_nothing, trace_goes_on,
};
use crate::automations::providers::{
    bound_all, invocation_for, AutomationBundleManifest, AutomationBundleManifestModel,
    CapabilityBinding, CapabilityBindingModel, CapabilityProvider, CapabilityProviderModel,
    CapabilityRegistry, InferenceRegistry, ProviderInvocation, ProviderInvocationModel,
    RegisteredCapabilityModel, ToolRegistry,
};
use crate::automations::store::{committed, ControlPlaneStore};
use crate::automations::transitions::{
    activated, automation_in, effect_recorded, persisted, registered, revision_in,
};
use crate::digest::sha256_hex;
use crate::json::{JsonModel, JsonObject, JsonValue};
use crate::model::FaithfulClone;
use crate::ordered_map::{
    agree_up_to, has_key_means_present, in_key_order, lemma_slot_of_entry, lookup,
    slot_is_unique, splits, text_before, with_entry, with_entry_is_read_back, OrderedMap,
};
use crate::protocol::{
    AdvanceResponseModel, AutomationEvent, AutomationEventModel, EffectKind, EffectKindModel,
    EffectRequest, EffectRequestModel, EffectResult, EffectResultModel, EventDisposition,
    RegistrationResponse, RegistrationResponseModel,
};
use crate::wasm::has_default_configuration;
use vstd::prelude::*;

verus! {

/// A runtime trigger with its payload.
#[derive(Debug, PartialEq)]
pub struct BundleTriggerEvent {
    pub name: String,
    pub payload: JsonValue,
}

/// What a [`BundleTriggerEvent`] holds.
#[verifier::ext_equal]
pub struct BundleTriggerEventModel {
    pub name: Seq<char>,
    pub payload: JsonModel,
}

impl DeepView for BundleTriggerEvent {
    type V = BundleTriggerEventModel;

    open spec fn deep_view(&self) -> BundleTriggerEventModel {
        BundleTriggerEventModel {
            name: self.name.deep_view(),
            payload: self.payload.deep_view(),
        }
    }
}

impl Clone for BundleTriggerEvent {
    fn clone(&self) -> (copy: Self)
        ensures
            copy.deep_view() == self.deep_view(),
    {
        let copy = BundleTriggerEvent {
            name: self.name.clone(),
            payload: self.payload.clone(),
        };
        copy
    }
}

impl FaithfulClone for BundleTriggerEvent {
    proof fn clone_keeps_model(original: Self, copy: Self) {
    }
}

/// What the bundles made of some triggers.
#[derive(Debug, PartialEq)]
pub struct BundleDispatchOutcome {
    pub handled_automations: Vec<String>,
    pub observations: Vec<EffectObservation>,
}

/// What a [`BundleDispatchOutcome`] holds.
#[verifier::ext_equal]
pub struct BundleDispatchOutcomeModel {
    pub handled_automations: Seq<Seq<char>>,
    pub observations: Seq<EffectObservationModel>,
}

impl DeepView for BundleDispatchOutcome {
    type V = BundleDispatchOutcomeModel;

    open spec fn deep_view(&self) -> BundleDispatchOutcomeModel {
        BundleDispatchOutcomeModel {
            handled_automations: self.handled_automations.deep_view(),
            observations: self.observations.deep_view(),
        }
    }
}

impl Clone for BundleDispatchOutcome {
    fn clone(&self) -> (copy: Self)
        ensures
            copy.deep_view() == self.deep_view(),
    {
        let copy = BundleDispatchOutcome {
            handled_automations: self.handled_automations.clone(),
            observations: self.observations.clone(),
        };
        assert(copy.handled_automations.deep_view() =~= self.handled_automations.deep_view());
        assert(copy.observations.deep_view() =~= self.observations.deep_view());
        copy
    }
}

impl FaithfulClone for BundleDispatchOutcome {
    proof fn clone_keeps_model(original: Self, copy: Self) {
    }
}

impl BundleTriggerEvent {
    /// A trigger with its payload.
    pub fn new(name: String, payload: JsonValue) -> (event: Self)
        ensures
            event.deep_view() == (BundleTriggerEventModel {
                name: name@,
                payload: payload.deep_view(),
            }),
    {
        BundleTriggerEvent { name, payload }
    }
}

impl Default for BundleDispatchOutcome {
    fn default() -> (outcome: Self)
        ensures
            outcome.deep_view() == (BundleDispatchOutcomeModel {
                handled_automations: Seq::empty(),
                observations: Seq::empty(),
            }),
    {
        let outcome = BundleDispatchOutcome {
            handled_automations: Vec::new(),
            observations: Vec::new(),
        };
        assert(outcome.handled_automations.deep_view() =~= Seq::empty());
        assert(outcome.observations.deep_view() =~= Seq::empty());
        outcome
    }
}

impl BundleDispatchOutcomeModel {
    /// This outcome with what `automation_id` made of one trigger.
    pub open spec fn with_submission(
        self,
        automation_id: Seq<char>,
        submission: EventSubmissionModel,
    ) -> Self {
        BundleDispatchOutcomeModel {
            handled_automations: if submission.disposition == EventDisposition::Handled
                && !self.handled_automations.contains(automation_id) {
                self.handled_automations.push(automation_id)
            } else {
                self.handled_automations
            },
            observations: self.observations + submission.observations,
        }
    }
}

/// No automation is listed twice among those that handled a trigger, and one that
/// handled a trigger is listed.
pub proof fn handled_automations_are_listed_once(
    outcome: BundleDispatchOutcomeModel,
    automation_id: Seq<char>,
    submission: EventSubmissionModel,
)
    requires
        outcome.handled_automations.no_duplicates(),
    ensures
        ({
            let after = outcome.with_submission(automation_id, submission);
            &&& after.handled_automations.no_duplicates()
            &&& submission.disposition == EventDisposition::Handled
                ==> after.handled_automations.contains(automation_id)
            &&& outcome.handled_automations.is_prefix_of(after.handled_automations)
            &&& outcome.observations.is_prefix_of(after.observations)
        }),
{
    let after = outcome.with_submission(automation_id, submission);
    if submission.disposition == EventDisposition::Handled
        && !outcome.handled_automations.contains(automation_id) {
        assert(after.handled_automations.last() == automation_id);
    }
}

impl BundleDispatchOutcome {
    /// Take in what `automation_id` made of one trigger.
    pub fn submitted(&mut self, automation_id: &String, submission: EventSubmission)
        ensures
            final(self).deep_view() == old(self).deep_view().with_submission(
                automation_id@,
                submission.deep_view(),
            ),
    {
        let ghost before = self.handled_automations.deep_view();
        let ghost came = submission.deep_view();
        if submission.disposition == EventDisposition::Handled {
            let mut listed = false;
            let mut i: usize = 0;
            while i < self.handled_automations.len()
                invariant
                    i <= self.handled_automations.len(),
                    before == self.handled_automations.deep_view(),
                    listed == before.take(i as int).contains(automation_id@),
                decreases self.handled_automations.len() - i,
            {
                assert(before[i as int] == self.handled_automations@[i as int]@);
                assert(before.take(i + 1) =~= before.take(i as int).push(before[i as int]));
                if self.handled_automations[i] == *automation_id {
                    listed = true;
                    assert(before.take(i + 1)[i as int] == automation_id@);
                } else {
                    assert(forall|k: int|
                        0 <= k < i ==> before.take(i + 1)[k] == before.take(i as int)[k]);
                }
                i += 1;
            }
            assert(before.take(i as int) =~= before);
            if !listed {
                self.handled_automations.push(automation_id.clone());
                assert(self.handled_automations.deep_view() =~= before.push(automation_id@));
            }
        }
        let mut observations = submission.observations;
        self.observations.append(&mut observations);
        assert(self.observations.deep_view() =~= old(self).observations.deep_view()
            + came.observations);
    }
}

/// The name of the automation of a bundle in one scope.
pub open spec fn scoped_automation_id(bundle_name: Seq<char>, scope_key: Seq<char>) -> Seq<char> {
    bundle_name + "/"@ + scope_key
}

/// The name of the automation of a bundle in one scope.
pub fn automation_id_for_bundle_scope(bundle_name: &str, scope_key: &str) -> (automation_id: String)
    ensures
        automation_id@ == scoped_automation_id(bundle_name@, scope_key@),
{
    bundle_name.to_string().concat("/").concat(scope_key)
}

/// One bundle has different automations in different scopes.
pub proof fn scopes_have_their_own_automations(
    bundle_name: Seq<char>,
    scope_key: Seq<char>,
    other_scope_key: Seq<char>,
)
    requires
        scoped_automation_id(bundle_name, scope_key) == scoped_automation_id(
            bundle_name,
            other_scope_key,
        ),
    ensures
        scope_key == other_scope_key,
{
    let prefix = bundle_name + "/"@;
    assert((prefix + scope_key).skip(prefix.len() as int) =~= scope_key);
    assert((prefix + other_scope_key).skip(prefix.len() as int) =~= other_scope_key);
}

/// Bundles whose names hold no `/` share no automation: one name for an automation
/// tells the bundle and the scope.
pub proof fn bundles_have_their_own_automations(
    bundle_name: Seq<char>,
    scope_key: Seq<char>,
    other_bundle_name: Seq<char>,
    other_scope_key: Seq<char>,
)
    requires
        !bundle_name.contains('/'),
        !other_bundle_name.contains('/'),
        scoped_automation_id(bundle_name, scope_key) == scoped_automation_id(
            other_bundle_name,
            other_scope_key,
        ),
    ensures
        bundle_name == other_bundle_name,
        scope_key == other_scope_key,
{
    reveal_strlit("/");
    let id = scoped_automation_id(bundle_name, scope_key);
    let other = scoped_automation_id(other_bundle_name, other_scope_key);
    assert(id[bundle_name.len() as int] == '/');
    assert(other[other_bundle_name.len() as int] == '/');
    if bundle_name.len() < other_bundle_name.len() {
        assert(other[bundle_name.len() as int] == other_bundle_name[bundle_name.len() as int]);
    }
    if other_bundle_name.len() < bundle_name.len() {
        assert(id[other_bundle_name.len() as int] == bundle_name[other_bundle_name.len() as int]);
    }
    assert(id.take(bundle_name.len() as int) =~= bundle_name);
    assert(other.take(bundle_name.len() as int) =~= other_bundle_name);
    scopes_have_their_own_automations(bundle_name, scope_key, other_scope_key);
}

/// The configuration of a binding with what the host tells its providers.
pub open spec fn hosted_config(config: JsonModel, host_context: JsonModel) -> JsonModel {
    match config {
        JsonModel::Object(members) => JsonModel::Object(
            with_entry::<String, JsonModel>(members, "host"@, host_context),
        ),
        JsonModel::Null => JsonModel::Object(seq![("host"@, host_context)]),
        other => JsonModel::Object(seq![("binding"@, other), ("host"@, host_context)]),
    }
}

proof fn lemma_one_member(name: Seq<char>, value: JsonModel)
    ensures
        with_entry::<String, JsonModel>(Seq::empty(), name, value) == seq![(name, value)],
{
    let empty = Seq::<(Seq<char>, JsonModel)>::empty();
    assert(splits::<String, JsonModel>(empty, name, 0));
    slot_is_unique::<String, JsonModel>(empty, name, 0);
    assert(with_entry::<String, JsonModel>(empty, name, value) =~= seq![(name, value)]);
}

proof fn lemma_two_members(
    name: Seq<char>,
    value: JsonModel,
    later: Seq<char>,
    later_value: JsonModel,
)
    requires
        name.len() > 0,
        later.len() > 0,
        name[0] < later[0],
    ensures
        in_key_order::<String, JsonModel>(seq![(name, value), (later, later_value)]),
        with_entry::<String, JsonModel>(
            with_entry::<String, JsonModel>(Seq::empty(), name, value),
            later,
            later_value,
        ) == seq![(name, value), (later, later_value)],
{
    let one = seq![(name, value)];
    lemma_one_member(name, value);
    assert(agree_up_to(name, later, 0));
    assert(text_before(name, later));
    assert(splits::<String, JsonModel>(one, later, 1));
    slot_is_unique::<String, JsonModel>(one, later, 1);
    assert(with_entry::<String, JsonModel>(one, later, later_value) =~= seq![
        (name, value),
        (later, later_value),
    ]);
}

/// Whether a provider finds `host_context` under its name in `hosted`, and every
/// member that `config` has as an object.
pub open spec fn tells_host_context(
    hosted: JsonModel,
    config: JsonModel,
    host_context: JsonModel,
) -> bool {
    &&& hosted matches JsonModel::Object(members)
    &&& in_key_order::<String, JsonModel>(members)
    &&& lookup::<String, JsonModel>(members, "host"@) == Some(host_context)
    &&& config matches JsonModel::Object(configured) ==> forall|other: Seq<char>|
        other != "host"@ ==> #[trigger] lookup::<String, JsonModel>(members, other) == lookup::<
            String,
            JsonModel,
        >(configured, other)
}

/// A provider finds the host context under its name in the configuration of its
/// binding, and every other member of an object as it was. What is no object stands
/// under a name of its own.
pub proof fn providers_find_the_host_context(config: JsonModel, host_context: JsonModel)
    requires
        config matches JsonModel::Object(members) ==> in_key_order::<String, JsonModel>(members),
    ensures
        tells_host_context(hosted_config(config, host_context), config, host_context),
        !(config is Object) && !(config is Null) ==> lookup::<String, JsonModel>(
            hosted_config(config, host_context)->Object_0,
            "binding"@,
        ) == Some(config),
{
    let hosted = hosted_config(config, host_context)->Object_0;
    match config {
        JsonModel::Object(members) => {
            with_entry_is_read_back::<String, JsonModel>(members, "host"@, host_context);
        },
        JsonModel::Null => {
            lemma_slot_of_entry::<String, JsonModel>(hosted, 0);
        },
        _ => {
            reveal_strlit("binding");
            reveal_strlit("host");
            lemma_two_members("binding"@, config, "host"@, host_context);
            lemma_slot_of_entry::<String, JsonModel>(hosted, 0);
            lemma_slot_of_entry::<String, JsonModel>(hosted, 1);
        },
    }
}

/// The configuration of a binding with what the host tells its providers.
pub fn config_with_host_context(config: &JsonValue, host_context: &JsonValue) -> (merged: JsonValue)
    ensures
        merged.deep_view() == hosted_config(config.deep_view(), host_context.deep_view()),
        tells_host_context(merged.deep_view(), config.deep_view(), host_context.deep_view()),
{
    let mut members = JsonObject::new();
    match config {
        JsonValue::Object(object) => {
            object.keeps_order();
            members = object.clone();
        },
        JsonValue::Null => {},
        other => {
            members.insert("binding".to_string(), other.clone());
        },
    }
    members.insert("host".to_string(), host_context.clone());
    proof {
        providers_find_the_host_context(config.deep_view(), host_context.deep_view());
        reveal_strlit("binding");
        reveal_strlit("host");
        lemma_one_member("host"@, host_context.deep_view());
        lemma_two_members("binding"@, config.deep_view(), "host"@, host_context.deep_view());
    }
    JsonValue::Object(members)
}

/// The bindings, each with what the host tells its providers.
pub open spec fn hosted_bindings(
    bindings: Seq<CapabilityBindingModel>,
    host_context: JsonModel,
) -> Seq<CapabilityBindingModel> {
    bindings.map_values(
        |binding: CapabilityBindingModel|
            CapabilityBindingModel {
                config: hosted_config(binding.config, host_context),
                ..binding
            },
    )
}

/// The bindings, each with what the host tells its providers.
pub fn prepare_bindings(bindings: &Vec<CapabilityBinding>, host_context: &JsonValue) -> (prepared:
    Vec<CapabilityBinding>)
    ensures
        prepared.deep_view() == hosted_bindings(bindings.deep_view(), host_context.deep_view()),
{
    let ghost model = bindings.deep_view();
    let ghost all = hosted_bindings(model, host_context.deep_view());
    let mut prepared: Vec<CapabilityBinding> = Vec::new();
    let mut i: usize = 0;
    while i < bindings.len()
        invariant
            i <= bindings.len(),
            model == bindings.deep_view(),
            all == hosted_bindings(model, host_context.deep_view()),
            prepared.len() == i,
            forall|k: int| 0 <= k < i ==> (#[trigger] prepared@[k]).deep_view() == all[k],
        decreases bindings.len() - i,
    {
        let mut binding = bindings[i].clone();
        binding.config = config_with_host_context(&binding.config, host_context);
        prepared.push(binding);
        i += 1;
    }
    assert(prepared.deep_view() =~= all);
    prepared
}

/// A bundle with its capabilities ready to be invoked.
#[derive(Debug)]
pub struct LoadedBundle<P> {
    pub manifest: AutomationBundleManifest,
    pub tools: ToolRegistry<P>,
    pub inference: InferenceRegistry<P>,
}

impl<P> LoadedBundle<P> {
    /// Whether this is `manifest` with its capabilities registered under
    /// `host_context`.
    pub open spec fn is_loaded_from(
        &self,
        manifest: AutomationBundleManifestModel,
        host_context: JsonModel,
    ) -> bool {
        &&& self.manifest.deep_view() == manifest
        &&& self.tools.bindings.deep_view() == bound_all::<P>(
            Seq::empty(),
            hosted_bindings(manifest.tools, host_context),
        )
        &&& self.inference.bindings.deep_view() == bound_all::<P>(
            Seq::empty(),
            hosted_bindings(manifest.inference, host_context),
        )
    }

    /// Register the capabilities of a bundle.
    pub fn new(manifest: AutomationBundleManifest, host_context: &JsonValue) -> (bundle: Self)
        ensures
            bundle.is_loaded_from(manifest.deep_view(), host_context.deep_view()),
    {
        let mut tools = CapabilityRegistry::new();
        let mut inference = CapabilityRegistry::new();
        assert(tools.bindings.deep_view() =~= Seq::empty());
        assert(inference.bindings.deep_view() =~= Seq::empty());
        tools.register_bindings(&prepare_bindings(&manifest.tools, host_context));
        inference.register_bindings(&prepare_bindings(&manifest.inference, host_context));
        LoadedBundle { manifest, tools, inference }
    }

    /// Whether the bundle subscribed to the trigger.
    pub fn subscribes(&self, trigger: &String) -> (subscribed: bool)
        ensures
            subscribed == self.manifest.deep_view().trigger_subscriptions.contains(trigger@),
    {
        let ghost names = self.manifest.deep_view().trigger_subscriptions;
        let mut i: usize = 0;
        while i < self.manifest.trigger_subscriptions.len()
            invariant
                i <= self.manifest.trigger_subscriptions.len(),
                names == self.manifest.trigger_subscriptions.deep_view(),
                forall|k: int| 0 <= k < i ==> names[k] != trigger@,
            decreases self.manifest.trigger_subscriptions.len() - i,
        {
            assert(names[i as int] == self.manifest.trigger_subscriptions@[i as int]@);
            if self.manifest.trigger_subscriptions[i] == *trigger {
                return true;
            }
            i += 1;
        }
        false
    }
}

/// What it takes to have the automation of a bundle run.
#[derive(Debug, PartialEq)]
pub enum BundleActivation {
    /// The automation runs already.
    Active,
    /// Activate this revision and keep the state.
    Activate { revision_id: u64 },
    /// Register the bundle and start its new revision cold.
    Register(RegistrationRequest),
}

/// What a [`BundleActivation`] holds.
#[verifier::ext_equal]
pub enum BundleActivationModel {
    Active,
    Activate { revision_id: u64 },
    Register(RegistrationRequestModel),
}

impl DeepView for BundleActivation {
    type V = BundleActivationModel;

    open spec fn deep_view(&self) -> BundleActivationModel {
        match self {
            BundleActivation::Active => BundleActivationModel::Active,
            BundleActivation::Activate { revision_id } => BundleActivationModel::Activate {
                revision_id: *revision_id,
            },
            BundleActivation::Register(value) => BundleActivationModel::Register(value.deep_view()),
        }
    }
}

impl Clone for BundleActivation {
    fn clone(&self) -> (copy: Self)
        ensures
            copy.deep_view() == self.deep_view(),
    {
        match self {
            BundleActivation::Active => BundleActivation::Active,
            BundleActivation::Activate { revision_id } => BundleActivation::Activate {
                revision_id: *revision_id,
            },
            BundleActivation::Register(value) => BundleActivation::Register(value.clone()),
        }
    }
}

impl FaithfulClone for BundleActivation {
    proof fn clone_keeps_model(original: Self, copy: Self) {
    }
}

/// The configuration that a bundle is registered with.
pub open spec fn bundle_config(bundle_name: Seq<char>, scope_key: Seq<char>) -> JsonModel {
    JsonModel::Object(
        seq![
            ("bundle_name"@, JsonModel::Text(bundle_name)),
            ("scope_key"@, JsonModel::Text(scope_key)),
        ],
    )
}

fn bundle_config_value(bundle_name: &String, scope_key: &str) -> (config: JsonValue)
    ensures
        config.deep_view() == bundle_config(bundle_name@, scope_key@),
{
    let mut members = JsonObject::new();
    members.insert("bundle_name".to_string(), JsonValue::Text(bundle_name.clone()));
    members.insert("scope_key".to_string(), JsonValue::Text(scope_key.to_string()));
    proof {
        reveal_strlit("bundle_name");
        reveal_strlit("scope_key");
        lemma_two_members(
            "bundle_name"@,
            JsonModel::Text(bundle_name@),
            "scope_key"@,
            JsonModel::Text(scope_key@),
        );
    }
    JsonValue::Object(members)
}

/// What it takes to have the automation of a bundle run in a scope, or why it
/// cannot run.
pub open spec fn bundle_activation(
    automations: Seq<(Seq<char>, ManagedAutomationModel)>,
    manifest: AutomationBundleManifestModel,
    scope_key: Seq<char>,
) -> Result<BundleActivationModel, AutomationsErrorModel> {
    let automation_id = scoped_automation_id(manifest.name, scope_key);
    match automation_in(automations, automation_id) {
        Some(automation) => if automation.active_revision_id is Some {
            Ok(BundleActivationModel::Active)
        } else if automation.revisions.len() == 0 {
            Err(
                AutomationsErrorModel::State(
                    "automation `"@ + automation_id + "` has no registered revisions"@,
                ),
            )
        } else {
            Ok(BundleActivationModel::Activate { revision_id: automation.revisions.last().0 })
        },
        None => Ok(
            BundleActivationModel::Register(
                RegistrationRequestModel {
                    automation_id,
                    artifact_path: manifest.artifact,
                    config: bundle_config(manifest.name, scope_key),
                },
            ),
        ),
    }
}

/// A bundle goes on from its newest revision.
pub proof fn newest_revision_is_activated(
    automations: Seq<(Seq<char>, ManagedAutomationModel)>,
    manifest: AutomationBundleManifestModel,
    scope_key: Seq<char>,
    other: RevisionId,
)
    requires
        bundle_activation(automations, manifest, scope_key) matches Ok(
            BundleActivationModel::Activate { revision_id },
        ),
        automation_in(
            automations,
            scoped_automation_id(manifest.name, scope_key),
        ) matches Some(automation) && in_key_order::<RevisionId, RegisteredRevisionModel>(
            automation.revisions,
        ) && revision_in(automation, other) is Some,
    ensures
        bundle_activation(automations, manifest, scope_key) matches Ok(
            BundleActivationModel::Activate { revision_id },
        ) && other <= revision_id,
{
    let automation = automation_in(
        automations,
        scoped_automation_id(manifest.name, scope_key),
    )->0;
    has_key_means_present::<RevisionId, RegisteredRevisionModel>(automation.revisions, other);
    let i = choose|i: int|
        0 <= i < automation.revisions.len() && (#[trigger] automation.revisions[i]).0 == other;
    let last = automation.revisions.len() - 1;
    assert(automation.revisions[last] == automation.revisions.last());
}

impl<P> LoadedBundle<P> {
    /// What it takes to have the automation of the bundle run in a scope.
    pub fn required_activation(
        &self,
        automations: &OrderedMap<String, ManagedAutomation>,
        scope_key: &str,
    ) -> (result: Result<BundleActivation, AutomationsError>)
        ensures
            match bundle_activation(
                automations.deep_view(),
                self.manifest.deep_view(),
                scope_key@,
            ) {
                Ok(activation) => result is Ok && result->Ok_0.deep_view() == activation,
                Err(error) => result is Err && result->Err_0.deep_view() == error,
            },
    {
        let automation_id = automation_id_for_bundle_scope(
            self.manifest.name.as_str(),
            scope_key,
        );
        if let Some(automation) = automations.get(&automation_id) {
            if automation.active_revision_id.is_some() {
                return Ok(BundleActivation::Active);
            }
            let count = automation.revisions.len();
            if count == 0 {
                return Err(
                    AutomationsError::State(
                        "automation `".to_string().concat(automation_id.as_str()).concat(
                            "` has no registered revisions",
                        ),
                    ),
                );
            }
            return Ok(
                BundleActivation::Activate { revision_id: *automation.revisions.key_at(count - 1) },
            );
        }
        let config = bundle_config_value(&self.manifest.name, scope_key);
        Ok(
            BundleActivation::Register(
                RegistrationRequest {
                    automation_id,
                    artifact_path: self.manifest.artifact.clone(),
                    config,
                },
            ),
        )
    }
}

/// How far the start of a bundle has come.
#[derive(Debug)]
pub enum BundleStart {
    /// The automation runs already.
    Active,
    /// The automation was activated. The drive of the activation event is to be run.
    Started(EventDrive),
    /// The automation is not known: its guest is to be registered.
    Register(RegistrationRequest),
}

/// What a [`BundleStart`] holds.
#[verifier::ext_equal]
pub enum BundleStartModel {
    Active,
    Started(EventDriveModel),
    Register(RegistrationRequestModel),
}

impl DeepView for BundleStart {
    type V = BundleStartModel;

    open spec fn deep_view(&self) -> BundleStartModel {
        match self {
            BundleStart::Active => BundleStartModel::Active,
            BundleStart::Started(drive) => BundleStartModel::Started(drive.deep_view()),
            BundleStart::Register(request) => BundleStartModel::Register(request.deep_view()),
        }
    }
}

/// The drive of the event that tells an automation of its activation.
pub open spec fn activation_drive(automation_id: Seq<char>, now: i64) -> EventDriveModel {
    EventDriveModel::started(automation_id, AutomationEventModel::Activated { at: now }, now)
}

/// What the control plane keeps once the automation of a bundle was made to run, as
/// its activation says: nothing changes for one that runs, the newest revision of
/// one that is known keeps its state, and one that is not known starts cold from a
/// new revision. `registration` is what the guest of the bundle answers, at
/// `registered_at`.
pub open spec fn bundle_activated(
    state: ControlPlaneStateModel,
    manifest: AutomationBundleManifestModel,
    scope_key: Seq<char>,
    artifact_sha256: Seq<char>,
    registration: RegistrationResponseModel,
    registered_at: i64,
    now: i64,
) -> Result<ControlPlaneStateModel, AutomationsErrorModel> {
    let automation_id = scoped_automation_id(manifest.name, scope_key);
    match bundle_activation(state.automations, manifest, scope_key) {
        Err(error) => Err(error),
        Ok(BundleActivationModel::Active) => Ok(state),
        Ok(BundleActivationModel::Activate { revision_id }) => activated(
            state,
            automation_id,
            revision_id,
            ActivationMode::PreserveState,
            now,
        ),
        Ok(BundleActivationModel::Register(request)) => {
            let after = registered(state, request, artifact_sha256, registration, registered_at);
            activated(
                after,
                automation_id,
                after.next_revision_id,
                ActivationMode::ColdStart,
                now,
            )
        },
    }
}

/// Once its activation is carried out, the automation of a bundle runs, and a second
/// time nothing is to be done. A bundle that is not known yet can always be started.
/// Other automations stay.
pub proof fn activated_bundle_stays_active(
    state: ControlPlaneStateModel,
    manifest: AutomationBundleManifestModel,
    scope_key: Seq<char>,
    artifact_sha256: Seq<char>,
    registration: RegistrationResponseModel,
    registered_at: i64,
    now: i64,
    later_sha256: Seq<char>,
    later_registration: RegistrationResponseModel,
    later_registered_at: i64,
    later: i64,
)
    requires
        consistent(state),
        state.next_revision_id < u64::MAX,
    ensures
        bundle_activation(state.automations, manifest, scope_key) matches Ok(
            BundleActivationModel::Register(_),
        ) ==> bundle_activated(
            state,
            manifest,
            scope_key,
            artifact_sha256,
            registration,
            registered_at,
            now,
        ) is Ok,
        bundle_activated(
            state,
            manifest,
            scope_key,
            artifact_sha256,
            registration,
            registered_at,
            now,
        ) matches Ok(after) ==> {
            &&& consistent(after)
            &&& trace_goes_on(state, after)
            &&& leaves_others(state, after, scoped_automation_id(manifest.name, scope_key))
            &&& after.automation(
                scoped_automation_id(manifest.name, scope_key),
            ) matches Some(automation)
            &&& automation.active_revision_id is Some
            &&& bundle_activation(after.automations, manifest, scope_key) == Ok::<
                BundleActivationModel,
                AutomationsErrorModel,
            >(BundleActivationModel::Active)
            &&& bundle_activated(
                after,
                manifest,
                scope_key,
                later_sha256,
                later_registration,
                later_registered_at,
                later,
            ) == Ok::<ControlPlaneStateModel, AutomationsErrorModel>(after)
        },
{
    let automation_id = scoped_automation_id(manifest.name, scope_key);
    match bundle_activation(state.automations, manifest, scope_key) {
        Ok(BundleActivationModel::Activate { revision_id }) => {
            activation_takes_a_registered_revision(
                state,
                automation_id,
                revision_id,
                ActivationMode::PreserveState,
                now,
            );
        },
        Ok(BundleActivationModel::Register(request)) => {
            registration_adds_a_revision_and_activates_nothing(
                state,
                request,
                artifact_sha256,
                registration,
                registered_at,
            );
            let known = registered(state, request, artifact_sha256, registration, registered_at);
            activation_takes_a_registered_revision(
                known,
                automation_id,
                known.next_revision_id,
                ActivationMode::ColdStart,
                now,
            );
            let after = activated(
                known,
                automation_id,
                known.next_revision_id,
                ActivationMode::ColdStart,
                now,
            )->Ok_0;
            assert forall|other: Seq<char>| other != automation_id implies #[trigger] after.automation(
                other,
            ) == state.automation(other) by {
                assert(known.automation(other) == state.automation(other));
            }
        },
        _ => {},
    }
}

/// A bundle that runs still runs after its guest has answered and after its effects
/// were handled.
pub proof fn running_bundle_runs_on(
    state: ControlPlaneStateModel,
    manifest: AutomationBundleManifestModel,
    scope_key: Seq<char>,
    revision_id: RevisionId,
    event: AutomationEventModel,
    now: i64,
    response: AdvanceResponseModel,
    effect_id: Seq<char>,
    follow_up_events: usize,
)
    requires
        consistent(state),
        bundle_activation(state.automations, manifest, scope_key) == Ok::<
            BundleActivationModel,
            AutomationsErrorModel,
        >(BundleActivationModel::Active),
    ensures
        persisted(
            state,
            scoped_automation_id(manifest.name, scope_key),
            revision_id,
            event,
            now,
            response,
        ) matches Ok(after) ==> bundle_activation(after.automations, manifest, scope_key) == Ok::<
            BundleActivationModel,
            AutomationsErrorModel,
        >(BundleActivationModel::Active),
        bundle_activation(
            effect_recorded(
                state,
                scoped_automation_id(manifest.name, scope_key),
                revision_id,
                effect_id,
                follow_up_events,
                now,
            ).automations,
            manifest,
            scope_key,
        ) == Ok::<BundleActivationModel, AutomationsErrorModel>(BundleActivationModel::Active),
{
    answer_is_taken_over(
        state,
        scoped_automation_id(manifest.name, scope_key),
        revision_id,
        event,
        now,
        response,
    );
}

/// How the host of bundles handles an effect.
#[derive(Debug, PartialEq)]
pub enum EffectPlan<'a, P> {
    /// The effect is handled.
    Done(EffectHandlerOutcome),
    /// The provider is to be asked.
    Invoke {
        provider: &'a CapabilityProvider<P>,
        invocation: ProviderInvocation,
    },
    /// The host does not handle effects of this kind.
    Unsupported,
}

/// What a [`EffectPlan`] holds.
#[verifier::ext_equal]
pub enum EffectPlanModel<P> {
    Done(EffectHandlerOutcomeModel),
    Invoke {
        provider: CapabilityProviderModel<P>,
        invocation: ProviderInvocationModel,
    },
    Unsupported,
}

impl<'a, P> DeepView for EffectPlan<'a, P> {
    type V = EffectPlanModel<P>;

    open spec fn deep_view(&self) -> EffectPlanModel<P> {
        match self {
            EffectPlan::Done(value) => EffectPlanModel::Done(value.deep_view()),
            EffectPlan::Invoke { provider, invocation } => EffectPlanModel::Invoke {
                provider: (**provider).deep_view(),
                invocation: invocation.deep_view(),
            },
            EffectPlan::Unsupported => EffectPlanModel::Unsupported,
        }
    }
}

/// The outcome of an effect that came back with `result`.
pub open spec fn completed(
    effect_id: Seq<char>,
    result: EffectResultModel,
    now: i64,
) -> EffectHandlerOutcomeModel {
    EffectHandlerOutcomeModel {
        follow_up_events: seq![
            AutomationEventModel::EffectCompleted { effect_id, result, at: now },
        ],
        observations: Seq::empty(),
    }
}

/// How one of the capabilities in `bindings` is invoked for an effect. What is not
/// registered is a failure that the guest hears of.
pub open spec fn invocation_plan<P>(
    bindings: Seq<(Seq<char>, RegisteredCapabilityModel<P>)>,
    slug: Seq<char>,
    input: JsonModel,
    effect_id: Seq<char>,
    now: i64,
) -> EffectPlanModel<P> {
    match invocation_for(bindings, slug, input) {
        Ok(asked) => EffectPlanModel::Invoke { provider: asked.0, invocation: asked.1 },
        Err(error) => EffectPlanModel::Done(
            completed(effect_id, EffectResultModel::Failure(error.sentence()), now),
        ),
    }
}

/// How a bundle handles an effect: it shows notifications, asks its tools and its
/// inference capabilities, and does nothing else.
pub open spec fn effect_plan<P>(
    tools: Seq<(Seq<char>, RegisteredCapabilityModel<P>)>,
    inference: Seq<(Seq<char>, RegisteredCapabilityModel<P>)>,
    effect: EffectRequestModel,
    now: i64,
) -> EffectPlanModel<P> {
    match effect.kind {
        EffectKindModel::EmitNotification { channel, title, body, metadata } => {
            EffectPlanModel::Done(
                EffectHandlerOutcomeModel {
                    follow_up_events: Seq::empty(),
                    observations: seq![
                        EffectObservationModel::Notification {
                            effect_id: effect.effect_id,
                            channel,
                            title,
                            body,
                            metadata,
                        },
                    ],
                },
            )
        },
        EffectKindModel::CallTool { slug, input } => invocation_plan(
            tools,
            slug,
            input,
            effect.effect_id,
            now,
        ),
        EffectKindModel::RunInference { capability, input } => invocation_plan(
            inference,
            capability,
            input,
            effect.effect_id,
            now,
        ),
        _ => EffectPlanModel::Unsupported,
    }
}

/// The outcome of an effect whose provider answered.
pub fn complete_effect(
    effect_id: &String,
    answer: Result<JsonValue, AutomationsError>,
    now: i64,
) -> (outcome: EffectHandlerOutcome)
    ensures
        outcome.deep_view() == completed(
            effect_id@,
            match answer {
                Ok(output) => EffectResultModel::Success(output.deep_view()),
                Err(error) => EffectResultModel::Failure(error.deep_view().sentence()),
            },
            now,
        ),
{
    let result = match answer {
        Ok(output) => EffectResult::Success(output),
        Err(error) => EffectResult::Failure(error.message()),
    };
    let event = AutomationEvent::EffectCompleted { effect_id: effect_id.clone(), result, at: now };
    let ghost came = event.deep_view();
    let mut follow_up_events: Vec<AutomationEvent> = Vec::new();
    follow_up_events.push(event);
    let outcome = EffectHandlerOutcome { follow_up_events, observations: Vec::new() };
    assert(outcome.follow_up_events.deep_view() =~= seq![came]);
    assert(outcome.observations.deep_view() =~= Seq::empty());
    outcome
}

fn shown(observation: EffectObservation) -> (outcome: EffectHandlerOutcome)
    ensures
        outcome.deep_view() == (EffectHandlerOutcomeModel {
            follow_up_events: Seq::empty(),
            observations: seq![observation.deep_view()],
        }),
{
    let ghost seen = observation.deep_view();
    let mut observations: Vec<EffectObservation> = Vec::new();
    observations.push(observation);
    let outcome = EffectHandlerOutcome { follow_up_events: Vec::new(), observations };
    assert(outcome.follow_up_events.deep_view() =~= Seq::empty());
    assert(outcome.observations.deep_view() =~= seq![seen]);
    outcome
}

fn plan_invocation<'a, P>(
    registry: &'a CapabilityRegistry<P>,
    slug: &String,
    input: &JsonValue,
    effect_id: &String,
    now: i64,
) -> (plan: EffectPlan<'a, P>)
    ensures
        plan.deep_view() == invocation_plan(
            registry.bindings.deep_view(),
            slug@,
            input.deep_view(),
            effect_id@,
            now,
        ),
{
    match registry.invoke(slug, input.clone()) {
        Ok((provider, invocation)) => EffectPlan::Invoke { provider, invocation },
        Err(error) => EffectPlan::Done(complete_effect(effect_id, Err(error), now)),
    }
}

impl<P> LoadedBundle<P> {
    /// How the bundle handles an effect of its automation.
    pub fn plan_effect<'a>(&'a self, effect: &EffectRequest, now: i64) -> (plan: EffectPlan<'a, P>)
        ensures
            plan.deep_view() == effect_plan(
                self.tools.bindings.deep_view(),
                self.inference.bindings.deep_view(),
                effect.deep_view(),
                now,
            ),
    {
        match &effect.kind {
            EffectKind::EmitNotification { channel, title, body, metadata } => {
                EffectPlan::Done(
                    shown(
                        EffectObservation::Notification {
                            effect_id: effect.effect_id.clone(),
                            channel: channel.clone(),
                            title: title.clone(),
                            body: body.clone(),
                            metadata: metadata.clone(),
                        },
                    ),
                )
            },
            EffectKind::CallTool { slug, input } => plan_invocation(
                &self.tools,
                slug,
                input,
                &effect.effect_id,
                now,
            ),
            EffectKind::RunInference { capability, input } => plan_invocation(
                &self.inference,
                capability,
                input,
                &effect.effect_id,
                now,
            ),
            _ => EffectPlan::Unsupported,
        }
    }
}

/// The error for an effect that the host does not handle. `rendered` shows the
/// effect.
pub fn unsupported_effect(rendered: &str) -> (error: AutomationsError)
    ensures
        error.deep_view() == AutomationsErrorModel::Provider(
            "automation bundle host does not implement effect "@ + rendered@,
        ),
{
    AutomationsError::Provider(
        "automation bundle host does not implement effect ".to_string().concat(rendered),
    )
}

/// The pairs of a trigger and a bundle that takes it: for each trigger in its
/// order the bundles that subscribed to it, in theirs.
pub open spec fn dispatch_order(
    triggers: Seq<BundleTriggerEventModel>,
    subscriptions: Seq<Seq<Seq<char>>>,
) -> Seq<(int, int)>
    decreases triggers.len(),
{
    if triggers.len() == 0 {
        Seq::empty()
    } else {
        dispatch_order(triggers.drop_last(), subscriptions) + bundles_for(
            triggers.last().name,
            triggers.len() - 1,
            subscriptions,
        )
    }
}

/// The trigger at `place` with each bundle that subscribed to its name.
pub open spec fn bundles_for(
    name: Seq<char>,
    place: int,
    subscriptions: Seq<Seq<Seq<char>>>,
) -> Seq<(int, int)>
    decreases subscriptions.len(),
{
    if subscriptions.len() == 0 {
        Seq::empty()
    } else {
        let before = bundles_for(name, place, subscriptions.drop_last());
        if subscriptions.last().contains(name) {
            before.push((place, subscriptions.len() - 1))
        } else {
            before
        }
    }
}

proof fn lemma_bundles_for(
    name: Seq<char>,
    place: int,
    subscriptions: Seq<Seq<Seq<char>>>,
    trigger: int,
    bundle: int,
)
    ensures
        bundles_for(name, place, subscriptions).contains((trigger, bundle)) <==> {
            &&& trigger == place
            &&& 0 <= bundle < subscriptions.len()
            &&& subscriptions[bundle].contains(name)
        },
        bundles_for(name, place, subscriptions).no_duplicates(),
    decreases subscriptions.len(),
{
    broadcast use vstd::seq_lib::group_seq_properties;

    if subscriptions.len() > 0 {
        let last = subscriptions.len() - 1;
        let before = bundles_for(name, place, subscriptions.drop_last());
        lemma_bundles_for(name, place, subscriptions.drop_last(), trigger, bundle);
        lemma_bundles_for(name, place, subscriptions.drop_last(), place, last);
        if 0 <= bundle < last {
            assert(subscriptions.drop_last()[bundle] == subscriptions[bundle]);
        }
        if subscriptions.last().contains(name) {
            assert(!before.contains((place, last)));
        }
    }
}

/// A trigger reaches every bundle that subscribed to it, once, and no other.
pub proof fn triggers_reach_their_subscribers(
    triggers: Seq<BundleTriggerEventModel>,
    subscriptions: Seq<Seq<Seq<char>>>,
    trigger: int,
    bundle: int,
)
    ensures
        dispatch_order(triggers, subscriptions).contains((trigger, bundle)) <==> {
            &&& 0 <= trigger < triggers.len()
            &&& 0 <= bundle < subscriptions.len()
            &&& subscriptions[bundle].contains(triggers[trigger].name)
        },
        dispatch_order(triggers, subscriptions).no_duplicates(),
    decreases triggers.len(),
{
    if triggers.len() > 0 {
        let last = triggers.len() - 1;
        let earlier = dispatch_order(triggers.drop_last(), subscriptions);
        let taken = bundles_for(triggers.last().name, last, subscriptions);
        let all = dispatch_order(triggers, subscriptions);
        triggers_reach_their_subscribers(triggers.drop_last(), subscriptions, trigger, bundle);
        lemma_bundles_for(triggers.last().name, last, subscriptions, trigger, bundle);
        if 0 <= trigger < last {
            assert(triggers.drop_last()[trigger] == triggers[trigger]);
        }
        if earlier.contains((trigger, bundle)) {
            let i = earlier.index_of((trigger, bundle));
            assert(all[i] == (trigger, bundle));
        }
        if taken.contains((trigger, bundle)) {
            let i = taken.index_of((trigger, bundle));
            assert(all[earlier.len() + i] == (trigger, bundle));
        }
        assert forall|i: int, j: int|
            0 <= i < earlier.len() && 0 <= j < taken.len() implies earlier[i] != taken[j] by {
            triggers_reach_their_subscribers(
                triggers.drop_last(),
                subscriptions,
                earlier[i].0,
                earlier[i].1,
            );
            lemma_bundles_for(
                triggers.last().name,
                last,
                subscriptions,
                taken[j].0,
                taken[j].1,
            );
            assert(earlier.contains(earlier[i]));
            assert(taken.contains(taken[j]));
        }
    }
}

/// A host for bundles over a control plane. `bindings` says which bundle an
/// automation belongs to.
#[derive(Debug)]
pub struct AutomationBundleHost<B, R, C, P> {
    pub control_plane: AutomationsControlPlane<B, R, (), C>,
    pub bundles: Vec<LoadedBundle<P>>,
    pub bindings: OrderedMap<String, u64>,
}

impl<B, C, P> AutomationBundleHost<B, WasmAutomationRuntime, C, P> where
    B: ControlPlaneStore,
    C: Clock,
 {
    /// A host whose guests run in Wasm.
    pub fn new(
        store: B,
        bundles: Vec<AutomationBundleManifest>,
        host_context: &JsonValue,
        clock: C,
    ) -> (host: Self)
        ensures
            host.control_plane.store == store,
            host.control_plane.clock == clock,
            has_default_configuration(host.control_plane.runtime.engine),
            host.hosts(bundles.deep_view(), host_context.deep_view()),
    {
        AutomationBundleHost::with_runtime(
            store,
            WasmAutomationRuntime::new(),
            bundles,
            host_context,
            clock,
        )
    }
}

impl<B, R, C, P> AutomationBundleHost<B, R, C, P> where B: ControlPlaneStore, C: Clock {
    /// Whether the host has loaded `bundles` and bound no automation yet.
    pub open spec fn hosts(
        &self,
        bundles: Seq<AutomationBundleManifestModel>,
        host_context: JsonModel,
    ) -> bool {
        &&& self.bindings.deep_view().len() == 0
        &&& self.bundles.len() == bundles.len()
        &&& forall|i: int|
            0 <= i < bundles.len() ==> (#[trigger] self.bundles@[i]).is_loaded_from(
                bundles[i],
                host_context,
            )
    }

    /// The triggers that each bundle subscribed to.
    pub open spec fn subscriptions(&self) -> Seq<Seq<Seq<char>>> {
        Seq::new(
            self.bundles@.len(),
            |i: int| self.bundles@[i].manifest.deep_view().trigger_subscriptions,
        )
    }

    /// A host with its parts.
    pub fn with_runtime(
        store: B,
        runtime: R,
        bundles: Vec<AutomationBundleManifest>,
        host_context: &JsonValue,
        clock: C,
    ) -> (host: Self)
        ensures
            host.control_plane == (AutomationsControlPlane {
                store,
                runtime,
                effect_handler: (),
                clock,
            }),
            host.hosts(bundles.deep_view(), host_context.deep_view()),
    {
        let ghost model = bundles.deep_view();
        let mut loaded: Vec<LoadedBundle<P>> = Vec::new();
        let mut i: usize = 0;
        while i < bundles.len()
            invariant
                i <= bundles.len(),
                model == bundles.deep_view(),
                loaded.len() == i,
                forall|k: int|
                    0 <= k < i ==> (#[trigger] loaded@[k]).is_loaded_from(
                        model[k],
                        host_context.deep_view(),
                    ),
            decreases bundles.len() - i,
        {
            loaded.push(LoadedBundle::new(bundles[i].clone(), host_context));
            i += 1;
        }
        AutomationBundleHost {
            control_plane: AutomationsControlPlane::with_runtime(store, runtime, (), clock),
            bundles: loaded,
            bindings: OrderedMap::new(),
        }
    }

    /// The pairs of a trigger and a bundle that takes it, in the order of dispatch.
    pub fn dispatch_triggers(&self, triggers: &Vec<BundleTriggerEvent>) -> (pairs: Vec<
        (usize, usize),
    >)
        ensures
            pairs@.map_values(|pair: (usize, usize)| (pair.0 as int, pair.1 as int))
                == dispatch_order(triggers.deep_view(), self.subscriptions()),
    {
        let ghost model = triggers.deep_view();
        let ghost subscriptions = self.subscriptions();
        let ghost plain = |pair: (usize, usize)| (pair.0 as int, pair.1 as int);
        let mut pairs: Vec<(usize, usize)> = Vec::new();
        let mut i: usize = 0;
        assert(pairs@.map_values(plain) =~= dispatch_order(model.take(0), subscriptions));
        while i < triggers.len()
            invariant
                i <= triggers.len(),
                model == triggers.deep_view(),
                subscriptions == self.subscriptions(),
                plain == (|pair: (usize, usize)| (pair.0 as int, pair.1 as int)),
                pairs@.map_values(plain) == dispatch_order(model.take(i as int), subscriptions),
            decreases triggers.len() - i,
        {
            let ghost earlier = pairs@.map_values(plain);
            let name = &triggers[i].name;
            let mut j: usize = 0;
            assert(earlier + bundles_for(name@, i as int, subscriptions.take(0)) =~= earlier);
            while j < self.bundles.len()
                invariant
                    j <= self.bundles.len(),
                    i < triggers.len(),
                    subscriptions == self.subscriptions(),
                    plain == (|pair: (usize, usize)| (pair.0 as int, pair.1 as int)),
                    pairs@.map_values(plain) == earlier + bundles_for(
                        name@,
                        i as int,
                        subscriptions.take(j as int),
                    ),
                decreases self.bundles.len() - j,
            {
                let ghost before = pairs@;
                let ghost taken = subscriptions.take(j + 1);
                assert(taken.drop_last() =~= subscriptions.take(j as int));
                if self.bundles[j].subscribes(name) {
                    pairs.push((i, j));
                    assert(pairs@.map_values(plain) =~= before.map_values(plain).push(
                        (i as int, j as int),
                    ));
                    assert(earlier + bundles_for(name@, i as int, taken) =~= (earlier + bundles_for(
                        name@,
                        i as int,
                        subscriptions.take(j as int),
                    )).push((i as int, j as int)));
                }
                j += 1;
            }
            assert(subscriptions.take(j as int) =~= subscriptions);
            assert(model.take(i + 1).drop_last() =~= model.take(i as int));
            assert(model.take(i + 1).last() == triggers@[i as int].deep_view());
            i += 1;
        }
        assert(model.take(i as int) =~= model);
        pairs
    }

    /// Have the effects of `automation_id` handled by the bundle at `place`.
    pub fn bind(&mut self, automation_id: &String, place: usize)
        requires
            place < old(self).bundles.len(),
        ensures
            final(self).bindings.deep_view() == with_entry::<String, u64>(
                old(self).bindings.deep_view(),
                automation_id@,
                place as u64,
            ),
            final(self).bundles == old(self).bundles,
            final(self).control_plane == old(self).control_plane,
    {
        self.bindings.insert(automation_id.clone(), place as u64);
    }

    /// The bundle that `automation_id` belongs to, or nothing where it was never
    /// bound.
    pub open spec fn bundle_of(&self, automation_id: Seq<char>) -> Option<LoadedBundle<P>> {
        match lookup::<String, u64>(self.bindings.deep_view(), automation_id) {
            Some(place) => if place < self.bundles@.len() {
                Some(self.bundles@[place as int])
            } else {
                None
            },
            None => None,
        }
    }

    /// The bundle that `automation_id` belongs to.
    pub fn resolve(&self, automation_id: &String) -> (result: Result<
        &LoadedBundle<P>,
        AutomationsError,
    >)
        ensures
            match self.bundle_of(automation_id@) {
                Some(bundle) => result is Ok && *(result->Ok_0) == bundle,
                None => result is Err && result->Err_0.deep_view()
                    == AutomationsErrorModel::Provider(
                    "no runtime bindings registered for automation `"@ + automation_id@ + "`"@,
                ),
            },
    {
        if let Some(place) = self.bindings.get(automation_id) {
            let place: u64 = *place;
            if place < self.bundles.len() as u64 {
                return Ok(&self.bundles[place as usize]);
            }
        }
        Err(
            AutomationsError::Provider(
                "no runtime bindings registered for automation `".to_string().concat(
                    automation_id.as_str(),
                ).concat("`"),
            ),
        )
    }

    /// How an effect of `automation_id` is handled.
    pub fn handle_effect<'a>(
        &'a self,
        automation_id: &String,
        effect: &EffectRequest,
        now: i64,
    ) -> (result: Result<EffectPlan<'a, P>, AutomationsError>)
        ensures
            match self.bundle_of(automation_id@) {
                Some(bundle) => result is Ok && result->Ok_0.deep_view() == effect_plan(
                    bundle.tools.bindings.deep_view(),
                    bundle.inference.bindings.deep_view(),
                    effect.deep_view(),
                    now,
                ),
                None => if effect.deep_view().kind is CallTool
                    || effect.deep_view().kind is RunInference {
                    result is Err && result->Err_0.deep_view() == AutomationsErrorModel::Provider(
                        "no runtime bindings registered for automation `"@ + automation_id@ + "`"@,
                    )
                } else {
                    result is Ok && result->Ok_0.deep_view() == effect_plan::<P>(
                        Seq::empty(),
                        Seq::empty(),
                        effect.deep_view(),
                        now,
                    )
                },
            },
    {
        match self.resolve(automation_id) {
            Ok(bundle) => Ok(bundle.plan_effect(effect, now)),
            Err(error) => match &effect.kind {
                EffectKind::CallTool { .. } => Err(error),
                EffectKind::RunInference { .. } => Err(error),
                EffectKind::EmitNotification { channel, title, body, metadata } => {
                    Ok(
                        EffectPlan::Done(
                            shown(
                                EffectObservation::Notification {
                                    effect_id: effect.effect_id.clone(),
                                    channel: channel.clone(),
                                    title: title.clone(),
                                    body: body.clone(),
                                    metadata: metadata.clone(),
                                },
                            ),
                        ),
                    )
                },
                _ => Ok(EffectPlan::Unsupported),
            },
        }
    }

    /// What the control plane did when the automation of the bundle at `place` was to
    /// be started in a scope.
    pub open spec fn bundle_started(
        before: Self,
        after: Self,
        place: int,
        scope_key: Seq<char>,
        result: Result<BundleStart, AutomationsError>,
    ) -> bool {
        let manifest = before.bundles@[place].manifest.deep_view();
        let automation_id = scoped_automation_id(manifest.name, scope_key);
        let state = before.control_plane.store.content();
        match bundle_activation(state.automations, manifest, scope_key) {
            Ok(BundleActivationModel::Activate { revision_id }) => {
                ||| {
                    &&& result is Err
                    &&& !before.control_plane.store.reliable()
                    &&& after.control_plane.store == before.control_plane.store
                }
                ||| exists|now: i64|
                    {
                        &&& #[trigger] before.control_plane.clock.shows(now)
                        &&& committed(
                            before.control_plane.store,
                            after.control_plane.store,
                            result,
                            activated(
                                state,
                                automation_id,
                                revision_id,
                                ActivationMode::PreserveState,
                                now,
                            ),
                        )
                        &&& result matches Ok(start) ==> start.deep_view()
                            == BundleStartModel::Started(activation_drive(automation_id, now))
                    }
            },
            Ok(BundleActivationModel::Active) => {
                &&& committed(
                    before.control_plane.store,
                    after.control_plane.store,
                    result,
                    Ok(state),
                )
                &&& result matches Ok(start) ==> start.deep_view() == BundleStartModel::Active
            },
            Ok(BundleActivationModel::Register(request)) => {
                &&& committed(
                    before.control_plane.store,
                    after.control_plane.store,
                    result,
                    Ok(state),
                )
                &&& result matches Ok(start) ==> start.deep_view() == BundleStartModel::Register(
                    request,
                )
            },
            Err(error) => committed(
                before.control_plane.store,
                after.control_plane.store,
                result,
                Err(error),
            ),
        }
    }

    /// Have the automation of the bundle at `place` run in a scope. A bundle that is
    /// not known there yet is to be registered first, by [`Self::register_bundle`].
    pub fn ensure_bundle_active(&mut self, place: usize, scope_key: &str) -> (result: Result<
        BundleStart,
        AutomationsError,
    >)
        requires
            place < old(self).bundles.len(),
        ensures
            final(self).bundles == old(self).bundles,
            final(self).control_plane.keeps_parts_of(old(self).control_plane),
            final(self).bindings.deep_view() == with_entry::<String, u64>(
                old(self).bindings.deep_view(),
                scoped_automation_id(
                    old(self).bundles@[place as int].manifest.deep_view().name,
                    scope_key@,
                ),
                place as u64,
            ),
            Self::bundle_started(*old(self), *final(self), place as int, scope_key@, result),
    {
        let automation_id = automation_id_for_bundle_scope(
            self.bundles[place].manifest.name.as_str(),
            scope_key,
        );
        self.bind(&automation_id, place);
        let automations = self.automations()?;
        match self.bundles[place].required_activation(&automations, scope_key)? {
            BundleActivation::Active => Ok(BundleStart::Active),
            BundleActivation::Activate { revision_id } => {
                let drive = self.control_plane.activate_revision(
                    &automation_id,
                    revision_id,
                    ActivationMode::PreserveState,
                )?;
                Ok(BundleStart::Started(drive))
            },
            BundleActivation::Register(request) => Ok(BundleStart::Register(request)),
        }
    }

    /// Whether `request` was registered and started cold, from `before` to `after`. A
    /// store that fails may leave the revision registered and not active.
    pub open spec fn bundle_registered(
        before: Self,
        after: Self,
        request: RegistrationRequestModel,
        artifact_sha256: Seq<char>,
        registration: RegistrationResponseModel,
        registered_at: i64,
        now: i64,
        result: Result<EventDrive, AutomationsError>,
    ) -> bool {
        let state = before.control_plane.store.content();
        let known = registered(state, request, artifact_sha256, registration, registered_at);
        match result {
            Ok(drive) => {
                &&& activated(
                    known,
                    request.automation_id,
                    known.next_revision_id,
                    ActivationMode::ColdStart,
                    now,
                ) == Ok::<ControlPlaneStateModel, AutomationsErrorModel>(
                    after.control_plane.store.content(),
                )
                &&& drive.deep_view() == activation_drive(request.automation_id, now)
            },
            Err(_) => {
                ||| after.control_plane.store.content() == state
                ||| after.control_plane.store.content() == known
            },
        }
    }

    /// Register the bundle that [`Self::ensure_bundle_active`] asked for, and start it
    /// cold. `registration` is what the guest in `artifact` answered.
    pub fn register_bundle(
        &mut self,
        request: &RegistrationRequest,
        artifact: &Vec<u8>,
        registration: &RegistrationResponse,
    ) -> (result: Result<EventDrive, AutomationsError>)
        requires
            old(self).control_plane.store.content().next_revision_id < u64::MAX,
        ensures
            final(self).bundles == old(self).bundles,
            final(self).bindings == old(self).bindings,
            final(self).control_plane.keeps_parts_of(old(self).control_plane),
            final(self).control_plane.store.reliable() == old(
                self,
            ).control_plane.store.reliable(),
            old(self).control_plane.store.reliable() ==> result is Ok,
            exists|registered_at: i64, now: i64|
                {
                    &&& #[trigger] old(self).control_plane.clock.shows(registered_at)
                    &&& #[trigger] old(self).control_plane.clock.shows(now)
                    &&& Self::bundle_registered(
                        *old(self),
                        *final(self),
                        request.deep_view(),
                        sha256_hex(artifact@),
                        registration.deep_view(),
                        registered_at,
                        now,
                        result,
                    )
                },
    {
        let revision = self.control_plane.register_revision(request, artifact, registration)?;
        self.control_plane.activate_revision(
            &request.automation_id,
            revision.revision_id,
            ActivationMode::ColdStart,
        )
    }

    /// The automations that the host runs.
    pub fn automations(&self) -> (result: Result<
        OrderedMap<String, ManagedAutomation>,
        AutomationsError,
    >)
        ensures
            self.control_plane.store.reliable() ==> result is Ok,
            result is Ok ==> result->Ok_0.deep_view()
                == self.control_plane.store.content().automations,
    {
        self.control_plane.automations()
    }

    /// The trace of the automations, the oldest record first.
    pub fn traces(&self) -> (result: Result<Vec<TraceRecord>, AutomationsError>)
        ensures
            self.control_plane.store.reliable() ==> result is Ok,
            result is Ok ==> result->Ok_0.deep_view() == self.control_plane.store.content().traces,
    {
        self.control_plane.traces()
    }
}

}
