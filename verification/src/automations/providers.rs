//! Bundles of automations and the capability providers that they bind.

use crate::automations::error::{AutomationsError, AutomationsErrorModel};
use crate::json::{JsonModel, JsonValue};
use crate::model::FaithfulClone;
use crate::ordered_map::{
    in_key_order, lookup, with_entry, with_entry_is_read_back, OrderedMap,
};
use crate::paths::{is_absolute_path, join_path, joined_path};
use crate::text::{chars_of, join, join_text};
use vstd::prelude::*;
use vstd::utf8::{
    decode_utf8, encode_utf8, encode_utf8_decode_utf8, encode_utf8_valid_utf8, is_char_boundary,
    valid_utf8,
};

verus! {

/// What a capability provider is asked.
#[derive(Debug, PartialEq)]
pub struct ProviderInvocation {
    pub slug: String,
    pub config: JsonValue,
    pub input: JsonValue,
}

/// What a [`ProviderInvocation`] holds.
#[verifier::ext_equal]
pub struct ProviderInvocationModel {
    pub slug: Seq<char>,
    pub config: JsonModel,
    pub input: JsonModel,
}

impl DeepView for ProviderInvocation {
    type V = ProviderInvocationModel;

    open spec fn deep_view(&self) -> ProviderInvocationModel {
        ProviderInvocationModel {
            slug: self.slug.deep_view(),
            config: self.config.deep_view(),
            input: self.input.deep_view(),
        }
    }
}

impl Clone for ProviderInvocation {
    fn clone(&self) -> (copy: Self)
        ensures
            copy.deep_view() == self.deep_view(),
    {
        let copy = ProviderInvocation {
            slug: self.slug.clone(),
            config: self.config.clone(),
            input: self.input.clone(),
        };
        copy
    }
}

impl FaithfulClone for ProviderInvocation {
    proof fn clone_keeps_model(original: Self, copy: Self) {
    }
}

/// What a capability provider answers.
#[derive(Debug, PartialEq)]
pub enum ProviderInvocationResult {
    Success { output: JsonValue },
    Failure { message: String },
}

/// What a [`ProviderInvocationResult`] holds.
#[verifier::ext_equal]
pub enum ProviderInvocationResultModel {
    Success { output: JsonModel },
    Failure { message: Seq<char> },
}

impl DeepView for ProviderInvocationResult {
    type V = ProviderInvocationResultModel;

    open spec fn deep_view(&self) -> ProviderInvocationResultModel {
        match self {
            ProviderInvocationResult::Success { output } => ProviderInvocationResultModel::Success {
                output: output.deep_view(),
            },
            ProviderInvocationResult::Failure { message } => ProviderInvocationResultModel::Failure {
                message: message.deep_view(),
            },
        }
    }
}

impl Clone for ProviderInvocationResult {
    fn clone(&self) -> (copy: Self)
        ensures
            copy.deep_view() == self.deep_view(),
    {
        match self {
            ProviderInvocationResult::Success { output } => ProviderInvocationResult::Success {
                output: output.clone(),
            },
            ProviderInvocationResult::Failure { message } => ProviderInvocationResult::Failure {
                message: message.clone(),
            },
        }
    }
}

impl FaithfulClone for ProviderInvocationResult {
    proof fn clone_keeps_model(original: Self, copy: Self) {
    }
}

/// A step that builds what a bundle needs.
#[derive(Debug, PartialEq, Eq)]
pub enum BundleBuildStep {
    Cargo {
        package: String,
        lib: bool,
        bin: Option<String>,
        target: Option<String>,
        release: bool,
        features: Vec<String>,
    },
}

/// What a [`BundleBuildStep`] holds.
#[verifier::ext_equal]
pub enum BundleBuildStepModel {
    Cargo {
        package: Seq<char>,
        lib: bool,
        bin: Option<Seq<char>>,
        target: Option<Seq<char>>,
        release: bool,
        features: Seq<Seq<char>>,
    },
}

impl DeepView for BundleBuildStep {
    type V = BundleBuildStepModel;

    open spec fn deep_view(&self) -> BundleBuildStepModel {
        match self {
            BundleBuildStep::Cargo { package, lib, bin, target, release, features } => BundleBuildStepModel::Cargo {
                package: package.deep_view(),
                lib: *lib,
                bin: bin.deep_view(),
                target: target.deep_view(),
                release: *release,
                features: features.deep_view(),
            },
        }
    }
}

impl Clone for BundleBuildStep {
    fn clone(&self) -> (copy: Self)
        ensures
            copy.deep_view() == self.deep_view(),
    {
        match self {
            BundleBuildStep::Cargo { package, lib, bin, target, release, features } => {
                let features_copy = features.clone();
                assert(features_copy.deep_view() =~= features.deep_view());
                BundleBuildStep::Cargo {
                    package: package.clone(),
                    lib: *lib,
                    bin: bin.clone(),
                    target: target.clone(),
                    release: *release,
                    features: features_copy,
                }
            },
        }
    }
}

impl FaithfulClone for BundleBuildStep {
    proof fn clone_keeps_model(original: Self, copy: Self) {
    }
}

/// How a capability provider is reached.
#[derive(Debug, PartialEq)]
pub enum CapabilityTransport {
    Command {
        program: String,
        args: Vec<String>,
        env: OrderedMap<String, String>,
    },
}

/// What a [`CapabilityTransport`] holds.
#[verifier::ext_equal]
pub enum CapabilityTransportModel {
    Command {
        program: Seq<char>,
        args: Seq<Seq<char>>,
        env: Seq<(Seq<char>, Seq<char>)>,
    },
}

impl DeepView for CapabilityTransport {
    type V = CapabilityTransportModel;

    open spec fn deep_view(&self) -> CapabilityTransportModel {
        match self {
            CapabilityTransport::Command { program, args, env } => CapabilityTransportModel::Command {
                program: program.deep_view(),
                args: args.deep_view(),
                env: env.deep_view(),
            },
        }
    }
}

impl Clone for CapabilityTransport {
    fn clone(&self) -> (copy: Self)
        ensures
            copy.deep_view() == self.deep_view(),
    {
        match self {
            CapabilityTransport::Command { program, args, env } => {
                let args_copy = args.clone();
                assert(args_copy.deep_view() =~= args.deep_view());
                CapabilityTransport::Command {
                    program: program.clone(),
                    args: args_copy,
                    env: env.clone(),
                }
            },
        }
    }
}

impl FaithfulClone for CapabilityTransport {
    proof fn clone_keeps_model(original: Self, copy: Self) {
    }
}

/// A capability that a bundle binds to a provider.
#[derive(Debug, PartialEq)]
pub struct CapabilityBinding {
    pub slug: String,
    pub config: JsonValue,
    pub transport: CapabilityTransport,
}

/// What a [`CapabilityBinding`] holds.
#[verifier::ext_equal]
pub struct CapabilityBindingModel {
    pub slug: Seq<char>,
    pub config: JsonModel,
    pub transport: CapabilityTransportModel,
}

impl DeepView for CapabilityBinding {
    type V = CapabilityBindingModel;

    open spec fn deep_view(&self) -> CapabilityBindingModel {
        CapabilityBindingModel {
            slug: self.slug.deep_view(),
            config: self.config.deep_view(),
            transport: self.transport.deep_view(),
        }
    }
}

impl Clone for CapabilityBinding {
    fn clone(&self) -> (copy: Self)
        ensures
            copy.deep_view() == self.deep_view(),
    {
        let copy = CapabilityBinding {
            slug: self.slug.clone(),
            config: self.config.clone(),
            transport: self.transport.clone(),
        };
        copy
    }
}

impl FaithfulClone for CapabilityBinding {
    proof fn clone_keeps_model(original: Self, copy: Self) {
    }
}

/// What a bundle consists of.
#[derive(Debug, PartialEq)]
pub struct AutomationBundleManifest {
    pub name: String,
    pub artifact: String,
    pub trigger_subscriptions: Vec<String>,
    pub build_steps: Vec<BundleBuildStep>,
    pub tools: Vec<CapabilityBinding>,
    pub inference: Vec<CapabilityBinding>,
}

/// What a [`AutomationBundleManifest`] holds.
#[verifier::ext_equal]
pub struct AutomationBundleManifestModel {
    pub name: Seq<char>,
    pub artifact: Seq<char>,
    pub trigger_subscriptions: Seq<Seq<char>>,
    pub build_steps: Seq<BundleBuildStepModel>,
    pub tools: Seq<CapabilityBindingModel>,
    pub inference: Seq<CapabilityBindingModel>,
}

impl DeepView for AutomationBundleManifest {
    type V = AutomationBundleManifestModel;

    open spec fn deep_view(&self) -> AutomationBundleManifestModel {
        AutomationBundleManifestModel {
            name: self.name.deep_view(),
            artifact: self.artifact.deep_view(),
            trigger_subscriptions: self.trigger_subscriptions.deep_view(),
            build_steps: self.build_steps.deep_view(),
            tools: self.tools.deep_view(),
            inference: self.inference.deep_view(),
        }
    }
}

impl Clone for AutomationBundleManifest {
    fn clone(&self) -> (copy: Self)
        ensures
            copy.deep_view() == self.deep_view(),
    {
        let copy = AutomationBundleManifest {
            name: self.name.clone(),
            artifact: self.artifact.clone(),
            trigger_subscriptions: self.trigger_subscriptions.clone(),
            build_steps: self.build_steps.clone(),
            tools: self.tools.clone(),
            inference: self.inference.clone(),
        };
        assert(copy.trigger_subscriptions.deep_view() =~= self.trigger_subscriptions.deep_view());
        assert(copy.build_steps.deep_view() =~= self.build_steps.deep_view());
        assert(copy.tools.deep_view() =~= self.tools.deep_view());
        assert(copy.inference.deep_view() =~= self.inference.deep_view());
        copy
    }
}

impl FaithfulClone for AutomationBundleManifest {
    proof fn clone_keeps_model(original: Self, copy: Self) {
    }
}

/// A provider that runs as a command: the invocation goes in as JSON, the answer
/// comes out as JSON.
#[derive(Debug, PartialEq)]
pub struct CommandJsonCapabilityProvider {
    pub program: String,
    pub args: Vec<String>,
    pub env: OrderedMap<String, String>,
}

/// What a [`CommandJsonCapabilityProvider`] holds.
#[verifier::ext_equal]
pub struct CommandJsonCapabilityProviderModel {
    pub program: Seq<char>,
    pub args: Seq<Seq<char>>,
    pub env: Seq<(Seq<char>, Seq<char>)>,
}

impl DeepView for CommandJsonCapabilityProvider {
    type V = CommandJsonCapabilityProviderModel;

    open spec fn deep_view(&self) -> CommandJsonCapabilityProviderModel {
        CommandJsonCapabilityProviderModel {
            program: self.program.deep_view(),
            args: self.args.deep_view(),
            env: self.env.deep_view(),
        }
    }
}

impl Clone for CommandJsonCapabilityProvider {
    fn clone(&self) -> (copy: Self)
        ensures
            copy.deep_view() == self.deep_view(),
    {
        let copy = CommandJsonCapabilityProvider {
            program: self.program.clone(),
            args: self.args.clone(),
            env: self.env.clone(),
        };
        assert(copy.args.deep_view() =~= self.args.deep_view());
        copy
    }
}

impl FaithfulClone for CommandJsonCapabilityProvider {
    proof fn clone_keeps_model(original: Self, copy: Self) {
    }
}

/// What came of a command.
#[derive(Debug, PartialEq)]
pub struct CommandOutput {
    pub success: bool,
    /// The exit status as text.
    pub status: String,
    pub stdout: Vec<u8>,
    pub stderr: Vec<u8>,
}

/// What a [`CommandOutput`] holds.
#[verifier::ext_equal]
pub struct CommandOutputModel {
    pub success: bool,
    pub status: Seq<char>,
    pub stdout: Seq<u8>,
    pub stderr: Seq<u8>,
}

impl DeepView for CommandOutput {
    type V = CommandOutputModel;

    open spec fn deep_view(&self) -> CommandOutputModel {
        CommandOutputModel {
            success: self.success,
            status: self.status.deep_view(),
            stdout: self.stdout.deep_view(),
            stderr: self.stderr.deep_view(),
        }
    }
}

impl Clone for CommandOutput {
    fn clone(&self) -> (copy: Self)
        ensures
            copy.deep_view() == self.deep_view(),
    {
        let copy = CommandOutput {
            success: self.success,
            status: self.status.clone(),
            stdout: self.stdout.clone(),
            stderr: self.stderr.clone(),
        };
        assert(copy.stdout.deep_view() =~= self.stdout.deep_view());
        assert(copy.stderr.deep_view() =~= self.stderr.deep_view());
        copy
    }
}

impl FaithfulClone for CommandOutput {
    proof fn clone_keeps_model(original: Self, copy: Self) {
    }
}

impl CapabilityTransportModel {
    /// The transport as seen from `base_dir`.
    pub open spec fn resolved(self, base_dir: Seq<char>) -> Self {
        match self {
            CapabilityTransportModel::Command { program, args, env } => {
                CapabilityTransportModel::Command {
                    program: joined_path(base_dir, program),
                    args,
                    env,
                }
            },
        }
    }
}

impl CapabilityBindingModel {
    /// The binding as seen from `base_dir`.
    pub open spec fn resolved(self, base_dir: Seq<char>) -> Self {
        CapabilityBindingModel { transport: self.transport.resolved(base_dir), ..self }
    }
}

/// The bindings as seen from `base_dir`.
pub open spec fn resolved_bindings(
    bindings: Seq<CapabilityBindingModel>,
    base_dir: Seq<char>,
) -> Seq<CapabilityBindingModel> {
    bindings.map_values(|binding: CapabilityBindingModel| binding.resolved(base_dir))
}

impl AutomationBundleManifestModel {
    /// The manifest as seen from `base_dir`.
    pub open spec fn resolved(self, base_dir: Seq<char>) -> Self {
        AutomationBundleManifestModel {
            artifact: joined_path(base_dir, self.artifact),
            tools: resolved_bindings(self.tools, base_dir),
            inference: resolved_bindings(self.inference, base_dir),
            ..self
        }
    }
}

/// A manifest that was resolved against an absolute directory stays as it is,
/// wherever it is resolved again.
pub proof fn resolved_manifest_stays(
    manifest: AutomationBundleManifestModel,
    base_dir: Seq<char>,
    other_dir: Seq<char>,
)
    requires
        is_absolute_path(base_dir),
    ensures
        manifest.resolved(base_dir).resolved(other_dir) == manifest.resolved(base_dir),
{
    let once = manifest.resolved(base_dir);
    let twice = once.resolved(other_dir);
    assert(twice.tools =~= once.tools);
    assert(twice.inference =~= once.inference);
}

impl CapabilityTransport {
    /// The transport as seen from `base_dir`.
    pub fn resolved_against(&self, base_dir: &str) -> (resolved: Self)
        ensures
            resolved.deep_view() == self.deep_view().resolved(base_dir@),
    {
        match self {
            CapabilityTransport::Command { program, args, env } => {
                let args_copy = args.clone();
                assert(args_copy.deep_view() =~= args.deep_view());
                CapabilityTransport::Command {
                    program: join_path(base_dir, program.as_str()),
                    args: args_copy,
                    env: env.clone(),
                }
            },
        }
    }
}

impl CapabilityBinding {
    /// The binding as seen from `base_dir`.
    pub fn resolved_against(&self, base_dir: &str) -> (resolved: Self)
        ensures
            resolved.deep_view() == self.deep_view().resolved(base_dir@),
    {
        CapabilityBinding {
            slug: self.slug.clone(),
            config: self.config.clone(),
            transport: self.transport.resolved_against(base_dir),
        }
    }
}

fn resolve_bindings(bindings: &Vec<CapabilityBinding>, base_dir: &str) -> (resolved: Vec<
    CapabilityBinding,
>)
    ensures
        resolved.deep_view() == resolved_bindings(bindings.deep_view(), base_dir@),
{
    let ghost model = bindings.deep_view();
    let mut resolved: Vec<CapabilityBinding> = Vec::new();
    let mut i: usize = 0;
    while i < bindings.len()
        invariant
            i <= bindings.len(),
            model == bindings.deep_view(),
            resolved.len() == i,
            forall|k: int|
                0 <= k < i ==> (#[trigger] resolved@[k]).deep_view() == model[k].resolved(
                    base_dir@,
                ),
        decreases bindings.len() - i,
    {
        resolved.push(bindings[i].resolved_against(base_dir));
        i += 1;
    }
    assert(resolved.deep_view() =~= resolved_bindings(model, base_dir@));
    resolved
}

impl AutomationBundleManifest {
    /// The manifest as seen from `base_dir`: relative paths go below it.
    pub fn resolved_against(&self, base_dir: &str) -> (resolved: Self)
        ensures
            resolved.deep_view() == self.deep_view().resolved(base_dir@),
    {
        let copy = self.clone();
        AutomationBundleManifest {
            name: copy.name,
            artifact: join_path(base_dir, self.artifact.as_str()),
            trigger_subscriptions: copy.trigger_subscriptions,
            build_steps: copy.build_steps,
            tools: resolve_bindings(&self.tools, base_dir),
            inference: resolve_bindings(&self.inference, base_dir),
        }
    }

    /// The build steps of the bundle that are to be run, in their order.
    pub fn ensure_artifacts_built(&self) -> (plan: Vec<BundleBuildStep>)
        ensures
            plan.deep_view() == build_plan(self.deep_view().build_steps),
    {
        ensure_bundle_build_steps(&self.build_steps)
    }
}

/// `args` with a flag and its value at the end, where there is a value.
pub open spec fn with_option(
    args: Seq<Seq<char>>,
    flag: Seq<char>,
    value: Option<Seq<char>>,
) -> Seq<Seq<char>> {
    match value {
        Some(value) => args.push(flag).push(value),
        None => args,
    }
}

/// `args` with a flag at the end, where it is set.
pub open spec fn with_flag(args: Seq<Seq<char>>, flag: Seq<char>, set: bool) -> Seq<Seq<char>> {
    if set {
        args.push(flag)
    } else {
        args
    }
}

impl BundleBuildStepModel {
    /// The arguments of the command that runs the step.
    pub open spec fn args(self) -> Seq<Seq<char>> {
        match self {
            BundleBuildStepModel::Cargo { package, lib, bin, target, release, features } => {
                let built = with_option(seq!["build"@], "--package"@, Some(package));
                let chosen = with_option(with_flag(built, "--lib"@, lib), "--bin"@, bin);
                let released = with_flag(
                    with_option(chosen, "--target"@, target),
                    "--release"@,
                    release,
                );
                with_option(
                    released,
                    "--features"@,
                    if features.len() > 0 {
                        Some(join(features, ","@))
                    } else {
                        None
                    },
                )
            },
        }
    }

    /// What tells the command of one step from that of another.
    pub open spec fn key(self) -> Seq<char> {
        join(self.args(), "\u{0}"@)
    }
}

fn push_flag(args: &mut Vec<String>, flag: &str, set: bool)
    ensures
        final(args).deep_view() == with_flag(old(args).deep_view(), flag@, set),
{
    if set {
        args.push(flag.to_string());
        assert(args.deep_view() =~= old(args).deep_view().push(flag@));
    }
}

fn push_option(args: &mut Vec<String>, flag: &str, value: &Option<String>)
    ensures
        final(args).deep_view() == with_option(old(args).deep_view(), flag@, value.deep_view()),
{
    if let Some(value) = value {
        args.push(flag.to_string());
        args.push(value.clone());
        assert(args.deep_view() =~= old(args).deep_view().push(flag@).push(value@));
    }
}

impl BundleBuildStep {
    /// The arguments of the command that runs the step.
    pub fn command_args(&self) -> (args: Vec<String>)
        ensures
            args.deep_view() == self.deep_view().args(),
    {
        match self {
            BundleBuildStep::Cargo { package, lib, bin, target, release, features } => {
                let mut args: Vec<String> = Vec::new();
                args.push("build".to_string());
                assert(args.deep_view() =~= seq!["build"@]);
                push_option(&mut args, "--package", &Some(package.clone()));
                push_flag(&mut args, "--lib", *lib);
                push_option(&mut args, "--bin", bin);
                push_option(&mut args, "--target", target);
                push_flag(&mut args, "--release", *release);
                if features.len() > 0 {
                    push_option(&mut args, "--features", &Some(join_text(features, ",")));
                }
                args
            },
        }
    }

    /// What tells the command of one step from that of another.
    pub fn command_key(&self) -> (key: String)
        ensures
            key@ == self.deep_view().key(),
    {
        join_text(&self.command_args(), "\u{0}")
    }
}

/// The steps that are run: each command once, at its first place.
pub open spec fn build_plan(steps: Seq<BundleBuildStepModel>) -> Seq<BundleBuildStepModel>
    decreases steps.len(),
{
    if steps.len() == 0 {
        Seq::empty()
    } else {
        let plan = build_plan(steps.drop_last());
        if exists|i: int|
            0 <= i < steps.len() - 1 && (#[trigger] steps[i]).key() == steps.last().key() {
            plan
        } else {
            plan.push(steps.last())
        }
    }
}

/// The build steps of a bundle that are to be run, in their order. A step whose
/// command was already run is left out.
pub fn ensure_bundle_build_steps(build_steps: &Vec<BundleBuildStep>) -> (plan: Vec<BundleBuildStep>)
    ensures
        plan.deep_view() == build_plan(build_steps.deep_view()),
{
    let ghost model = build_steps.deep_view();
    let mut seen: Vec<String> = Vec::new();
    let mut plan: Vec<BundleBuildStep> = Vec::new();
    let mut i: usize = 0;
    assert(plan.deep_view() =~= build_plan(model.take(0)));
    while i < build_steps.len()
        invariant
            i <= build_steps.len(),
            model == build_steps.deep_view(),
            seen.len() == i,
            forall|k: int| 0 <= k < i ==> (#[trigger] seen@[k])@ == model[k].key(),
            plan.deep_view() == build_plan(model.take(i as int)),
        decreases build_steps.len() - i,
    {
        let step = &build_steps[i];
        let key = step.command_key();
        let ghost taken = model.take(i + 1);
        proof {
            assert(taken.drop_last() =~= model.take(i as int));
            assert(taken.last() == step.deep_view());
        }
        let mut repeated = false;
        let mut j: usize = 0;
        while j < seen.len()
            invariant
                j <= seen.len(),
                seen.len() == i,
                i < model.len(),
                taken == model.take(i + 1),
                key@ == taken.last().key(),
                forall|k: int| 0 <= k < i ==> (#[trigger] seen@[k])@ == model[k].key(),
                repeated == exists|k: int|
                    0 <= k < j && (#[trigger] taken[k]).key() == taken.last().key(),
            decreases seen.len() - j,
        {
            assert(taken[j as int].key() == seen@[j as int]@);
            if seen[j] == key {
                repeated = true;
            }
            j += 1;
        }
        if !repeated {
            let ghost before = plan.deep_view();
            plan.push(step.clone());
            assert(plan.deep_view() =~= before.push(step.deep_view()));
        }
        seen.push(key);
        i += 1;
    }
    assert(model.take(i as int) =~= model);
    plan
}

/// Whether `plan` runs the command with the key `key`.
pub open spec fn runs_command(plan: Seq<BundleBuildStepModel>, key: Seq<char>) -> bool {
    exists|i: int| 0 <= i < plan.len() && (#[trigger] plan[i]).key() == key
}

proof fn lemma_plan_keys(steps: Seq<BundleBuildStepModel>)
    ensures
        forall|i: int|
            0 <= i < build_plan(steps).len() ==> exists|j: int|
                0 <= j < steps.len() && steps[j] == #[trigger] build_plan(steps)[i],
        forall|j: int|
            0 <= j < steps.len() ==> runs_command(build_plan(steps), (#[trigger] steps[j]).key()),
    decreases steps.len(),
{
    if steps.len() > 0 {
        let rest = steps.drop_last();
        lemma_plan_keys(rest);
        let plan = build_plan(steps);
        let before = build_plan(rest);
        assert forall|i: int| 0 <= i < plan.len() implies exists|j: int|
            0 <= j < steps.len() && steps[j] == #[trigger] plan[i] by {
            if i < before.len() {
                assert(plan[i] == before[i]);
                let j = choose|j: int| 0 <= j < rest.len() && rest[j] == before[i];
                assert(steps[j] == plan[i]);
            } else {
                assert(steps[steps.len() - 1] == plan[i]);
            }
        }
        assert forall|j: int| 0 <= j < steps.len() implies runs_command(
            plan,
            (#[trigger] steps[j]).key(),
        ) by {
            if j < rest.len() {
                assert(rest[j] == steps[j]);
                let i = choose|i: int|
                    0 <= i < before.len() && (#[trigger] before[i]).key() == rest[j].key();
                assert(plan[i] == before[i]);
            } else if plan.len() == before.len() {
                let k = choose|k: int|
                    0 <= k < steps.len() - 1 && (#[trigger] steps[k]).key() == steps.last().key();
                assert(rest[k] == steps[k]);
                let i = choose|i: int|
                    0 <= i < before.len() && (#[trigger] before[i]).key() == rest[k].key();
                assert(plan[i] == before[i]);
            } else {
                assert(plan[before.len() as int] == steps[j]);
            }
        }
    }
}

proof fn lemma_plan_is_distinct(steps: Seq<BundleBuildStepModel>)
    ensures
        forall|i: int, j: int|
            0 <= i < j < build_plan(steps).len() ==> (#[trigger] build_plan(steps)[i]).key() != (
            #[trigger] build_plan(steps)[j]).key(),
    decreases steps.len(),
{
    if steps.len() > 0 {
        let rest = steps.drop_last();
        lemma_plan_is_distinct(rest);
        let plan = build_plan(steps);
        let before = build_plan(rest);
        let last = steps.last();
        let repeated = exists|i: int|
            0 <= i < steps.len() - 1 && (#[trigger] steps[i]).key() == last.key();
        if !repeated {
            assert forall|i: int| 0 <= i < before.len() implies (
            #[trigger] before[i]).key() != last.key() by {
                lemma_plan_keys(rest);
                let k = choose|k: int| 0 <= k < rest.len() && rest[k] == before[i];
                assert(steps[k] == rest[k]);
            }
            assert(plan =~= before.push(last));
        }
    }
}

/// No command is run twice, and every step has its command run.
pub proof fn each_command_is_run_once(steps: Seq<BundleBuildStepModel>)
    ensures
        forall|i: int, j: int|
            0 <= i < j < build_plan(steps).len() ==> (#[trigger] build_plan(steps)[i]).key() != (
            #[trigger] build_plan(steps)[j]).key(),
        forall|j: int|
            0 <= j < steps.len() ==> runs_command(build_plan(steps), (#[trigger] steps[j]).key()),
{
    lemma_plan_keys(steps);
    lemma_plan_is_distinct(steps);
}

/// Why a build step that ended with `status` failed.
pub fn build_step_failure(step: &BundleBuildStep, status: &str) -> (error: AutomationsError)
    ensures
        error.deep_view() == AutomationsErrorModel::Provider(
            "cargo "@ + join(step.deep_view().args(), " "@) + " exited with status "@ + status@,
        ),
{
    AutomationsError::Provider(
        "cargo ".to_string().concat(join_text(&step.command_args(), " ").as_str()).concat(
            " exited with status ",
        ).concat(status),
    )
}

/// What answers the invocations of a capability: a command, or a provider of the
/// kind `P` that the program brings along.
#[derive(Debug, PartialEq)]
pub enum CapabilityProvider<P> {
    Command(CommandJsonCapabilityProvider),
    Other(P),
}

/// What a [`CapabilityProvider`] holds.
#[verifier::ext_equal]
pub enum CapabilityProviderModel<P> {
    Command(CommandJsonCapabilityProviderModel),
    Other(P),
}

impl<P> DeepView for CapabilityProvider<P> {
    type V = CapabilityProviderModel<P>;

    open spec fn deep_view(&self) -> CapabilityProviderModel<P> {
        match self {
            CapabilityProvider::Command(command) => CapabilityProviderModel::Command(
                command.deep_view(),
            ),
            CapabilityProvider::Other(provider) => CapabilityProviderModel::Other(*provider),
        }
    }
}

/// A provider under a slug, with its configuration.
#[derive(Debug, PartialEq)]
pub struct RegisteredCapability<P> {
    pub config: JsonValue,
    pub provider: CapabilityProvider<P>,
}

/// What a [`RegisteredCapability`] holds.
#[verifier::ext_equal]
pub struct RegisteredCapabilityModel<P> {
    pub config: JsonModel,
    pub provider: CapabilityProviderModel<P>,
}

impl<P> DeepView for RegisteredCapability<P> {
    type V = RegisteredCapabilityModel<P>;

    open spec fn deep_view(&self) -> RegisteredCapabilityModel<P> {
        RegisteredCapabilityModel {
            config: self.config.deep_view(),
            provider: self.provider.deep_view(),
        }
    }
}

impl CapabilityTransportModel {
    /// The provider that the transport reaches.
    pub open spec fn provider(self) -> CommandJsonCapabilityProviderModel {
        match self {
            CapabilityTransportModel::Command { program, args, env } => {
                CommandJsonCapabilityProviderModel { program, args, env }
            },
        }
    }
}

/// The capabilities after `binding` was registered: it takes the place of what its
/// slug had.
pub open spec fn bound<P>(
    bindings: Seq<(Seq<char>, RegisteredCapabilityModel<P>)>,
    binding: CapabilityBindingModel,
) -> Seq<(Seq<char>, RegisteredCapabilityModel<P>)> {
    with_entry::<String, RegisteredCapabilityModel<P>>(
        bindings,
        binding.slug,
        RegisteredCapabilityModel {
            config: binding.config,
            provider: CapabilityProviderModel::Command(binding.transport.provider()),
        },
    )
}

/// The capabilities after `added` were registered, in their order.
pub open spec fn bound_all<P>(
    bindings: Seq<(Seq<char>, RegisteredCapabilityModel<P>)>,
    added: Seq<CapabilityBindingModel>,
) -> Seq<(Seq<char>, RegisteredCapabilityModel<P>)>
    decreases added.len(),
{
    if added.len() == 0 {
        bindings
    } else {
        bound(bound_all(bindings, added.drop_last()), added.last())
    }
}

/// What `slug` is asked for `input`, and of which provider, or why it is not.
pub open spec fn invocation_for<P>(
    bindings: Seq<(Seq<char>, RegisteredCapabilityModel<P>)>,
    slug: Seq<char>,
    input: JsonModel,
) -> Result<
    (CapabilityProviderModel<P>, ProviderInvocationModel),
    AutomationsErrorModel,
> {
    match lookup::<String, RegisteredCapabilityModel<P>>(bindings, slug) {
        None => Err(
            AutomationsErrorModel::Provider("no provider registered for slug `"@ + slug + "`"@),
        ),
        Some(capability) => Ok(
            (
                capability.provider,
                ProviderInvocationModel { slug, config: capability.config, input },
            ),
        ),
    }
}

/// The provider that was registered last under a slug is the one that is asked, with
/// the configuration that came with it. Other slugs stay as they were.
pub proof fn registered_provider_is_asked<P>(
    bindings: Seq<(Seq<char>, RegisteredCapabilityModel<P>)>,
    slug: Seq<char>,
    capability: RegisteredCapabilityModel<P>,
    input: JsonModel,
    other: Seq<char>,
)
    requires
        in_key_order::<String, RegisteredCapabilityModel<P>>(bindings),
    ensures
        invocation_for(
            with_entry::<String, RegisteredCapabilityModel<P>>(bindings, slug, capability),
            slug,
            input,
        ) == Ok::<(CapabilityProviderModel<P>, ProviderInvocationModel), AutomationsErrorModel>(
            (
                capability.provider,
                ProviderInvocationModel { slug, config: capability.config, input },
            ),
        ),
        other != slug ==> invocation_for(
            with_entry::<String, RegisteredCapabilityModel<P>>(bindings, slug, capability),
            other,
            input,
        ) == invocation_for(bindings, other, input),
{
    with_entry_is_read_back::<String, RegisteredCapabilityModel<P>>(bindings, slug, capability);
    if other != slug {
        let before = lookup::<String, RegisteredCapabilityModel<P>>(bindings, other);
        assert(lookup::<String, RegisteredCapabilityModel<P>>(
            with_entry::<String, RegisteredCapabilityModel<P>>(bindings, slug, capability),
            other,
        ) == before);
    }
}

/// The capabilities that can be invoked, by slug. Besides commands, providers of the
/// kind `P` can be registered.
#[derive(Debug)]
pub struct CapabilityRegistry<P> {
    pub bindings: OrderedMap<String, RegisteredCapability<P>>,
}

/// The registry of the tools of a bundle.
pub type ToolRegistry<P> = CapabilityRegistry<P>;

/// The registry of the inference capabilities of a bundle.
pub type InferenceRegistry<P> = CapabilityRegistry<P>;

impl<P> CapabilityRegistry<P> {
    /// A registry without capabilities.
    pub fn new() -> (registry: Self)
        ensures
            registry.bindings.deep_view().len() == 0,
    {
        CapabilityRegistry { bindings: OrderedMap::new() }
    }

    /// Put `provider` under `slug`.
    pub fn register(&mut self, slug: String, config: JsonValue, provider: P)
        ensures
            final(self).bindings.deep_view() == with_entry::<String, RegisteredCapabilityModel<P>>(
                old(self).bindings.deep_view(),
                slug@,
                RegisteredCapabilityModel {
                    config: config.deep_view(),
                    provider: CapabilityProviderModel::Other(provider),
                },
            ),
    {
        self.bindings.insert(
            slug,
            RegisteredCapability { config, provider: CapabilityProvider::Other(provider) },
        );
    }

    /// Register a capability of a bundle.
    pub fn register_binding(&mut self, binding: &CapabilityBinding)
        ensures
            final(self).bindings.deep_view() == bound(
                old(self).bindings.deep_view(),
                binding.deep_view(),
            ),
    {
        let command = match &binding.transport {
            CapabilityTransport::Command { program, args, env } => {
                let args_copy = args.clone();
                assert(args_copy.deep_view() =~= args.deep_view());
                CommandJsonCapabilityProvider {
                    program: program.clone(),
                    args: args_copy,
                    env: env.clone(),
                }
            },
        };
        self.bindings.insert(
            binding.slug.clone(),
            RegisteredCapability {
                config: binding.config.clone(),
                provider: CapabilityProvider::Command(command),
            },
        );
    }

    /// Register the capabilities of a bundle, in their order.
    pub fn register_bindings(&mut self, bindings: &Vec<CapabilityBinding>)
        ensures
            final(self).bindings.deep_view() == bound_all(
                old(self).bindings.deep_view(),
                bindings.deep_view(),
            ),
    {
        let ghost model = bindings.deep_view();
        let ghost before = self.bindings.deep_view();
        let mut i: usize = 0;
        assert(model.take(0) =~= Seq::empty());
        while i < bindings.len()
            invariant
                i <= bindings.len(),
                model == bindings.deep_view(),
                before == old(self).bindings.deep_view(),
                self.bindings.deep_view() == bound_all(before, model.take(i as int)),
            decreases bindings.len() - i,
        {
            self.register_binding(&bindings[i]);
            assert(model.take(i + 1).drop_last() =~= model.take(i as int));
            assert(model.take(i + 1).last() == bindings@[i as int].deep_view());
            i += 1;
        }
        assert(model.take(i as int) =~= model);
    }

    /// The provider of `slug`, and what it is asked for `input`.
    pub fn invoke(&self, slug: &String, input: JsonValue) -> (result: Result<
        (&CapabilityProvider<P>, ProviderInvocation),
        AutomationsError,
    >)
        ensures
            match invocation_for(self.bindings.deep_view(), slug@, input.deep_view()) {
                Ok(asked) => result is Ok && result->Ok_0.0.deep_view() == asked.0
                    && result->Ok_0.1.deep_view() == asked.1,
                Err(error) => result is Err && result->Err_0.deep_view() == error,
            },
    {
        match self.bindings.get(slug) {
            Some(capability) => Ok(
                (
                    &capability.provider,
                    ProviderInvocation {
                        slug: slug.clone(),
                        config: capability.config.clone(),
                        input,
                    },
                ),
            ),
            None => Err(
                AutomationsError::Provider(
                    "no provider registered for slug `".to_string().concat(slug.as_str()).concat(
                        "`",
                    ),
                ),
            ),
        }
    }
}

/// `bytes` as text, with a replacement character for what is no UTF-8.
pub uninterp spec fn utf8_lossy(bytes: Seq<u8>) -> Seq<char>;

/// `String::from_utf8_lossy` turns bytes into text. Bytes that are UTF-8 are taken
/// as they are. For others the contract names the text and says nothing of what
/// stands for them.
#[verifier::external_body]
fn lossy_text(bytes: &Vec<u8>) -> (text: String)
    ensures
        text@ == utf8_lossy(bytes@),
        valid_utf8(bytes@) ==> text@ == decode_utf8(bytes@),
{
    String::from_utf8_lossy(bytes).into_owned()
}

/// `text` with each line break written out.
pub open spec fn on_one_line(text: Seq<char>) -> Seq<char>
    decreases text.len(),
{
    if text.len() == 0 {
        Seq::empty()
    } else if text.last() == '\n' {
        on_one_line(text.drop_last()) + "\\n"@
    } else {
        on_one_line(text.drop_last()).push(text.last())
    }
}

/// Write each line break of `text` out.
pub fn write_on_one_line(text: &str) -> (line: String)
    ensures
        line@ == on_one_line(text@),
{
    let chars = chars_of(text);
    let mut line = String::new();
    let mut i: usize = 0;
    while i < chars.len()
        invariant
            i <= chars.len(),
            chars@ == text@,
            line@ == on_one_line(text@.take(i as int)),
        decreases chars.len() - i,
    {
        assert(text@.take(i + 1).drop_last() =~= text@.take(i as int));
        if chars[i] == '\n' {
            line.append("\\n");
        } else {
            line.push(chars[i]);
        }
        i += 1;
    }
    assert(text@.take(i as int) =~= text@);
    line
}

/// The number of bytes that a snippet of output shows.
pub const SNIPPET_LIMIT: usize = 240;

/// What is shown of `text`: all of it, or its first bytes.
pub open spec fn shortened(text: Seq<char>) -> Seq<char> {
    if encode_utf8(text).len() <= SNIPPET_LIMIT {
        text
    } else {
        decode_utf8(encode_utf8(text).subrange(0, SNIPPET_LIMIT as int)) + "..."@
    }
}

/// Whether `text` can be shortened without cutting a character.
pub open spec fn can_be_shortened(text: Seq<char>) -> bool {
    encode_utf8(text).len() > SNIPPET_LIMIT ==> is_char_boundary(
        encode_utf8(text),
        SNIPPET_LIMIT as int,
    )
}

/// What is shown of `text`, or nothing where a character would be cut.
pub fn shorten(text: &str) -> (shown: Option<String>)
    ensures
        shown is Some <==> can_be_shortened(text@),
        shown is Some ==> shown->0@ == shortened(text@),
{
    if text.as_bytes().len() <= SNIPPET_LIMIT {
        return Some(text.to_string());
    }
    if !text.is_char_boundary(SNIPPET_LIMIT) {
        return None;
    }
    let (head, _) = text.split_at(SNIPPET_LIMIT);
    proof {
        encode_utf8_valid_utf8(head@);
        encode_utf8_decode_utf8(head@);
    }
    Some(head.to_string().concat("..."))
}

/// What is shown of the output of a command.
pub open spec fn snippet_of(bytes: Seq<u8>) -> Seq<char> {
    if bytes.len() == 0 {
        "<empty>"@
    } else {
        shortened(on_one_line(utf8_lossy(bytes)))
    }
}

/// Whether the output of a command can be shown without cutting a character.
pub open spec fn can_be_shown(bytes: Seq<u8>) -> bool {
    bytes.len() == 0 || can_be_shortened(on_one_line(utf8_lossy(bytes)))
}

/// What is shown of the output of a command, or nothing where a character would
/// be cut.
pub fn render_output_snippet(bytes: &Vec<u8>) -> (snippet: Option<String>)
    ensures
        snippet is Some <==> can_be_shown(bytes@),
        snippet is Some ==> snippet->0@ == snippet_of(bytes@),
{
    if bytes.len() == 0 {
        return Some("<empty>".to_string());
    }
    shorten(write_on_one_line(lossy_text(bytes).as_str()).as_str())
}

impl CommandJsonCapabilityProvider {
    /// Whether the command ended well, or why it failed.
    pub fn check_status(&self, output: &CommandOutput) -> (result: Result<(), AutomationsError>)
        ensures
            result is Ok <==> output.success,
            result is Err ==> result->Err_0.deep_view() == AutomationsErrorModel::Provider(
                self.program@ + " exited with status "@ + output.status@ + ": "@ + utf8_lossy(
                    output.stderr@,
                ),
            ),
    {
        if output.success {
            return Ok(());
        }
        Err(
            AutomationsError::Provider(
                self.program.clone().concat(" exited with status ").concat(
                    output.status.as_str(),
                ).concat(": ").concat(lossy_text(&output.stderr).as_str()),
            ),
        )
    }

    /// Why the answer of the command could not be read, with what is shown of its
    /// output.
    pub fn decode_failure(&self, reason: &str, stdout: &str, stderr: &str) -> (error:
        AutomationsError)
        ensures
            error.deep_view() == AutomationsErrorModel::Provider(
                "failed to decode provider response from "@ + self.program@ + ": "@ + reason@
                    + "; stdout=`"@ + stdout@ + "` stderr=`"@ + stderr@ + "`"@,
            ),
    {
        AutomationsError::Provider(
            "failed to decode provider response from ".to_string().concat(
                self.program.as_str(),
            ).concat(": ").concat(reason).concat("; stdout=`").concat(stdout).concat(
                "` stderr=`",
            ).concat(stderr).concat("`"),
        )
    }
}

/// What a command answered whose output was decoded to `decoded`: the failure of
/// the command comes before what it wrote.
pub open spec fn answer_of(
    program: Seq<char>,
    output: CommandOutputModel,
    decoded: Result<ProviderInvocationResultModel, Seq<char>>,
) -> Result<JsonModel, AutomationsErrorModel> {
    if !output.success {
        Err(
            AutomationsErrorModel::Provider(
                program + " exited with status "@ + output.status + ": "@ + utf8_lossy(
                    output.stderr,
                ),
            ),
        )
    } else {
        match decoded {
            Ok(ProviderInvocationResultModel::Success { output }) => Ok(output),
            Ok(ProviderInvocationResultModel::Failure { message }) => Err(
                AutomationsErrorModel::Provider(message),
            ),
            Err(reason) => Err(
                AutomationsErrorModel::Provider(
                    "failed to decode provider response from "@ + program + ": "@ + reason
                        + "; stdout=`"@ + snippet_of(output.stdout) + "` stderr=`"@ + snippet_of(
                        output.stderr,
                    ) + "`"@,
                ),
            ),
        }
    }
}

impl CommandJsonCapabilityProvider {
    /// What the command answered. `decoded` is what its output holds, or why it
    /// cannot be read. There is no answer where an output that cannot be read cannot
    /// be shown either.
    pub fn answer(
        &self,
        output: &CommandOutput,
        decoded: Result<ProviderInvocationResult, String>,
    ) -> (answer: Option<Result<JsonValue, AutomationsError>>)
        ensures
            answer is None <==> {
                &&& output.success
                &&& decoded is Err
                &&& !can_be_shown(output.stdout@) || !can_be_shown(output.stderr@)
            },
            answer matches Some(result) ==> match answer_of(
                self.program@,
                output.deep_view(),
                match decoded {
                    Ok(decoded) => Ok(decoded.deep_view()),
                    Err(reason) => Err(reason@),
                },
            ) {
                Ok(value) => result is Ok && result->Ok_0.deep_view() == value,
                Err(error) => result is Err && result->Err_0.deep_view() == error,
            },
    {
        assert(output.stdout.deep_view() =~= output.stdout@);
        assert(output.stderr.deep_view() =~= output.stderr@);
        if let Err(error) = self.check_status(output) {
            return Some(Err(error));
        }
        match decoded {
            Ok(decoded) => Some(decoded.into_output()),
            Err(reason) => match (
                render_output_snippet(&output.stdout),
                render_output_snippet(&output.stderr),
            ) {
                (Some(stdout), Some(stderr)) => Some(
                    Err(
                        self.decode_failure(reason.as_str(), stdout.as_str(), stderr.as_str()),
                    ),
                ),
                _ => None,
            },
        }
    }
}

impl ProviderInvocationResult {
    /// The output of the provider, or the error that it reported.
    pub fn into_output(self) -> (result: Result<JsonValue, AutomationsError>)
        ensures
            match self.deep_view() {
                ProviderInvocationResultModel::Success { output } => result is Ok
                    && result->Ok_0.deep_view() == output,
                ProviderInvocationResultModel::Failure { message } => result is Err
                    && result->Err_0.deep_view() == AutomationsErrorModel::Provider(message),
            },
    {
        match self {
            ProviderInvocationResult::Success { output } => Ok(output),
            ProviderInvocationResult::Failure { message } => Err(
                AutomationsError::Provider(message),
            ),
        }
    }
}

}
