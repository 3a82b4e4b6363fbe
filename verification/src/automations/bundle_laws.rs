//! What bundles and their providers do, told of the fields of the results.

use crate::automations::bundle_host::{
    bundle_activation, bundles_for, completed, dispatch_order, effect_plan, hosted_bindings,
    hosted_config, scoped_automation_id, BundleActivationModel, BundleDispatchOutcomeModel,
    BundleTriggerEventModel, EffectPlanModel,
};
use crate::automations::domain::{
    EffectObservationModel, EventSubmissionModel, ManagedAutomationModel, RevisionId,
};
use crate::automations::error::AutomationsErrorModel;
use crate::automations::providers::{
    answer_of, bound, bound_all, build_plan, can_be_shortened, can_be_shown, invocation_for,
    on_one_line, shortened, snippet_of, utf8_lossy, AutomationBundleManifestModel,
    BundleBuildStepModel, CapabilityBindingModel, CapabilityProviderModel, CapabilityTransportModel,
    CommandOutputModel, ProviderInvocationResultModel, RegisteredCapabilityModel,
};
use crate::automations::transitions::automation_in;
use crate::json::JsonModel;
use crate::ordered_map::{in_key_order, lookup, with_entry_is_read_back};
use crate::paths::joined_path;
use crate::protocol::{
    AutomationEventModel, EffectKindModel, EffectRequestModel, EffectResultModel, EventDisposition,
};
use crate::text::{decimal, join};
use vstd::prelude::*;
use vstd::utf8::{decode_utf8, encode_utf8, is_char_boundary};

verus! {

/// After a submission an automation is listed exactly where it was listed before, or
/// where it is the one that submitted and handled the trigger. What a submission shows
/// stands behind what was shown.
pub proof fn submission_lists_who_handled_it(
    outcome: BundleDispatchOutcomeModel,
    automation_id: Seq<char>,
    submission: EventSubmissionModel,
    name: Seq<char>,
)
    ensures
        ({
            let after = outcome.with_submission(automation_id, submission);
            let listed = outcome.handled_automations.contains(name);
            &&& after.handled_automations.contains(name) <==> listed || (name == automation_id
                && submission.disposition == EventDisposition::Handled)
            &&& submission.disposition != EventDisposition::Handled ==> after.handled_automations
                == outcome.handled_automations
            &&& after.handled_automations.take(outcome.handled_automations.len() as int)
                == outcome.handled_automations
            &&& after.handled_automations.len() <= outcome.handled_automations.len() + 1
            &&& after.observations.len() == outcome.observations.len()
                + submission.observations.len()
            &&& forall|i: int|
                0 <= i < outcome.observations.len() ==> (#[trigger] after.observations[i])
                    == outcome.observations[i]
            &&& forall|i: int|
                0 <= i < submission.observations.len()
                    ==> after.observations[outcome.observations.len() + i]
                    == #[trigger] submission.observations[i]
        }),
{
    let after = outcome.with_submission(automation_id, submission);
    let before = outcome.handled_automations;
    assert(after.handled_automations.take(before.len() as int) =~= before);
    if before.contains(name) {
        let i = before.index_of(name);
        assert(after.handled_automations[i] == name);
    }
    if after.handled_automations.contains(name) {
        let i = after.handled_automations.index_of(name);
        if i < before.len() {
            assert(before[i] == name);
        }
    }
    if submission.disposition == EventDisposition::Handled {
        if before.contains(automation_id) {
        } else {
            assert(after.handled_automations[before.len() as int] == automation_id);
        }
    }
}

/// What a bundle needs to run in a scope, from what is kept of its automation there.
pub proof fn bundle_needs_what_is_missing(
    automations: Seq<(Seq<char>, ManagedAutomationModel)>,
    manifest: AutomationBundleManifestModel,
    scope_key: Seq<char>,
)
    ensures
        match automation_in(automations, manifest.name + "/"@ + scope_key) {
            None => {
                &&& bundle_activation(automations, manifest, scope_key) matches Ok(
                    BundleActivationModel::Register(request),
                )
                &&& request.automation_id == manifest.name + "/"@ + scope_key
                &&& request.artifact_path == manifest.artifact
                &&& request.config matches JsonModel::Object(members)
                &&& members.len() == 2
                &&& members[0] == ("bundle_name"@, JsonModel::Text(manifest.name))
                &&& members[1] == ("scope_key"@, JsonModel::Text(scope_key))
            },
            Some(automation) => {
                &&& automation.active_revision_id is Some ==> bundle_activation(
                    automations,
                    manifest,
                    scope_key,
                ) == Ok::<BundleActivationModel, AutomationsErrorModel>(
                    BundleActivationModel::Active,
                )
                &&& automation.active_revision_id is None && automation.revisions.len() > 0 ==> {
                    &&& bundle_activation(automations, manifest, scope_key) matches Ok(
                        BundleActivationModel::Activate { revision_id },
                    )
                    &&& revision_id == automation.revisions[automation.revisions.len() - 1].0
                }
                &&& automation.active_revision_id is None && automation.revisions.len() == 0 ==> {
                    &&& bundle_activation(automations, manifest, scope_key) matches Err(error)
                    &&& error == AutomationsErrorModel::State(
                        "automation `"@ + (manifest.name + "/"@ + scope_key)
                            + "` has no registered revisions"@,
                    )
                }
            },
        },
        scoped_automation_id(manifest.name, scope_key) == manifest.name + "/"@ + scope_key,
{
}

/// A trigger goes to the bundles in their order, and triggers go in theirs.
pub proof fn triggers_go_in_order(
    triggers: Seq<BundleTriggerEventModel>,
    subscriptions: Seq<Seq<Seq<char>>>,
    i: int,
    j: int,
)
    requires
        0 <= i < j < dispatch_order(triggers, subscriptions).len(),
    ensures
        ({
            let earlier = dispatch_order(triggers, subscriptions)[i];
            let later = dispatch_order(triggers, subscriptions)[j];
            &&& 0 <= earlier.0 <= later.0 < triggers.len()
            &&& earlier.0 == later.0 ==> earlier.1 < later.1
        }),
    decreases triggers.len(),
{
    let last = triggers.len() - 1;
    let before = dispatch_order(triggers.drop_last(), subscriptions);
    let taken = bundles_for(triggers.last().name, last, subscriptions);
    let all = dispatch_order(triggers, subscriptions);
    assert(all == before + taken);
    if i < before.len() {
        lemma_triggers_are_named(triggers.drop_last(), subscriptions, i);
        assert(all[i] == before[i]);
    } else {
        assert(all[i] == taken[i - before.len()]);
    }
    if j < before.len() {
        triggers_go_in_order(triggers.drop_last(), subscriptions, i, j);
        assert(all[j] == before[j]);
    } else {
        let k = j - before.len();
        assert(all[j] == taken[k]);
        lemma_bundles_are_named(triggers.last().name, last, subscriptions, k);
        if i >= before.len() {
            lemma_bundles_are_named(triggers.last().name, last, subscriptions, i - before.len());
            lemma_bundles_in_order(
                triggers.last().name,
                last,
                subscriptions,
                i - before.len(),
                k,
            );
        }
    }
}

proof fn lemma_triggers_are_named(
    triggers: Seq<BundleTriggerEventModel>,
    subscriptions: Seq<Seq<Seq<char>>>,
    i: int,
)
    requires
        0 <= i < dispatch_order(triggers, subscriptions).len(),
    ensures
        0 <= dispatch_order(triggers, subscriptions)[i].0 < triggers.len(),
    decreases triggers.len(),
{
    let last = triggers.len() - 1;
    let before = dispatch_order(triggers.drop_last(), subscriptions);
    if i < before.len() {
        lemma_triggers_are_named(triggers.drop_last(), subscriptions, i);
    } else {
        lemma_bundles_are_named(triggers.last().name, last, subscriptions, i - before.len());
    }
}

proof fn lemma_bundles_are_named(
    name: Seq<char>,
    place: int,
    subscriptions: Seq<Seq<Seq<char>>>,
    i: int,
)
    requires
        0 <= i < bundles_for(name, place, subscriptions).len(),
    ensures
        bundles_for(name, place, subscriptions)[i].0 == place,
        0 <= bundles_for(name, place, subscriptions)[i].1 < subscriptions.len(),
    decreases subscriptions.len(),
{
    let before = bundles_for(name, place, subscriptions.drop_last());
    if i < before.len() {
        lemma_bundles_are_named(name, place, subscriptions.drop_last(), i);
        assert(bundles_for(name, place, subscriptions)[i] == before[i]);
    }
}

proof fn lemma_bundles_in_order(
    name: Seq<char>,
    place: int,
    subscriptions: Seq<Seq<Seq<char>>>,
    i: int,
    j: int,
)
    requires
        0 <= i < j < bundles_for(name, place, subscriptions).len(),
    ensures
        bundles_for(name, place, subscriptions)[i].1 < bundles_for(
            name,
            place,
            subscriptions,
        )[j].1,
    decreases subscriptions.len(),
{
    let before = bundles_for(name, place, subscriptions.drop_last());
    assert(bundles_for(name, place, subscriptions)[i] == before[i]);
    if j < before.len() {
        lemma_bundles_in_order(name, place, subscriptions.drop_last(), i, j);
        assert(bundles_for(name, place, subscriptions)[j] == before[j]);
    } else {
        lemma_bundles_are_named(name, place, subscriptions.drop_last(), i);
    }
}

/// How a bundle handles each kind of effect. A notification is shown as it was asked
/// for. A tool is sought among the tools and an inference among the inference
/// capabilities: its provider is asked with the configuration it was registered with.
/// Where it is not registered, the guest hears of the failure. Nothing else is handled.
pub proof fn effects_go_where_they_belong<P>(
    tools: Seq<(Seq<char>, RegisteredCapabilityModel<P>)>,
    inference: Seq<(Seq<char>, RegisteredCapabilityModel<P>)>,
    effect: EffectRequestModel,
    now: i64,
)
    ensures
        match effect.kind {
            EffectKindModel::EmitNotification { channel, title, body, metadata } => {
                &&& effect_plan(tools, inference, effect, now) matches EffectPlanModel::Done(
                    outcome,
                )
                &&& outcome.follow_up_events.len() == 0
                &&& outcome.observations.len() == 1
                &&& outcome.observations[0] == (EffectObservationModel::Notification {
                    effect_id: effect.effect_id,
                    channel,
                    title,
                    body,
                    metadata,
                })
            },
            EffectKindModel::CallTool { slug, input } => match lookup::<
                String,
                RegisteredCapabilityModel<P>,
            >(tools, slug) {
                Some(capability) => {
                    &&& effect_plan(tools, inference, effect, now) matches EffectPlanModel::Invoke {
                        provider,
                        invocation,
                    }
                    &&& provider == capability.provider
                    &&& invocation.slug == slug
                    &&& invocation.config == capability.config
                    &&& invocation.input == input
                },
                None => {
                    &&& effect_plan(tools, inference, effect, now) matches EffectPlanModel::Done(
                        outcome,
                    )
                    &&& outcome.observations.len() == 0
                    &&& outcome.follow_up_events.len() == 1
                    &&& outcome.follow_up_events[0] == (AutomationEventModel::EffectCompleted {
                        effect_id: effect.effect_id,
                        result: EffectResultModel::Failure(
                            "provider invocation failed: "@ + ("no provider registered for slug `"@
                                + slug + "`"@),
                        ),
                        at: now,
                    })
                },
            },
            EffectKindModel::RunInference { capability: slug, input } => match lookup::<
                String,
                RegisteredCapabilityModel<P>,
            >(inference, slug) {
                Some(capability) => {
                    &&& effect_plan(tools, inference, effect, now) matches EffectPlanModel::Invoke {
                        provider,
                        invocation,
                    }
                    &&& provider == capability.provider
                    &&& invocation.slug == slug
                    &&& invocation.config == capability.config
                    &&& invocation.input == input
                },
                None => {
                    &&& effect_plan(tools, inference, effect, now) matches EffectPlanModel::Done(
                        outcome,
                    )
                    &&& outcome.observations.len() == 0
                    &&& outcome.follow_up_events.len() == 1
                    &&& outcome.follow_up_events[0] == (AutomationEventModel::EffectCompleted {
                        effect_id: effect.effect_id,
                        result: EffectResultModel::Failure(
                            "provider invocation failed: "@ + ("no provider registered for slug `"@
                                + slug + "`"@),
                        ),
                        at: now,
                    })
                },
            },
            _ => effect_plan(tools, inference, effect, now) is Unsupported,
        },
{
}

/// What came of an effect is told to the guest in one event, and nothing is shown.
pub proof fn guest_hears_of_its_effect(
    effect_id: Seq<char>,
    result: EffectResultModel,
    now: i64,
)
    ensures
        completed(effect_id, result, now).observations.len() == 0,
        completed(effect_id, result, now).follow_up_events.len() == 1,
        completed(effect_id, result, now).follow_up_events[0] == (
        AutomationEventModel::EffectCompleted { effect_id, result, at: now }),
{
}

/// The bindings of a bundle keep their slugs and their transports; each configuration
/// tells what the host tells its providers.
pub proof fn bindings_are_told_of_the_host(
    bindings: Seq<CapabilityBindingModel>,
    host_context: JsonModel,
    i: int,
)
    requires
        0 <= i < bindings.len(),
    ensures
        hosted_bindings(bindings, host_context).len() == bindings.len(),
        hosted_bindings(bindings, host_context)[i].slug == bindings[i].slug,
        hosted_bindings(bindings, host_context)[i].transport == bindings[i].transport,
        hosted_bindings(bindings, host_context)[i].config == hosted_config(
            bindings[i].config,
            host_context,
        ),
{
}

/// What a binding registers under its slug: its configuration, and the command of its
/// transport with its arguments and its environment. Other slugs stay.
pub proof fn binding_registers_its_command<P>(
    bindings: Seq<(Seq<char>, RegisteredCapabilityModel<P>)>,
    binding: CapabilityBindingModel,
    other: Seq<char>,
)
    requires
        in_key_order::<String, RegisteredCapabilityModel<P>>(bindings),
    ensures
        in_key_order::<String, RegisteredCapabilityModel<P>>(bound(bindings, binding)),
        lookup::<String, RegisteredCapabilityModel<P>>(
            bound(bindings, binding),
            binding.slug,
        ) matches Some(capability) && {
            &&& capability.config == binding.config
            &&& binding.transport matches CapabilityTransportModel::Command { program, args, env }
            &&& capability.provider matches CapabilityProviderModel::Command(command)
            &&& command.program == program
            &&& command.args == args
            &&& command.env == env
        },
        other != binding.slug ==> lookup::<String, RegisteredCapabilityModel<P>>(
            bound(bindings, binding),
            other,
        ) == lookup::<String, RegisteredCapabilityModel<P>>(bindings, other),
{
    with_entry_is_read_back::<String, RegisteredCapabilityModel<P>>(
        bindings,
        binding.slug,
        RegisteredCapabilityModel {
            config: binding.config,
            provider: CapabilityProviderModel::Command(binding.transport.provider()),
        },
    );
    let before = lookup::<String, RegisteredCapabilityModel<P>>(bindings, other);
    assert(other != binding.slug ==> lookup::<String, RegisteredCapabilityModel<P>>(
        bound(bindings, binding),
        other,
    ) == before);
}

/// Of several bindings with one slug the last one is registered, and a slug that none
/// has stays as it was.
pub proof fn last_binding_of_a_slug_is_registered<P>(
    bindings: Seq<(Seq<char>, RegisteredCapabilityModel<P>)>,
    added: Seq<CapabilityBindingModel>,
    slug: Seq<char>,
    place: int,
)
    requires
        in_key_order::<String, RegisteredCapabilityModel<P>>(bindings),
    ensures
        in_key_order::<String, RegisteredCapabilityModel<P>>(bound_all(bindings, added)),
        (forall|i: int| 0 <= i < added.len() ==> (#[trigger] added[i]).slug != slug) ==> lookup::<
            String,
            RegisteredCapabilityModel<P>,
        >(bound_all(bindings, added), slug) == lookup::<String, RegisteredCapabilityModel<P>>(
            bindings,
            slug,
        ),
        0 <= place < added.len() && added[place].slug == slug && (forall|i: int|
            place < i < added.len() ==> (#[trigger] added[i]).slug != slug) ==> {
            &&& lookup::<String, RegisteredCapabilityModel<P>>(
                bound_all(bindings, added),
                slug,
            ) matches Some(capability)
            &&& capability.config == added[place].config
            &&& added[place].transport matches CapabilityTransportModel::Command {
                program,
                args,
                env,
            }
            &&& capability.provider matches CapabilityProviderModel::Command(command)
            &&& command.program == program
            &&& command.args == args
            &&& command.env == env
        },
    decreases added.len(),
{
    if added.len() > 0 {
        let rest = added.drop_last();
        let last = added.last();
        let end = added.len() - 1;
        assert(added[end] == last);
        last_binding_of_a_slug_is_registered(bindings, rest, slug, place);
        binding_registers_its_command(bound_all(bindings, rest), last, slug);
        if last.slug != slug {
            if 0 <= place < end {
                assert(rest[place] == added[place]);
            }
            assert forall|i: int| 0 <= i < rest.len() implies rest[i] == added[i] by {}
        }
    }
}

/// What is asked of a slug is asked of its provider, with its configuration and the
/// input as it came. A slug that is not registered is refused by name.
pub proof fn slug_is_asked_with_its_config<P>(
    bindings: Seq<(Seq<char>, RegisteredCapabilityModel<P>)>,
    slug: Seq<char>,
    input: JsonModel,
)
    ensures
        match lookup::<String, RegisteredCapabilityModel<P>>(bindings, slug) {
            Some(capability) => {
                &&& invocation_for(bindings, slug, input) matches Ok(asked)
                &&& asked.0 == capability.provider
                &&& asked.1.slug == slug
                &&& asked.1.config == capability.config
                &&& asked.1.input == input
            },
            None => {
                &&& invocation_for(bindings, slug, input) matches Err(error)
                &&& error == AutomationsErrorModel::Provider(
                    "no provider registered for slug `"@ + slug + "`"@,
                )
            },
        },
{
}

/// A provider that runs as a command: one that failed is an error with its status and
/// what it wrote to its error output, whatever else it wrote; of one that ended well
/// the output is what it answered, or the error it answered.
pub proof fn command_answers_in_full(
    program: Seq<char>,
    output: CommandOutputModel,
    decoded: Result<ProviderInvocationResultModel, Seq<char>>,
)
    ensures
        !output.success ==> answer_of(program, output, decoded) == Err::<
            JsonModel,
            AutomationsErrorModel,
        >(
            AutomationsErrorModel::Provider(
                program + " exited with status "@ + output.status + ": "@ + utf8_lossy(
                    output.stderr,
                ),
            ),
        ),
        output.success ==> match decoded {
            Ok(ProviderInvocationResultModel::Success { output: value }) => answer_of(
                program,
                output,
                decoded,
            ) matches Ok(told) && told == value,
            Ok(ProviderInvocationResultModel::Failure { message }) => answer_of(
                program,
                output,
                decoded,
            ) matches Err(error) && error == AutomationsErrorModel::Provider(message),
            Err(reason) => answer_of(program, output, decoded) matches Err(error) && error
                == AutomationsErrorModel::Provider(
                "failed to decode provider response from "@ + program + ": "@ + reason
                    + "; stdout=`"@ + snippet_of(output.stdout) + "` stderr=`"@ + snippet_of(
                    output.stderr,
                ) + "`"@,
            ),
        },
{
}

/// A line holds no line break, and a text without line breaks is its own line. Texts
/// put together give their lines put together.
pub proof fn lines_hold_no_break(text: Seq<char>, more: Seq<char>)
    ensures
        !on_one_line(text).contains('\n'),
        !text.contains('\n') ==> on_one_line(text) == text,
        on_one_line(text + more) == on_one_line(text) + on_one_line(more),
        on_one_line(seq!['\n']) == seq!['\\', 'n'],
    decreases text.len() + more.len(),
{
    reveal_strlit("\\n");
    assert(seq!['\n'].drop_last() =~= Seq::<char>::empty());
    assert(on_one_line(Seq::<char>::empty()) =~= Seq::<char>::empty());
    assert(on_one_line(seq!['\n']) =~= seq!['\\', 'n']);
    if more.len() > 0 {
        lines_hold_no_break(text, more.drop_last());
        assert((text + more).drop_last() =~= text + more.drop_last());
        assert(on_one_line(text + more) =~= on_one_line(text) + on_one_line(more));
    } else {
        assert(text + more =~= text);
        assert(on_one_line(text + more) =~= on_one_line(text) + on_one_line(more));
        if text.len() > 0 {
            let rest = text.drop_last();
            lines_hold_no_break(rest, more);
            let before = on_one_line(rest);
            let line = on_one_line(text);
            assert forall|i: int| 0 <= i < line.len() implies line[i] != '\n' by {
                if i < before.len() {
                    assert(line[i] == before[i]);
                    assert(!before.contains('\n'));
                    if before[i] == '\n' {
                        assert(before.contains(before[i]));
                    }
                }
            }
            if !text.contains('\n') {
                assert(!rest.contains('\n')) by {
                    if rest.contains('\n') {
                        let i = rest.index_of('\n');
                        assert(text[i] == '\n');
                    }
                }
                assert(text[text.len() - 1] != '\n') by {
                    if text[text.len() - 1] == '\n' {
                        assert(text.contains('\n'));
                    }
                }
                assert(line =~= text);
            }
        }
    }
}

/// What is shown of a text is all of it up to 240 bytes, and else its first 240 bytes
/// with three dots behind. Of an output that is empty it is said so. Everything can be
/// shown but where these bytes end within a character.
pub proof fn long_texts_are_cut(text: Seq<char>, bytes: Seq<u8>)
    ensures
        encode_utf8(text).len() <= 240 ==> shortened(text) == text,
        encode_utf8(text).len() > 240 ==> shortened(text) == decode_utf8(
            encode_utf8(text).subrange(0, 240),
        ) + "..."@,
        bytes.len() == 0 ==> snippet_of(bytes) == "<empty>"@,
        bytes.len() > 0 ==> snippet_of(bytes) == shortened(on_one_line(utf8_lossy(bytes))),
        can_be_shortened(text) <==> encode_utf8(text).len() <= 240 || is_char_boundary(
            encode_utf8(text),
            240,
        ),
        can_be_shown(bytes) <==> bytes.len() == 0 || can_be_shortened(
            on_one_line(utf8_lossy(bytes)),
        ),
{
}

/// A path that starts at the root is itself. Any other goes below the base, with one
/// `/` between them where the base ends with none.
pub proof fn relative_paths_go_below_their_base(base: Seq<char>, path: Seq<char>)
    ensures
        path.len() > 0 && path[0] == '/' ==> joined_path(base, path) == path,
        !(path.len() > 0 && path[0] == '/') && base.len() > 0 && base[base.len() - 1] != '/'
            ==> joined_path(base, path) == base + seq!['/'] + path,
        !(path.len() > 0 && path[0] == '/') && (base.len() == 0 || base[base.len() - 1] == '/')
            ==> joined_path(base, path) == base + path,
{
}

/// A manifest that is resolved keeps its name, its subscriptions, its build steps and
/// its bindings in their order with their slugs, configurations, arguments and
/// environments. Its artifact and the programs go below the directory.
pub proof fn resolved_manifest_moves_its_paths(
    manifest: AutomationBundleManifestModel,
    base_dir: Seq<char>,
)
    ensures
        ({
            let after = manifest.resolved(base_dir);
            &&& after.name == manifest.name
            &&& after.trigger_subscriptions == manifest.trigger_subscriptions
            &&& after.build_steps == manifest.build_steps
            &&& after.artifact == joined_path(base_dir, manifest.artifact)
            &&& after.tools.len() == manifest.tools.len()
            &&& after.inference.len() == manifest.inference.len()
            &&& forall|i: int|
                0 <= i < manifest.tools.len() ==> {
                    &&& (#[trigger] after.tools[i]).slug == manifest.tools[i].slug
                    &&& after.tools[i].config == manifest.tools[i].config
                    &&& manifest.tools[i].transport matches CapabilityTransportModel::Command {
                        program,
                        args,
                        env,
                    }
                    &&& after.tools[i].transport == (CapabilityTransportModel::Command {
                        program: joined_path(base_dir, program),
                        args,
                        env,
                    })
                }
            &&& forall|i: int|
                0 <= i < manifest.inference.len() ==> {
                    &&& (#[trigger] after.inference[i]).slug == manifest.inference[i].slug
                    &&& after.inference[i].config == manifest.inference[i].config
                    &&& manifest.inference[i].transport matches CapabilityTransportModel::Command {
                        program,
                        args,
                        env,
                    }
                    &&& after.inference[i].transport == (CapabilityTransportModel::Command {
                        program: joined_path(base_dir, program),
                        args,
                        env,
                    })
                }
        }),
{
}

/// The command of a build step: the package first, then what else is chosen, each only
/// where it is chosen, in one order.
pub proof fn build_command_names_what_is_chosen(
    package: Seq<char>,
    lib: bool,
    bin: Option<Seq<char>>,
    target: Option<Seq<char>>,
    release: bool,
    features: Seq<Seq<char>>,
)
    ensures
        (BundleBuildStepModel::Cargo { package, lib, bin, target, release, features }).args()
            == seq!["build"@, "--package"@, package] + (if lib {
            seq!["--lib"@]
        } else {
            Seq::empty()
        }) + (match bin {
            Some(bin) => seq!["--bin"@, bin],
            None => Seq::empty(),
        }) + (match target {
            Some(target) => seq!["--target"@, target],
            None => Seq::empty(),
        }) + (if release {
            seq!["--release"@]
        } else {
            Seq::empty()
        }) + (if features.len() > 0 {
            seq!["--features"@, join(features, ","@)]
        } else {
            Seq::empty()
        }),
{
    let args = (BundleBuildStepModel::Cargo {
        package,
        lib,
        bin,
        target,
        release,
        features,
    }).args();
    let told = seq!["build"@, "--package"@, package] + (if lib {
        seq!["--lib"@]
    } else {
        Seq::empty()
    }) + (match bin {
        Some(bin) => seq!["--bin"@, bin],
        None => Seq::empty(),
    }) + (match target {
        Some(target) => seq!["--target"@, target],
        None => Seq::empty(),
    }) + (if release {
        seq!["--release"@]
    } else {
        Seq::empty()
    }) + (if features.len() > 0 {
        seq!["--features"@, join(features, ","@)]
    } else {
        Seq::empty()
    });
    assert(args =~= told);
}

/// Joined texts: one text is itself, and more are put together with one separator
/// between each two.
pub proof fn texts_are_joined(parts: Seq<Seq<char>>, part: Seq<char>, separator: Seq<char>)
    ensures
        join(Seq::<Seq<char>>::empty(), separator) == Seq::<char>::empty(),
        join(seq![part], separator) == part,
        parts.len() > 0 ==> join(parts.push(part), separator) == join(parts, separator) + separator
            + part,
{
    assert(parts.push(part).drop_last() =~= parts);
}

/// A number in decimal: its digits give the number, there is one digit for each power of
/// ten, and no zero stands in front.
pub proof fn decimal_digits_give_the_number(n: nat)
    ensures
        n < 10 ==> decimal(n) == seq![(48 + n) as char],
        n >= 10 ==> decimal(n) == decimal(n / 10).push((48 + n % 10) as char),
        n > 0 ==> decimal(n)[0] != '0',
        decimal(n).len() > 0,
    decreases n,
{
    if n >= 10 {
        decimal_digits_give_the_number(n / 10);
    }
}

spec fn is_first(steps: Seq<BundleBuildStepModel>, i: int) -> bool {
    forall|j: int| 0 <= j < i ==> (#[trigger] steps[j]).key() != steps[i].key()
}

proof fn lemma_plan_places(steps: Seq<BundleBuildStepModel>) -> (places: Seq<int>)
    ensures
        build_plan(steps).len() == places.len(),
        forall|k: int|
            0 <= k < places.len() ==> 0 <= #[trigger] places[k] < steps.len() && build_plan(
                steps,
            )[k] == steps[places[k]],
        forall|a: int, b: int|
            0 <= a < b < places.len() ==> (#[trigger] places[a]) < (#[trigger] places[b]),
        forall|i: int|
            0 <= i < steps.len() ==> (#[trigger] places.contains(i) <==> is_first(steps, i)),
    decreases steps.len(),
{
    if steps.len() == 0 {
        Seq::empty()
    } else {
        let rest = steps.drop_last();
        let end = steps.len() - 1;
        let before = lemma_plan_places(rest);
        let repeated = exists|i: int|
            0 <= i < steps.len() - 1 && (#[trigger] steps[i]).key() == steps.last().key();
        let places = if repeated {
            before
        } else {
            before.push(end)
        };
        assert forall|k: int| 0 <= k < places.len() implies 0 <= #[trigger] places[k] < steps.len()
            && build_plan(steps)[k] == steps[places[k]] by {
            if k < before.len() {
                assert(places[k] == before[k]);
                assert(rest[before[k]] == steps[before[k]]);
            }
        }
        assert forall|i: int| 0 <= i < steps.len() implies (#[trigger] places.contains(i)
            <==> is_first(steps, i)) by {
            if i < end {
                assert(is_first(rest, i) == is_first(steps, i)) by {
                    assert(rest[i] == steps[i]);
                    assert forall|j: int| 0 <= j < i implies rest[j] == steps[j] by {}
                    if is_first(steps, i) {
                        assert forall|j: int| 0 <= j < i implies (#[trigger] rest[j]).key()
                            != rest[i].key() by {
                            assert(steps[j].key() != steps[i].key());
                        }
                    }
                    if is_first(rest, i) {
                        assert forall|j: int| 0 <= j < i implies (#[trigger] steps[j]).key()
                            != steps[i].key() by {
                            assert(rest[j].key() != rest[i].key());
                        }
                    }
                }
                if before.contains(i) {
                    let k = before.index_of(i);
                    assert(places[k] == i);
                }
                if places.contains(i) {
                    let k = places.index_of(i);
                    assert(before[k] == i);
                }
                assert(before.contains(i) <==> is_first(rest, i));
            } else {
                assert(steps[end] == steps.last());
                if !repeated {
                    assert(places[before.len() as int] == end);
                } else if places.contains(i) {
                    let k = before.index_of(i);
                    assert(before[k] == i);
                }
            }
        }
        places
    }
}

/// The steps of a plan are those whose command no earlier step has, in their order.
pub proof fn plan_keeps_first_steps(steps: Seq<BundleBuildStepModel>, i: int) -> (places: Seq<int>)
    requires
        0 <= i < steps.len(),
    ensures
        build_plan(steps).len() == places.len(),
        forall|k: int|
            0 <= k < places.len() ==> 0 <= #[trigger] places[k] < steps.len() && build_plan(
                steps,
            )[k] == steps[places[k]],
        forall|a: int, b: int|
            0 <= a < b < places.len() ==> (#[trigger] places[a]) < (#[trigger] places[b]),
        places.contains(i) <==> forall|j: int|
            0 <= j < i ==> join((#[trigger] steps[j]).args(), "\u{0}"@) != join(
                steps[i].args(),
                "\u{0}"@,
            ),
{
    let places = lemma_plan_places(steps);
    assert(places.contains(i) <==> is_first(steps, i));
    if is_first(steps, i) {
        assert forall|j: int| 0 <= j < i implies join((#[trigger] steps[j]).args(), "\u{0}"@)
            != join(steps[i].args(), "\u{0}"@) by {
            assert(steps[j].key() != steps[i].key());
        }
    }
    places
}

/// Each error tells in its sentence what it is and of whom.
pub proof fn errors_tell_what_happened(
    reason: Seq<char>,
    automation_id: Seq<char>,
    revision_id: RevisionId,
    capability: Seq<char>,
)
    ensures
        AutomationsErrorModel::State(reason).sentence() == "state backend failed: "@ + reason,
        AutomationsErrorModel::Io(reason).sentence() == "control plane I/O failed: "@ + reason,
        AutomationsErrorModel::Guest(reason).sentence() == "wasm guest failed: "@ + reason,
        AutomationsErrorModel::Provider(reason).sentence() == "provider invocation failed: "@
            + reason,
        AutomationsErrorModel::AutomationNotFound(automation_id).sentence() == "automation `"@
            + automation_id + "` was not found"@,
        (AutomationsErrorModel::NoActiveRevision { automation_id }).sentence() == "automation `"@
            + automation_id + "` has no active revision"@,
        (AutomationsErrorModel::RevisionNotFound { automation_id, revision_id }).sentence()
            == "revision "@ + decimal(revision_id as nat) + " for automation `"@ + automation_id
            + "` was not found"@,
        (AutomationsErrorModel::IncompatibleState { automation_id, revision_id }).sentence()
            == "revision "@ + decimal(revision_id as nat) + " for automation `"@ + automation_id
            + "` is incompatible with the current state"@,
        (AutomationsErrorModel::MissingCapability { automation_id, capability }).sentence()
            == "automation `"@ + automation_id + "` does not declare capability `"@ + capability
            + "`"@,
{
}

}
