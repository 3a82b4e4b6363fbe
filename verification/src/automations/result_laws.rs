//! What holds of the results of a control plane, of a universe that settles and of a
//! bundle host.

use crate::automations::bundle_host::{
    bundle_activation, hosted_bindings, hosted_config, providers_find_the_host_context,
    AutomationBundleHost, BundleActivationModel, BundleStart, BundleStartModel, LoadedBundle,
};
use crate::automations::bundle_laws::last_binding_of_a_slug_is_registered;
use crate::automations::clock::Clock;
use crate::automations::control_plane::{AutomationsControlPlane, Reconciliation};
use crate::automations::domain::{
    ActivationMode, ControlPlaneStateModel, ManagedAutomationModel, RegistrationRequestModel,
    RevisionId, TraceRecordModel,
};
use crate::automations::drive::EventDrive;
use crate::automations::due::DueWakeupModel;
use crate::automations::error::{AutomationsError, AutomationsErrorModel};
use crate::automations::pocket_universe::{round_went_on, settles_one, PocketUniverse, Settlement};
use crate::automations::providers::{
    bound_all, AutomationBundleManifestModel, CapabilityBindingModel, CapabilityProviderModel,
    CapabilityTransportModel, CommandJsonCapabilityProviderModel, RegisteredCapabilityModel,
};
use crate::automations::settlement::{
    dispatch_count, moved_by_answer, moved_by_dispatch, moved_by_effect, settlement_moved,
    SettlementMoment,
};
use crate::automations::store::{committed, ControlPlaneStore, MemoryControlPlaneStore};
use crate::automations::transitions::{
    activated, dispatched, effect_recorded, persisted, registered, took,
};
use crate::json::JsonModel;
use crate::ordered_map::{has_key_means_present, in_key_order, lookup, with_entry_is_read_back};
use crate::protocol::{AdvanceResponseModel, AutomationEventModel, RegistrationResponseModel};
use vstd::prelude::*;

verus! {

/// An operation that succeeds leaves what it makes of the state. One that fails says why
/// and leaves the state as it was.
pub proof fn outcome_is_taken_or_refused<T>(
    before: ControlPlaneStateModel,
    after: ControlPlaneStateModel,
    result: Result<T, AutomationsError>,
    outcome: Result<ControlPlaneStateModel, AutomationsErrorModel>,
)
    requires
        took(before, after, result, outcome),
    ensures
        result is Ok <==> outcome is Ok,
        outcome matches Ok(next) ==> after == next,
        outcome matches Err(error) ==> after == before && result->Err_0.deep_view() == error,
{
}

/// A store that took an operation in keeps what the operation makes of its state. One
/// that did not keeps its state, and a reliable one does not only where the operation
/// itself fails, for the same reason.
pub proof fn store_keeps_what_was_committed<B: ControlPlaneStore, T>(
    before: B,
    after: B,
    result: Result<T, AutomationsError>,
    outcome: Result<ControlPlaneStateModel, AutomationsErrorModel>,
)
    requires
        committed(before, after, result, outcome),
    ensures
        result is Ok ==> outcome == Ok::<ControlPlaneStateModel, AutomationsErrorModel>(
            after.content(),
        ),
        result is Err ==> after.content() == before.content(),
        before.reliable() ==> (result is Ok <==> outcome is Ok),
        before.reliable() && result is Err ==> outcome == Err::<
            ControlPlaneStateModel,
            AutomationsErrorModel,
        >(result->Err_0.deep_view()),
        after.reliable() <==> before.reliable(),
{
}

/// A store in memory keeps its state and never fails.
pub proof fn memory_is_reliable(store: MemoryControlPlaneStore)
    ensures
        store.reliable(),
        store.content() == store.state.deep_view(),
{
}

/// A control plane begins with nothing registered, nothing traced and no revision
/// numbered, and an automation with no revision, no state and no wakeup.
pub proof fn everything_begins_empty(automation_id: Seq<char>)
    ensures
        ControlPlaneStateModel::empty().automations.len() == 0,
        ControlPlaneStateModel::empty().traces.len() == 0,
        ControlPlaneStateModel::empty().next_revision_id == 0,
        ManagedAutomationModel::fresh(automation_id).automation_id == automation_id,
        ManagedAutomationModel::fresh(automation_id).revisions.len() == 0,
        ManagedAutomationModel::fresh(automation_id).active_revision_id is None,
        ManagedAutomationModel::fresh(automation_id).current_state is None,
        ManagedAutomationModel::fresh(automation_id).scheduled_wakeups.len() == 0,
        ManagedAutomationModel::fresh(automation_id).last_status is None,
{
}

/// A control plane whose parts are kept has the runtime, the handler of effects and the
/// clock that it had.
pub proof fn kept_parts_stay<B, R, H, C>(
    before: AutomationsControlPlane<B, R, H, C>,
    after: AutomationsControlPlane<B, R, H, C>,
) where B: ControlPlaneStore, C: Clock
    requires
        after.keeps_parts_of(before),
    ensures
        after.runtime == before.runtime,
        after.effect_handler == before.effect_handler,
        after.clock == before.clock,
{
}

/// A universe keeps what its store keeps and has the time of its clock, and its parts
/// are kept where only what it keeps has changed.
pub proof fn universe_is_its_control_plane<R, H>(
    universe: PocketUniverse<R, H>,
    before: PocketUniverse<R, H>,
    settlement: Settlement,
)
    ensures
        universe.state() == universe.control_plane.store.state.deep_view(),
        universe.now() == universe.control_plane.clock.now,
        universe.moment(settlement).state == universe.control_plane.store.state.deep_view(),
        universe.moment(settlement).total_dispatched == settlement.total_dispatched,
        universe.keeps_parts_of(before) ==> {
            &&& universe.control_plane.runtime == before.control_plane.runtime
            &&& universe.control_plane.effect_handler == before.control_plane.effect_handler
            &&& universe.control_plane.clock == before.control_plane.clock
        },
{
}

/// The wakeup that a settlement dispatches next is the first one of its round that is not
/// dispatched yet, at the time of the round; there is none without a round, or where all
/// of the round are dispatched.
pub proof fn next_wakeup_is_the_first_left(settlement: Settlement)
    requires
        settlement.wf(),
    ensures
        match settlement.round {
            None => settlement.next_wakeup() is None,
            Some(round) => {
                &&& round.dispatched <= round.due@.len()
                &&& round.dispatched == round.due@.len() ==> settlement.next_wakeup() is None
                &&& round.dispatched < round.due@.len() ==> settlement.next_wakeup() == Some(
                    (round.due@[round.dispatched as int].deep_view(), round.now),
                )
            },
        },
{
}

/// A round goes on with what it found at its time, and counts a wakeup only where it was
/// dispatched.
pub proof fn round_keeps_what_it_found(
    before: Reconciliation,
    after: Option<Reconciliation>,
    dispatched: bool,
)
    requires
        round_went_on(before, after, dispatched),
    ensures
        after is Some,
        after->0.now == before.now,
        after->0.due == before.due,
        dispatched ==> after->0.dispatched == before.dispatched + 1,
        !dispatched ==> after->0.dispatched == before.dispatched,
{
}

/// A universe settles a wakeup by dispatching it, and the guest hears that this wakeup
/// fired, at the time of the round. Where the dispatch fails the universe stays as it
/// was.
pub proof fn settled_wakeup_is_dispatched<R, H>(
    before: PocketUniverse<R, H>,
    after: PocketUniverse<R, H>,
    result: Result<Option<EventDrive>, AutomationsError>,
    wakeup: DueWakeupModel,
    now: i64,
)
    requires
        settles_one(before, after, result, wakeup, now),
    ensures
        result is Ok ==> dispatched(
            before.state(),
            wakeup.automation_id,
            wakeup.revision_id,
            wakeup.wakeup_id,
            wakeup.at,
            now,
        ) == Ok::<ControlPlaneStateModel, AutomationsErrorModel>(after.state()),
        result is Ok ==> {
            let drive = result->Ok_0->0.deep_view();
            &&& result->Ok_0 is Some
            &&& drive.automation_id == wakeup.automation_id
            &&& drive.now == now
            &&& drive.pending == seq![
                AutomationEventModel::WakeupFired { wakeup_id: wakeup.wakeup_id, at: now },
            ]
            &&& drive.effects.len() == 0
        },
        result is Err ==> after.state() == before.state(),
        result is Err ==> dispatched(
            before.state(),
            wakeup.automation_id,
            wakeup.revision_id,
            wakeup.wakeup_id,
            wakeup.at,
            now,
        ) == Err::<ControlPlaneStateModel, AutomationsErrorModel>(result->Err_0.deep_view()),
{
}

/// The count of dispatched wakeups grows by one with each trace of a dispatch, and with
/// no other.
pub proof fn each_dispatch_counts_once(traces: Seq<TraceRecordModel>, record: TraceRecordModel)
    ensures
        dispatch_count(Seq::empty()) == 0,
        record.event is WakeupDispatched ==> dispatch_count(traces.push(record)) == dispatch_count(
            traces,
        ) + 1,
        !(record.event is WakeupDispatched) ==> dispatch_count(traces.push(record))
            == dispatch_count(traces),
{
    assert(traces.push(record).drop_last() =~= traces);
}

/// A settlement moves by the dispatch of a wakeup, which it counts, or by an answer of a
/// guest or an effect of the host, which it does not.
pub proof fn settlement_moves_in_three_ways(before: SettlementMoment, after: SettlementMoment)
    requires
        settlement_moved(before, after),
    ensures
        after.total_dispatched == before.total_dispatched || after.total_dispatched
            == before.total_dispatched + 1,
        after.total_dispatched == before.total_dispatched + 1 ==> exists|
            wakeup: DueWakeupModel,
            now: i64,
        |
            #[trigger] dispatched(
                before.state,
                wakeup.automation_id,
                wakeup.revision_id,
                wakeup.wakeup_id,
                wakeup.at,
                now,
            ) == Ok::<ControlPlaneStateModel, AutomationsErrorModel>(after.state),
        after.total_dispatched == before.total_dispatched ==> {
            ||| exists|
                automation_id: Seq<char>,
                revision_id: RevisionId,
                event: AutomationEventModel,
                now: i64,
                response: AdvanceResponseModel,
            |
                #[trigger] persisted(
                    before.state,
                    automation_id,
                    revision_id,
                    event,
                    now,
                    response,
                ) == Ok::<ControlPlaneStateModel, AutomationsErrorModel>(after.state)
            ||| exists|
                automation_id: Seq<char>,
                revision_id: RevisionId,
                effect_id: Seq<char>,
                follow_up_events: usize,
                now: i64,
            |
                #[trigger] effect_recorded(
                    before.state,
                    automation_id,
                    revision_id,
                    effect_id,
                    follow_up_events,
                    now,
                ) == after.state
        },
{
    if exists|wakeup: DueWakeupModel, now: i64| #[trigger]
        moved_by_dispatch(before, after, wakeup, now) {
        let (wakeup, now) = choose|wakeup: DueWakeupModel, now: i64| #[trigger]
            moved_by_dispatch(before, after, wakeup, now);
        assert(dispatched(
            before.state,
            wakeup.automation_id,
            wakeup.revision_id,
            wakeup.wakeup_id,
            wakeup.at,
            now,
        ) == Ok::<ControlPlaneStateModel, AutomationsErrorModel>(after.state));
    } else if exists|
        automation_id: Seq<char>,
        revision_id: RevisionId,
        event: AutomationEventModel,
        now: i64,
        response: AdvanceResponseModel,
    | #[trigger]
        moved_by_answer(before, after, automation_id, revision_id, event, now, response) {
        let (automation_id, revision_id, event, now, response) = choose|
            automation_id: Seq<char>,
            revision_id: RevisionId,
            event: AutomationEventModel,
            now: i64,
            response: AdvanceResponseModel,
        | #[trigger]
            moved_by_answer(before, after, automation_id, revision_id, event, now, response);
        assert(persisted(before.state, automation_id, revision_id, event, now, response) == Ok::<
            ControlPlaneStateModel,
            AutomationsErrorModel,
        >(after.state));
    } else {
        let (automation_id, revision_id, effect_id, follow_up_events, now) = choose|
            automation_id: Seq<char>,
            revision_id: RevisionId,
            effect_id: Seq<char>,
            follow_up_events: usize,
            now: i64,
        | #[trigger]
            moved_by_effect(
                before,
                after,
                automation_id,
                revision_id,
                effect_id,
                follow_up_events,
                now,
            );
        assert(effect_recorded(
            before.state,
            automation_id,
            revision_id,
            effect_id,
            follow_up_events,
            now,
        ) == after.state);
    }
}

/// The configuration of a binding tells what the host tells under `host`. The other
/// members of an object stay beside it, and a value of another kind stands under
/// `binding`.
pub proof fn config_tells_of_the_host(config: JsonModel, host_context: JsonModel, name: Seq<char>)
    requires
        config matches JsonModel::Object(members) ==> in_key_order::<String, JsonModel>(members),
    ensures
        hosted_config(config, host_context) is Object,
        lookup::<String, JsonModel>(hosted_config(config, host_context)->Object_0, "host"@) == Some(
            host_context,
        ),
        name != "host"@ ==> lookup::<String, JsonModel>(
            hosted_config(config, host_context)->Object_0,
            name,
        ) == match config {
            JsonModel::Object(members) => lookup::<String, JsonModel>(members, name),
            JsonModel::Null => None,
            other => if name == "binding"@ {
                Some(other)
            } else {
                None
            },
        },
{
    providers_find_the_host_context(config, host_context);
    let hosted = hosted_config(config, host_context)->Object_0;
    if name != "host"@ {
        match config {
            JsonModel::Object(members) => {
                with_entry_is_read_back::<String, JsonModel>(members, "host"@, host_context);
                assert(lookup::<String, JsonModel>(hosted, name) == lookup::<String, JsonModel>(
                    members,
                    name,
                ));
            },
            _ => {
                has_key_means_present::<String, JsonModel>(hosted, name);
            },
        }
    }
}

/// A bundle that is loaded has the manifest that it was loaded from. Under a slug of its
/// tools it asks the command of the last tool that has it, with a configuration that
/// tells of the host, and under any other slug there is no tool.
pub proof fn loaded_bundle_has_its_tools<P>(
    bundle: LoadedBundle<P>,
    manifest: AutomationBundleManifestModel,
    host_context: JsonModel,
    slug: Seq<char>,
    place: int,
)
    requires
        bundle.is_loaded_from(manifest, host_context),
    ensures
        bundle.manifest.deep_view() == manifest,
        (forall|i: int| 0 <= i < manifest.tools.len() ==> (#[trigger] manifest.tools[i]).slug
            != slug) ==> lookup::<String, RegisteredCapabilityModel<P>>(
            bundle.tools.bindings.deep_view(),
            slug,
        ) is None,
        0 <= place < manifest.tools.len() && manifest.tools[place].slug == slug && (forall|i: int|
            place < i < manifest.tools.len() ==> (#[trigger] manifest.tools[i]).slug != slug) ==> {
            &&& lookup::<String, RegisteredCapabilityModel<P>>(
                bundle.tools.bindings.deep_view(),
                slug,
            ) matches Some(capability)
            &&& capability.config == hosted_config(manifest.tools[place].config, host_context)
            &&& manifest.tools[place].transport matches CapabilityTransportModel::Command {
                program,
                args,
                env,
            }
            &&& capability.provider == CapabilityProviderModel::<P>::Command(
                CommandJsonCapabilityProviderModel { program, args, env },
            )
        },
{
    lemma_bindings_of_manifest::<P>(manifest.tools, host_context, slug, place);
}

/// A bundle that is loaded asks under a slug of its inference the command of the last
/// inference that has it, with a configuration that tells of the host, and under any
/// other slug there is none.
pub proof fn loaded_bundle_has_its_inference<P>(
    bundle: LoadedBundle<P>,
    manifest: AutomationBundleManifestModel,
    host_context: JsonModel,
    slug: Seq<char>,
    place: int,
)
    requires
        bundle.is_loaded_from(manifest, host_context),
    ensures
        (forall|i: int|
            0 <= i < manifest.inference.len() ==> (#[trigger] manifest.inference[i]).slug != slug)
            ==> lookup::<String, RegisteredCapabilityModel<P>>(
            bundle.inference.bindings.deep_view(),
            slug,
        ) is None,
        0 <= place < manifest.inference.len() && manifest.inference[place].slug == slug && (forall|
            i: int,
        |
            place < i < manifest.inference.len() ==> (#[trigger] manifest.inference[i]).slug
                != slug) ==> {
            &&& lookup::<String, RegisteredCapabilityModel<P>>(
                bundle.inference.bindings.deep_view(),
                slug,
            ) matches Some(capability)
            &&& capability.config == hosted_config(manifest.inference[place].config, host_context)
            &&& manifest.inference[place].transport matches CapabilityTransportModel::Command {
                program,
                args,
                env,
            }
            &&& capability.provider == CapabilityProviderModel::<P>::Command(
                CommandJsonCapabilityProviderModel { program, args, env },
            )
        },
{
    lemma_bindings_of_manifest::<P>(manifest.inference, host_context, slug, place);
}

proof fn lemma_bindings_of_manifest<P>(
    bindings: Seq<CapabilityBindingModel>,
    host_context: JsonModel,
    slug: Seq<char>,
    place: int,
)
    ensures
        (forall|i: int| 0 <= i < bindings.len() ==> (#[trigger] bindings[i]).slug != slug)
            ==> lookup::<String, RegisteredCapabilityModel<P>>(
            bound_all(Seq::empty(), hosted_bindings(bindings, host_context)),
            slug,
        ) is None,
        0 <= place < bindings.len() && bindings[place].slug == slug && (forall|i: int|
            place < i < bindings.len() ==> (#[trigger] bindings[i]).slug != slug) ==> {
            &&& lookup::<String, RegisteredCapabilityModel<P>>(
                bound_all(Seq::empty(), hosted_bindings(bindings, host_context)),
                slug,
            ) matches Some(capability)
            &&& capability.config == hosted_config(bindings[place].config, host_context)
            &&& bindings[place].transport matches CapabilityTransportModel::Command {
                program,
                args,
                env,
            }
            &&& capability.provider == CapabilityProviderModel::<P>::Command(
                CommandJsonCapabilityProviderModel { program, args, env },
            )
        },
{
    let hosted = hosted_bindings(bindings, host_context);
    let none = Seq::<(Seq<char>, RegisteredCapabilityModel<P>)>::empty();
    last_binding_of_a_slug_is_registered::<P>(none, hosted, slug, place);
    has_key_means_present::<String, RegisteredCapabilityModel<P>>(none, slug);
    assert forall|i: int| 0 <= i < hosted.len() implies (#[trigger] hosted[i]).slug
        == bindings[i].slug by {}
    if 0 <= place < bindings.len() {
        assert(hosted[place].transport == bindings[place].transport);
    }
}

/// A host has every bundle that it was given, in their order, and no automation is bound
/// to one yet.
pub proof fn host_has_its_bundles<B, R, C, P>(
    host: AutomationBundleHost<B, R, C, P>,
    bundles: Seq<AutomationBundleManifestModel>,
    host_context: JsonModel,
    place: int,
) where B: ControlPlaneStore, C: Clock
    requires
        host.hosts(bundles, host_context),
        0 <= place < bundles.len(),
    ensures
        host.bundles@.len() == bundles.len(),
        host.bundles@[place].manifest.deep_view() == bundles[place],
        host.bundles@[place].is_loaded_from(bundles[place], host_context),
        host.bindings.deep_view().len() == 0,
        host.subscriptions().len() == bundles.len(),
        host.subscriptions()[place] == bundles[place].trigger_subscriptions,
{
    assert(host.bundles@[place].is_loaded_from(bundles[place], host_context));
}

/// The bundle of an automation is the one at the place that the automation is bound to.
pub proof fn automations_have_the_bundle_that_they_are_bound_to<B, R, C, P>(
    host: AutomationBundleHost<B, R, C, P>,
    automation_id: Seq<char>,
) where B: ControlPlaneStore, C: Clock
    ensures
        match lookup::<String, u64>(host.bindings.deep_view(), automation_id) {
            None => host.bundle_of(automation_id) is None,
            Some(place) => {
                &&& place < host.bundles@.len() ==> host.bundle_of(automation_id) == Some(
                    host.bundles@[place as int],
                )
                &&& place >= host.bundles@.len() ==> host.bundle_of(automation_id) is None
            },
        },
{
}

/// A bundle that runs is left as it is. One that is not registered is to be, and the
/// store stays until then. One that is registered is activated anew with the state that
/// it had, at a time that the clock shows, and its guest hears of it. Where it fails the
/// store keeps what it kept.
pub proof fn bundle_is_started_as_it_needs<B, R, C, P>(
    before: AutomationBundleHost<B, R, C, P>,
    after: AutomationBundleHost<B, R, C, P>,
    place: int,
    scope_key: Seq<char>,
    result: Result<BundleStart, AutomationsError>,
) where B: ControlPlaneStore, C: Clock
    requires
        AutomationBundleHost::bundle_started(before, after, place, scope_key, result),
    ensures
        ({
            let manifest = before.bundles@[place].manifest.deep_view();
            let automation_id = manifest.name + "/"@ + scope_key;
            let state = before.control_plane.store.content();
            let kept = after.control_plane.store.content();
            &&& result is Err ==> kept == state
            &&& match bundle_activation(state.automations, manifest, scope_key) {
                Ok(BundleActivationModel::Active) => {
                    &&& kept == state
                    &&& result is Ok ==> result->Ok_0.deep_view() == BundleStartModel::Active
                    &&& before.control_plane.store.reliable() ==> result is Ok
                },
                Ok(BundleActivationModel::Register(request)) => {
                    &&& kept == state
                    &&& result is Ok ==> result->Ok_0.deep_view() == BundleStartModel::Register(
                        request,
                    )
                    &&& before.control_plane.store.reliable() ==> result is Ok
                },
                Ok(BundleActivationModel::Activate { revision_id }) => {
                    &&& result is Ok ==> exists|now: i64|
                        {
                            &&& #[trigger] before.control_plane.clock.shows(now)
                            &&& activated(
                                state,
                                automation_id,
                                revision_id,
                                ActivationMode::PreserveState,
                                now,
                            ) == Ok::<ControlPlaneStateModel, AutomationsErrorModel>(kept)
                            &&& result->Ok_0.deep_view() is Started
                            &&& result->Ok_0.deep_view()->Started_0.automation_id == automation_id
                            &&& result->Ok_0.deep_view()->Started_0.now == now
                            &&& result->Ok_0.deep_view()->Started_0.pending == seq![
                                AutomationEventModel::Activated { at: now },
                            ]
                        }
                    &&& result is Err && before.control_plane.store.reliable() ==> exists|now: i64|
                        {
                            &&& #[trigger] before.control_plane.clock.shows(now)
                            &&& activated(
                                state,
                                automation_id,
                                revision_id,
                                ActivationMode::PreserveState,
                                now,
                            ) == Err::<ControlPlaneStateModel, AutomationsErrorModel>(
                                result->Err_0.deep_view(),
                            )
                        }
                },
                Err(error) => {
                    &&& result is Err
                    &&& before.control_plane.store.reliable() ==> result->Err_0.deep_view()
                        == error
                },
            }
        }),
{
}

/// A bundle is registered and then activated from its first state under the number that
/// the registration gave it. Where it fails the store keeps what it kept, or what the
/// registration alone made of it.
pub proof fn bundle_is_registered_and_activated<B, R, C, P>(
    before: AutomationBundleHost<B, R, C, P>,
    after: AutomationBundleHost<B, R, C, P>,
    request: RegistrationRequestModel,
    artifact_sha256: Seq<char>,
    registration: RegistrationResponseModel,
    registered_at: i64,
    now: i64,
    result: Result<EventDrive, AutomationsError>,
) where B: ControlPlaneStore, C: Clock
    requires
        AutomationBundleHost::bundle_registered(
            before,
            after,
            request,
            artifact_sha256,
            registration,
            registered_at,
            now,
            result,
        ),
    ensures
        ({
            let state = before.control_plane.store.content();
            let kept = after.control_plane.store.content();
            let known = registered(state, request, artifact_sha256, registration, registered_at);
            &&& result is Ok ==> {
                &&& activated(
                    known,
                    request.automation_id,
                    known.next_revision_id,
                    ActivationMode::ColdStart,
                    now,
                ) == Ok::<ControlPlaneStateModel, AutomationsErrorModel>(kept)
                &&& result->Ok_0.deep_view().automation_id == request.automation_id
                &&& result->Ok_0.deep_view().now == now
                &&& result->Ok_0.deep_view().pending == seq![
                    AutomationEventModel::Activated { at: now },
                ]
            }
            &&& result is Err ==> kept == state || kept == known
        }),
{
}

}
