//! What is kept of registered revisions and of their activations.
//!
//! What a guest registers, the events that it saw, the commands that it gave and
//! the notes that it left are kept as JSON values.

use crate::automation_control::error::ControlPlaneError;
use crate::json::{JsonModel, JsonValue};
use crate::model::FaithfulClone;
use crate::ordered_map::OrderedMap;
use vstd::prelude::*;

verus! {

/// The number of a registered revision.
pub type RevisionId = u64;

/// The number of an activation.
pub type ActivationId = u64;

/// A registered guest artifact.
#[derive(Debug, PartialEq)]
pub struct RegisteredRevision {
    pub revision_id: RevisionId,
    pub artifact_hash: String,
    pub artifact_path: String,
    pub registration: JsonValue,
}

/// What a [`RegisteredRevision`] holds.
#[verifier::ext_equal]
pub struct RegisteredRevisionModel {
    pub revision_id: RevisionId,
    pub artifact_hash: Seq<char>,
    pub artifact_path: Seq<char>,
    pub registration: JsonModel,
}

impl DeepView for RegisteredRevision {
    type V = RegisteredRevisionModel;

    open spec fn deep_view(&self) -> RegisteredRevisionModel {
        RegisteredRevisionModel {
            revision_id: self.revision_id,
            artifact_hash: self.artifact_hash.deep_view(),
            artifact_path: self.artifact_path.deep_view(),
            registration: self.registration.deep_view(),
        }
    }
}

impl Clone for RegisteredRevision {
    fn clone(&self) -> (copy: Self)
        ensures
            copy.deep_view() == self.deep_view(),
    {
        let copy = RegisteredRevision {
            revision_id: self.revision_id,
            artifact_hash: self.artifact_hash.clone(),
            artifact_path: self.artifact_path.clone(),
            registration: self.registration.clone(),
        };
        copy
    }
}

impl FaithfulClone for RegisteredRevision {
    proof fn clone_keeps_model(original: Self, copy: Self) {
    }
}

/// A wakeup of an activation.
#[derive(Debug, PartialEq)]
pub struct Wakeup {
    pub token: String,
    pub at: i64,
}

/// What a [`Wakeup`] holds.
#[verifier::ext_equal]
pub struct WakeupModel {
    pub token: Seq<char>,
    pub at: i64,
}

impl DeepView for Wakeup {
    type V = WakeupModel;

    open spec fn deep_view(&self) -> WakeupModel {
        WakeupModel {
            token: self.token.deep_view(),
            at: self.at,
        }
    }
}

impl Clone for Wakeup {
    fn clone(&self) -> (copy: Self)
        ensures
            copy.deep_view() == self.deep_view(),
    {
        let copy = Wakeup {
            token: self.token.clone(),
            at: self.at,
        };
        copy
    }
}

impl FaithfulClone for Wakeup {
    proof fn clone_keeps_model(original: Self, copy: Self) {
    }
}

/// One step of an activation.
#[derive(Debug, PartialEq)]
pub struct ActivationTraceRecord {
    pub at: i64,
    pub event: JsonValue,
    pub commands: Vec<JsonValue>,
    pub guest_trace: Vec<JsonValue>,
}

/// What a [`ActivationTraceRecord`] holds.
#[verifier::ext_equal]
pub struct ActivationTraceRecordModel {
    pub at: i64,
    pub event: JsonModel,
    pub commands: Seq<JsonModel>,
    pub guest_trace: Seq<JsonModel>,
}

impl DeepView for ActivationTraceRecord {
    type V = ActivationTraceRecordModel;

    open spec fn deep_view(&self) -> ActivationTraceRecordModel {
        ActivationTraceRecordModel {
            at: self.at,
            event: self.event.deep_view(),
            commands: self.commands.deep_view(),
            guest_trace: self.guest_trace.deep_view(),
        }
    }
}

impl Clone for ActivationTraceRecord {
    fn clone(&self) -> (copy: Self)
        ensures
            copy.deep_view() == self.deep_view(),
    {
        let copy = ActivationTraceRecord {
            at: self.at,
            event: self.event.clone(),
            commands: self.commands.clone(),
            guest_trace: self.guest_trace.clone(),
        };
        assert(copy.commands.deep_view() =~= self.commands.deep_view());
        assert(copy.guest_trace.deep_view() =~= self.guest_trace.deep_view());
        copy
    }
}

impl FaithfulClone for ActivationTraceRecord {
    proof fn clone_keeps_model(original: Self, copy: Self) {
    }
}

/// What is kept of one activation.
#[derive(Debug, PartialEq)]
pub struct ActivationRecord {
    pub activation_id: ActivationId,
    pub revision_id: RevisionId,
    pub profile: JsonValue,
    pub state: JsonValue,
    pub wakeups: OrderedMap<String, Wakeup>,
    pub trace_log: Vec<ActivationTraceRecord>,
}

/// What a [`ActivationRecord`] holds.
#[verifier::ext_equal]
pub struct ActivationRecordModel {
    pub activation_id: ActivationId,
    pub revision_id: RevisionId,
    pub profile: JsonModel,
    pub state: JsonModel,
    pub wakeups: Seq<(Seq<char>, WakeupModel)>,
    pub trace_log: Seq<ActivationTraceRecordModel>,
}

impl DeepView for ActivationRecord {
    type V = ActivationRecordModel;

    open spec fn deep_view(&self) -> ActivationRecordModel {
        ActivationRecordModel {
            activation_id: self.activation_id,
            revision_id: self.revision_id,
            profile: self.profile.deep_view(),
            state: self.state.deep_view(),
            wakeups: self.wakeups.deep_view(),
            trace_log: self.trace_log.deep_view(),
        }
    }
}

impl Clone for ActivationRecord {
    fn clone(&self) -> (copy: Self)
        ensures
            copy.deep_view() == self.deep_view(),
    {
        let copy = ActivationRecord {
            activation_id: self.activation_id,
            revision_id: self.revision_id,
            profile: self.profile.clone(),
            state: self.state.clone(),
            wakeups: self.wakeups.clone(),
            trace_log: self.trace_log.clone(),
        };
        assert(copy.trace_log.deep_view() =~= self.trace_log.deep_view());
        copy
    }
}

impl FaithfulClone for ActivationRecord {
    proof fn clone_keeps_model(original: Self, copy: Self) {
    }
}

/// Everything that is kept.
#[derive(Debug, PartialEq)]
pub struct ControlPlaneState {
    pub revisions: OrderedMap<RevisionId, RegisteredRevision>,
    pub activations: OrderedMap<ActivationId, ActivationRecord>,
    pub next_revision_id: RevisionId,
    pub next_activation_id: ActivationId,
}

/// What a [`ControlPlaneState`] holds.
#[verifier::ext_equal]
pub struct ControlPlaneStateModel {
    pub revisions: Seq<(RevisionId, RegisteredRevisionModel)>,
    pub activations: Seq<(ActivationId, ActivationRecordModel)>,
    pub next_revision_id: RevisionId,
    pub next_activation_id: ActivationId,
}

impl DeepView for ControlPlaneState {
    type V = ControlPlaneStateModel;

    open spec fn deep_view(&self) -> ControlPlaneStateModel {
        ControlPlaneStateModel {
            revisions: self.revisions.deep_view(),
            activations: self.activations.deep_view(),
            next_revision_id: self.next_revision_id,
            next_activation_id: self.next_activation_id,
        }
    }
}

impl Clone for ControlPlaneState {
    fn clone(&self) -> (copy: Self)
        ensures
            copy.deep_view() == self.deep_view(),
    {
        let copy = ControlPlaneState {
            revisions: self.revisions.clone(),
            activations: self.activations.clone(),
            next_revision_id: self.next_revision_id,
            next_activation_id: self.next_activation_id,
        };
        copy
    }
}

impl FaithfulClone for ControlPlaneState {
    proof fn clone_keeps_model(original: Self, copy: Self) {
    }
}

impl ControlPlaneStateModel {
    /// The state before anything was registered.
    pub open spec fn empty() -> Self {
        ControlPlaneStateModel {
            revisions: Seq::empty(),
            activations: Seq::empty(),
            next_revision_id: 0,
            next_activation_id: 0,
        }
    }
}

impl Default for ControlPlaneState {
    fn default() -> (state: Self)
        ensures
            state.deep_view() == ControlPlaneStateModel::empty(),
    {
        ControlPlaneState {
            revisions: OrderedMap::new(),
            activations: OrderedMap::new(),
            next_revision_id: 0,
            next_activation_id: 0,
        }
    }
}

impl ControlPlaneState {
    /// Take the next revision number.
    pub fn allocate_revision_id(&mut self) -> (revision_id: RevisionId)
        requires
            old(self).next_revision_id < u64::MAX,
        ensures
            revision_id == old(self).next_revision_id + 1,
            final(self).deep_view() == (ControlPlaneStateModel {
                next_revision_id: revision_id,
                ..old(self).deep_view()
            }),
    {
        self.next_revision_id = self.next_revision_id + 1;
        self.next_revision_id
    }

    /// Take the next activation number.
    pub fn allocate_activation_id(&mut self) -> (activation_id: ActivationId)
        requires
            old(self).next_activation_id < u64::MAX,
        ensures
            activation_id == old(self).next_activation_id + 1,
            final(self).deep_view() == (ControlPlaneStateModel {
                next_activation_id: activation_id,
                ..old(self).deep_view()
            }),
    {
        self.next_activation_id = self.next_activation_id + 1;
        self.next_activation_id
    }
}

/// A place that keeps the state.
pub trait ControlPlaneStore: Sized {
    /// The state that the store keeps.
    open spec fn content(&self) -> ControlPlaneStateModel {
        arbitrary()
    }

    /// Whether reading and writing always succeed.
    open spec fn reliable(&self) -> bool {
        false
    }

    /// Read the state.
    fn snapshot(&self) -> (result: Result<ControlPlaneState, ControlPlaneError>)
        ensures
            result is Ok ==> result->Ok_0.deep_view() == self.content(),
            self.reliable() ==> result is Ok,
    ;

    /// Replace the state. A failure leaves the state as it was.
    fn save(&mut self, state: ControlPlaneState) -> (result: Result<(), ControlPlaneError>)
        ensures
            final(self).reliable() == old(self).reliable(),
            final(self).content() == if result is Ok {
                state.deep_view()
            } else {
                old(self).content()
            },
            old(self).reliable() ==> result is Ok,
    ;

    /// Change the state by `mutate`. Where `mutate` succeeds, the store keeps what it
    /// made of the state. Where it fails, a store that is changed in place keeps that
    /// too; any other stays as it was.
    fn transact<T, F>(&mut self, mutate: F) -> (result: Result<T, ControlPlaneError>) where
        F: FnOnce(&mut ControlPlaneState) -> Result<T, ControlPlaneError>,

        requires
            forall|state: &mut ControlPlaneState|
                (*state).deep_view() == old(self).content() ==> #[trigger] mutate.requires(
                    (state,),
                ),
        ensures
            final(self).reliable() == old(self).reliable(),
            result is Ok || old(self).reliable() || final(self).content() != old(self).content()
                ==> exists|state: &mut ControlPlaneState| {
                &&& (*state).deep_view() == old(self).content()
                &&& #[trigger] mutate.ensures((state,), result)
                &&& result is Ok || final(self).content() != old(self).content()
                    ==> (*final(state)).deep_view() == final(self).content()
            },
        default_ensures
            result is Err ==> final(self).content() == old(self).content(),
    {
        let mut state = self.snapshot()?;
        let output = mutate(&mut state)?;
        self.save(state)?;
        Ok(output)
    }
}

/// Keeps the state in memory.
#[derive(Debug)]
pub struct MemoryControlPlaneStore {
    pub state: ControlPlaneState,
}

impl Default for MemoryControlPlaneStore {
    fn default() -> (store: Self)
        ensures
            store.content() == ControlPlaneStateModel::empty(),
    {
        MemoryControlPlaneStore::new()
    }
}

impl MemoryControlPlaneStore {
    /// A store with nothing in it.
    pub fn new() -> (store: Self)
        ensures
            store.content() == ControlPlaneStateModel::empty(),
    {
        MemoryControlPlaneStore { state: ControlPlaneState::default() }
    }
}

impl ControlPlaneStore for MemoryControlPlaneStore {
    open spec fn content(&self) -> ControlPlaneStateModel {
        self.state.deep_view()
    }

    open spec fn reliable(&self) -> bool {
        true
    }

    fn snapshot(&self) -> (result: Result<ControlPlaneState, ControlPlaneError>) {
        Ok(self.state.clone())
    }

    fn save(&mut self, state: ControlPlaneState) -> (result: Result<(), ControlPlaneError>) {
        self.state = state;
        Ok(())
    }

    /// The state is changed in place, so what `mutate` did before it failed stays.
    fn transact<T, F>(&mut self, mutate: F) -> (result: Result<T, ControlPlaneError>) where
        F: FnOnce(&mut ControlPlaneState) -> Result<T, ControlPlaneError>,

        ensures
            exists|state: &mut ControlPlaneState| {
                &&& (*state).deep_view() == old(self).content()
                &&& #[trigger] mutate.ensures((state,), result)
                &&& (*final(state)).deep_view() == final(self).content()
            },
    {
        mutate(&mut self.state)
    }
}

/// A state file, by its path.
#[derive(Debug)]
pub struct JsonFileControlPlaneStore {
    pub path: String,
}

impl Clone for JsonFileControlPlaneStore {
    fn clone(&self) -> (copy: Self)
        ensures
            copy == *self,
    {
        JsonFileControlPlaneStore { path: self.path.clone() }
    }
}

impl JsonFileControlPlaneStore {
    /// The store in the file at `path`.
    pub fn new(path: String) -> (store: Self)
        ensures
            store.path@ == path@,
    {
        JsonFileControlPlaneStore { path }
    }

    /// The path of the file.
    pub fn path(&self) -> (path: &str)
        ensures
            path@ == self.path@,
    {
        self.path.as_str()
    }
}

/// A store in memory keeps its state and never fails, and a state begins with nothing in
/// it and no number given away.
pub proof fn memory_is_reliable_and_begins_empty(store: MemoryControlPlaneStore)
    ensures
        store.reliable(),
        store.content() == store.state.deep_view(),
        ControlPlaneStateModel::empty().revisions.len() == 0,
        ControlPlaneStateModel::empty().activations.len() == 0,
        ControlPlaneStateModel::empty().next_revision_id == 0,
        ControlPlaneStateModel::empty().next_activation_id == 0,
{
}

}
