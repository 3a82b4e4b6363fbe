//! Where the control plane keeps its state.

use crate::automations::domain::{ControlPlaneState, ControlPlaneStateModel};
use crate::automations::error::{AutomationsError, AutomationsErrorModel};
use vstd::prelude::*;

verus! {

/// A place that keeps the state of a control plane.
pub trait ControlPlaneStore: Sized {
    /// The state that the store keeps.
    open spec fn content(&self) -> ControlPlaneStateModel {
        arbitrary()
    }

    /// Whether reading and writing always succeed.
    open spec fn reliable(&self) -> bool {
        false
    }

    /// Read the state.
    fn snapshot(&self) -> (result: Result<ControlPlaneState, AutomationsError>)
        ensures
            result is Ok ==> result->Ok_0.deep_view() == self.content(),
            self.reliable() ==> result is Ok,
    ;

    /// Replace the state. A failure leaves the state as it was.
    fn save(&mut self, state: ControlPlaneState) -> (result: Result<(), AutomationsError>)
        ensures
            final(self).reliable() == old(self).reliable(),
            final(self).content() == if result is Ok {
                state.deep_view()
            } else {
                old(self).content()
            },
            old(self).reliable() ==> result is Ok,
    ;

    /// Change the state by `mutate`. Where `mutate` succeeds, the store keeps what it
    /// made of the state; where it fails, the store stays as it was.
    fn transact<T, F>(&mut self, mutate: F) -> (result: Result<T, AutomationsError>) where
        F: FnOnce(&mut ControlPlaneState) -> Result<T, AutomationsError>,

        requires
            forall|state: &mut ControlPlaneState|
                (*state).deep_view() == old(self).content() ==> #[trigger] mutate.requires(
                    (state,),
                ),
        ensures
            final(self).reliable() == old(self).reliable(),
            result is Err ==> final(self).content() == old(self).content(),
            result is Ok || old(self).reliable() ==> exists|state: &mut ControlPlaneState| {
                &&& (*state).deep_view() == old(self).content()
                &&& #[trigger] mutate.ensures((state,), result)
                &&& result is Ok ==> (*final(state)).deep_view() == final(self).content()
            },
    {
        let mut state = self.snapshot()?;
        let output = mutate(&mut state)?;
        self.save(state)?;
        Ok(output)
    }
}

/// What one transaction with the model `outcome` did to a store and returned.
///
/// It takes the store to the next state and succeeds, or it leaves the store as
/// it was and fails. On a store that is reliable the outcome alone decides.
pub open spec fn committed<B: ControlPlaneStore, T>(
    before: B,
    after: B,
    result: Result<T, AutomationsError>,
    outcome: Result<ControlPlaneStateModel, AutomationsErrorModel>,
) -> bool {
    &&& after.reliable() == before.reliable()
    &&& match result {
        Ok(_) => outcome is Ok && after.content() == outcome->Ok_0,
        Err(error) => {
            &&& after.content() == before.content()
            &&& before.reliable() ==> outcome is Err && error.deep_view() == outcome->Err_0
        },
    }
}

/// Keeps the state in memory.
#[derive(Debug)]
pub struct MemoryControlPlaneStore {
    pub state: ControlPlaneState,
}

impl Default for MemoryControlPlaneStore {
    fn default() -> (store: Self)
        ensures
            store.content() == ControlPlaneStateModel::empty(),
    {
        MemoryControlPlaneStore::new()
    }
}

impl MemoryControlPlaneStore {
    /// A store with nothing in it.
    pub fn new() -> (store: Self)
        ensures
            store.content() == ControlPlaneStateModel::empty(),
    {
        MemoryControlPlaneStore { state: ControlPlaneState::default() }
    }
}

impl ControlPlaneStore for MemoryControlPlaneStore {
    open spec fn content(&self) -> ControlPlaneStateModel {
        self.state.deep_view()
    }

    open spec fn reliable(&self) -> bool {
        true
    }

    fn snapshot(&self) -> (result: Result<ControlPlaneState, AutomationsError>) {
        Ok(self.state.clone())
    }

    fn save(&mut self, state: ControlPlaneState) -> (result: Result<(), AutomationsError>) {
        self.state = state;
        Ok(())
    }
}

/// A state file, by its path.
#[derive(Debug)]
pub struct JsonFileControlPlaneStore {
    pub path: String,
}

impl Clone for JsonFileControlPlaneStore {
    fn clone(&self) -> (copy: Self)
        ensures
            copy == *self,
    {
        JsonFileControlPlaneStore { path: self.path.clone() }
    }
}

impl JsonFileControlPlaneStore {
    /// The store in the file at `path`.
    pub fn new(path: String) -> (store: Self)
        ensures
            store.path@ == path@,
    {
        JsonFileControlPlaneStore { path }
    }

    /// The path of the file.
    pub fn path(&self) -> (path: &str)
        ensures
            path@ == self.path@,
    {
        self.path.as_str()
    }
}

}
