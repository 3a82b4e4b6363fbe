//! The control plane: durable state, host time, and the parts that act for it.
//!
//! Running a guest and handling an effect happen outside. The control plane says
//! what is to be run or handled and takes in what came of it.

use crate::automations::clock::Clock;
use crate::automations::domain::{
    ActivationMode, ControlPlaneState, ControlPlaneStateModel, EffectHandlerOutcome,
    EffectHandlerOutcomeModel, ManagedAutomation, RegisteredRevision, RegistrationRequest,
    RevisionId, TraceRecord,
};
use crate::automations::drive::{DriveAction, EventDrive, EventDriveModel};
use crate::automations::due::{due_of, in_due_order, DueWakeup, DueWakeupModel};
use crate::automations::error::AutomationsError;
use crate::automations::guest::WasmAutomationRuntime;
use crate::automations::settlement::{
    drive_moved, moment_of, moved_by_answer, moved_by_effect, settlement_moved,
};
use crate::automations::store::{committed, ControlPlaneStore};
use crate::automations::transitions::{
    activated, deactivated, deleted, dispatched, effect_recorded, lists_revision, persisted,
    registered, revision_of, took,
};
use crate::digest::{sha256_hex, sha256_text};
use crate::json::JsonValue;
use crate::ordered_map::OrderedMap;
use crate::protocol::{
    AdvanceResponse, AutomationEvent, AutomationEventModel, RegistrationResponse,
};
use crate::wasm::has_default_configuration;
use vstd::prelude::*;

verus! {

/// An effect handler that does nothing.
#[derive(Debug, Clone, Copy, Default)]
pub struct NoopEffectHandler;

impl NoopEffectHandler {
    /// No effect leads to anything.
    pub fn outcome(&self) -> (outcome: EffectHandlerOutcome)
        ensures
            outcome.deep_view() == (EffectHandlerOutcomeModel {
                follow_up_events: Seq::empty(),
                observations: Seq::empty(),
            }),
    {
        EffectHandlerOutcome::default()
    }
}

/// The due wakeups of one reconciliation, of which some are dispatched.
#[derive(Debug)]
pub struct Reconciliation {
    pub now: i64,
    pub due: Vec<DueWakeup>,
    pub dispatched: usize,
}

impl Reconciliation {
    /// Whether `due` holds the wakeups that are due in `state`, in the order of
    /// dispatch.
    pub open spec fn starts_from(&self, state: ControlPlaneStateModel) -> bool {
        &&& self.dispatched == 0
        &&& in_due_order(self.due.deep_view())
        &&& self.due.deep_view().to_multiset() == due_of(
            state.automations,
            self.now,
        ).to_multiset()
    }

    /// The number of wakeups that are due.
    pub fn due_count(&self) -> (count: usize)
        ensures
            count == self.due@.len(),
    {
        self.due.len()
    }
}

/// The drive of the event that a dispatched wakeup fires.
pub open spec fn wakeup_drive(wakeup: DueWakeupModel, now: i64) -> EventDriveModel {
    EventDriveModel::started(
        wakeup.automation_id,
        AutomationEventModel::WakeupFired { wakeup_id: wakeup.wakeup_id, at: now },
        now,
    )
}

/// A durable control plane over a store, a guest runtime, an effect handler and
/// a clock.
#[derive(Debug)]
pub struct AutomationsControlPlane<B, R, H, C> {
    pub store: B,
    pub runtime: R,
    pub effect_handler: H,
    pub clock: C,
}

impl<B, H, C> AutomationsControlPlane<B, WasmAutomationRuntime, H, C> where
    B: ControlPlaneStore,
    C: Clock,
 {
    /// A control plane whose guests run in Wasm.
    pub fn new(store: B, effect_handler: H, clock: C) -> (plane: Self)
        ensures
            plane.store == store,
            plane.effect_handler == effect_handler,
            plane.clock == clock,
            has_default_configuration(plane.runtime.engine),
    {
        AutomationsControlPlane::with_runtime(
            store,
            WasmAutomationRuntime::new(),
            effect_handler,
            clock,
        )
    }
}

impl<B, R, H, C> AutomationsControlPlane<B, R, H, C> where B: ControlPlaneStore, C: Clock {
    /// A control plane with its parts.
    pub fn with_runtime(store: B, runtime: R, effect_handler: H, clock: C) -> (plane: Self)
        ensures
            plane == (AutomationsControlPlane { store, runtime, effect_handler, clock }),
    {
        AutomationsControlPlane { store, runtime, effect_handler, clock }
    }

    /// Whether only the store of the control plane may have changed.
    pub open spec fn keeps_parts_of(&self, before: Self) -> bool {
        &&& self.runtime == before.runtime
        &&& self.effect_handler == before.effect_handler
        &&& self.clock == before.clock
    }

    /// Register a guest artifact as a new revision, without activating it.
    ///
    /// `registration` is what the guest in `artifact` answered.
    pub fn register_revision(
        &mut self,
        request: &RegistrationRequest,
        artifact: &Vec<u8>,
        registration: &RegistrationResponse,
    ) -> (result: Result<RegisteredRevision, AutomationsError>)
        requires
            old(self).store.content().next_revision_id < u64::MAX,
        ensures
            final(self).keeps_parts_of(*old(self)),
            result is Ok ==> lists_revision(
                final(self).store.content(),
                request.deep_view().automation_id,
                result->Ok_0.deep_view(),
            ),
            exists|now: i64|
                {
                    &&& #[trigger] old(self).clock.shows(now)
                    &&& committed(
                        old(self).store,
                        final(self).store,
                        result,
                        Ok(
                            registered(
                                old(self).store.content(),
                                request.deep_view(),
                                sha256_hex(artifact@),
                                registration.deep_view(),
                                now,
                            ),
                        ),
                    )
                    &&& result is Ok ==> result->Ok_0.deep_view() == revision_of(
                        request.deep_view(),
                        sha256_hex(artifact@),
                        registration.deep_view(),
                        (old(self).store.content().next_revision_id + 1) as u64,
                        now,
                    )
                },
    {
        let now: i64 = self.clock.now();
        assert(old(self).clock.shows(now));
        let artifact_sha256 = sha256_text(artifact);
        let mutate = |state: &mut ControlPlaneState| -> (taken: Result<
            RegisteredRevision,
            AutomationsError,
        >)
            requires
                old(state).deep_view().next_revision_id < u64::MAX,
            ensures
                taken is Ok,
                final(state).deep_view() == registered(
                    old(state).deep_view(),
                    request.deep_view(),
                    artifact_sha256@,
                    registration.deep_view(),
                    now,
                ),
                taken->Ok_0.deep_view() == revision_of(
                    request.deep_view(),
                    artifact_sha256@,
                    registration.deep_view(),
                    (old(state).deep_view().next_revision_id + 1) as u64,
                    now,
                ),
                lists_revision(
                    final(state).deep_view(),
                    request.deep_view().automation_id,
                    taken->Ok_0.deep_view(),
                ),
            { Ok(state.register_revision(request, &artifact_sha256, registration, now)) };
        self.store.transact(mutate)
    }

    /// Activate a registered revision. The drive of the activation event is
    /// returned.
    pub fn activate_revision(
        &mut self,
        automation_id: &String,
        revision_id: RevisionId,
        mode: ActivationMode,
    ) -> (result: Result<EventDrive, AutomationsError>)
        ensures
            final(self).keeps_parts_of(*old(self)),
            exists|now: i64|
                {
                    &&& #[trigger] old(self).clock.shows(now)
                    &&& committed(
                        old(self).store,
                        final(self).store,
                        result,
                        activated(
                            old(self).store.content(),
                            automation_id@,
                            revision_id,
                            mode,
                            now,
                        ),
                    )
                    &&& result is Ok ==> result->Ok_0.deep_view() == EventDriveModel::started(
                        automation_id@,
                        AutomationEventModel::Activated { at: now },
                        now,
                    )
                },
    {
        let now: i64 = self.clock.now();
        assert(old(self).clock.shows(now));
        let mutate = |state: &mut ControlPlaneState| -> (taken: Result<(), AutomationsError>)
            ensures
                took(
                    old(state).deep_view(),
                    final(state).deep_view(),
                    taken,
                    activated(old(state).deep_view(), automation_id@, revision_id, mode, now),
                ),
            { state.activate(automation_id, revision_id, mode, now) };
        self.store.transact(mutate)?;
        Ok(EventDrive::new(automation_id.clone(), AutomationEvent::Activated { at: now }, now))
    }

    /// Deactivate the active revision. The registered revisions and the current
    /// guest state stay.
    pub fn deactivate_automation(&mut self, automation_id: &String) -> (result: Result<
        (),
        AutomationsError,
    >)
        ensures
            final(self).keeps_parts_of(*old(self)),
            exists|now: i64|
                {
                    &&& #[trigger] old(self).clock.shows(now)
                    &&& committed(
                        old(self).store,
                        final(self).store,
                        result,
                        deactivated(old(self).store.content(), automation_id@, now),
                    )
                },
    {
        let now: i64 = self.clock.now();
        assert(old(self).clock.shows(now));
        let mutate = |state: &mut ControlPlaneState| -> (taken: Result<(), AutomationsError>)
            ensures
                took(
                    old(state).deep_view(),
                    final(state).deep_view(),
                    taken,
                    deactivated(old(state).deep_view(), automation_id@, now),
                ),
            { state.deactivate(automation_id, now) };
        self.store.transact(mutate)
    }

    /// Delete an automation with its revisions, state and wakeups.
    pub fn delete_automation(&mut self, automation_id: &String) -> (result: Result<
        (),
        AutomationsError,
    >)
        ensures
            final(self).keeps_parts_of(*old(self)),
            exists|now: i64|
                {
                    &&& #[trigger] old(self).clock.shows(now)
                    &&& committed(
                        old(self).store,
                        final(self).store,
                        result,
                        deleted(old(self).store.content(), automation_id@, now),
                    )
                },
    {
        let now: i64 = self.clock.now();
        assert(old(self).clock.shows(now));
        let mutate = |state: &mut ControlPlaneState| -> (taken: Result<(), AutomationsError>)
            ensures
                took(
                    old(state).deep_view(),
                    final(state).deep_view(),
                    taken,
                    deleted(old(state).deep_view(), automation_id@, now),
                ),
            { state.delete(automation_id, now) };
        self.store.transact(mutate)
    }

    /// The drive of a signal from a user.
    pub fn submit_user_signal(
        &self,
        automation_id: &String,
        signal: String,
        payload: JsonValue,
    ) -> (drive: EventDrive)
        ensures
            exists|now: i64|
                {
                    &&& #[trigger] self.clock.shows(now)
                    &&& drive.deep_view() == EventDriveModel::started(
                        automation_id@,
                        AutomationEventModel::UserSignal {
                            signal: signal@,
                            payload: payload.deep_view(),
                            at: now,
                        },
                        now,
                    )
                },
    {
        let now: i64 = self.clock.now();
        EventDrive::new(
            automation_id.clone(),
            AutomationEvent::UserSignal { signal, payload, at: now },
            now,
        )
    }

    /// The drive of a runtime trigger.
    pub fn submit_trigger(
        &self,
        automation_id: &String,
        trigger: String,
        payload: JsonValue,
    ) -> (drive: EventDrive)
        ensures
            exists|now: i64|
                {
                    &&& #[trigger] self.clock.shows(now)
                    &&& drive.deep_view() == EventDriveModel::started(
                        automation_id@,
                        AutomationEventModel::TriggerFired {
                            trigger: trigger@,
                            payload: payload.deep_view(),
                            at: now,
                        },
                        now,
                    )
                },
    {
        let now: i64 = self.clock.now();
        EventDrive::new(
            automation_id.clone(),
            AutomationEvent::TriggerFired { trigger, payload, at: now },
            now,
        )
    }

    /// Find the wakeups that are due at the current host time.
    pub fn reconcile_due(&self) -> (result: Result<Reconciliation, AutomationsError>)
        ensures
            self.store.reliable() ==> result is Ok,
            result is Ok ==> self.clock.shows(result->Ok_0.now) && result->Ok_0.starts_from(
                self.store.content(),
            ),
    {
        let now: i64 = self.clock.now();
        let state = self.store.snapshot()?;
        Ok(Reconciliation { now, due: state.due_wakeups(now), dispatched: 0 })
    }

    /// Dispatch the next due wakeup and return its drive, or nothing when all
    /// are dispatched.
    pub fn next_wakeup(&mut self, reconciliation: &mut Reconciliation) -> (result: Result<
        Option<EventDrive>,
        AutomationsError,
    >)
        requires
            old(reconciliation).dispatched <= old(reconciliation).due@.len(),
        ensures
            final(self).keeps_parts_of(*old(self)),
            final(reconciliation).now == old(reconciliation).now,
            final(reconciliation).due == old(reconciliation).due,
            old(reconciliation).dispatched == old(reconciliation).due@.len() ==> {
                &&& result matches Ok(None)
                &&& final(reconciliation).dispatched == old(reconciliation).dispatched
                &&& final(self).store == old(self).store
            },
            old(reconciliation).dispatched < old(reconciliation).due@.len() ==> {
                let wakeup = old(reconciliation).due.deep_view()[old(
                    reconciliation,
                ).dispatched as int];
                &&& committed(
                    old(self).store,
                    final(self).store,
                    result,
                    dispatched(
                        old(self).store.content(),
                        wakeup.automation_id,
                        wakeup.revision_id,
                        wakeup.wakeup_id,
                        wakeup.at,
                        old(reconciliation).now,
                    ),
                )
                &&& result is Ok ==> {
                    &&& result->Ok_0 matches Some(drive)
                    &&& drive.deep_view() == wakeup_drive(wakeup, old(reconciliation).now)
                    &&& final(reconciliation).dispatched == old(reconciliation).dispatched + 1
                }
                &&& result is Err ==> final(reconciliation).dispatched == old(
                    reconciliation,
                ).dispatched
            },
    {
        if reconciliation.dispatched >= reconciliation.due.len() {
            return Ok(None);
        }
        let now: i64 = reconciliation.now;
        let wakeup = reconciliation.due[reconciliation.dispatched].clone();
        assert(reconciliation.due.deep_view()[reconciliation.dispatched as int]
            == wakeup.deep_view());
        let mutate = |state: &mut ControlPlaneState| -> (taken: Result<(), AutomationsError>)
            ensures
                took(
                    old(state).deep_view(),
                    final(state).deep_view(),
                    taken,
                    dispatched(
                        old(state).deep_view(),
                        wakeup.automation_id@,
                        wakeup.revision_id,
                        wakeup.wakeup_id@,
                        wakeup.at,
                        now,
                    ),
                ),
            {
                state.dispatch_wakeup(
                    &wakeup.automation_id,
                    wakeup.revision_id,
                    &wakeup.wakeup_id,
                    wakeup.at,
                    now,
                )
            };
        self.store.transact(mutate)?;
        reconciliation.dispatched = reconciliation.dispatched + 1;
        Ok(
            Some(
                EventDrive::new(
                    wakeup.automation_id,
                    AutomationEvent::WakeupFired { wakeup_id: wakeup.wakeup_id, at: now },
                    now,
                ),
            ),
        )
    }

    /// What is to be done next for `drive`.
    pub fn next_action(&self, drive: &EventDrive) -> (result: Result<
        DriveAction,
        AutomationsError,
    >)
        ensures
            match drive.deep_view().action(self.store.content()) {
                Ok(action) => {
                    &&& result is Ok ==> result->Ok_0.deep_view() == action
                    &&& self.store.reliable() ==> result is Ok
                },
                Err(error) => {
                    &&& result is Err
                    &&& self.store.reliable() ==> result->Err_0.deep_view() == error
                },
            },
    {
        let state = self.store.snapshot()?;
        drive.next_action(&state)
    }

    /// Take in the answer of the guest to the next event of `drive`.
    pub fn guest_answered(
        &mut self,
        drive: &mut EventDrive,
        revision_id: RevisionId,
        response: &AdvanceResponse,
    ) -> (result: Result<(), AutomationsError>)
        requires
            old(drive).effects.len() == 0,
            old(drive).pending.len() > 0,
        ensures
            final(self).keeps_parts_of(*old(self)),
            committed(
                old(self).store,
                final(self).store,
                result,
                persisted(
                    old(self).store.content(),
                    old(drive).deep_view().automation_id,
                    revision_id,
                    old(drive).deep_view().pending[0],
                    old(drive).now,
                    response.deep_view(),
                ),
            ),
            result is Ok ==> final(drive).deep_view() == old(drive).deep_view().answered(
                revision_id,
                response.deep_view(),
            ),
            result is Ok ==> drive_moved(old(self).store.content(), final(self).store.content()),
            result is Err ==> final(drive).deep_view() == old(drive).deep_view(),
    {
        let current = drive.clone();
        let ghost before = current.deep_view();
        assert(before.effects.len() == current.effects@.len());
        assert(before.effects.len() == drive.effects@.len());
        assert(before.pending.len() == current.pending@.len());
        assert(before.pending.len() == drive.pending@.len());
        let mutate = |state: &mut ControlPlaneState| -> (taken: Result<
            EventDrive,
            AutomationsError,
        >)
            ensures
                took(
                    old(state).deep_view(),
                    final(state).deep_view(),
                    taken,
                    persisted(
                        old(state).deep_view(),
                        before.automation_id,
                        revision_id,
                        before.pending[0],
                        before.now,
                        response.deep_view(),
                    ),
                ),
                taken is Ok ==> taken->Ok_0.deep_view() == before.answered(
                    revision_id,
                    response.deep_view(),
                ),
            {
                let mut advanced = current;
                match advanced.guest_answered(state, revision_id, response) {
                    Ok(()) => Ok(advanced),
                    Err(error) => Err(error),
                }
            };
        *drive = self.store.transact(mutate)?;
        proof {
            let kept = old(self).store.content();
            let after = self.store.content();
            assert forall|total: nat| settlement_moved(
                moment_of(kept, total),
                #[trigger] moment_of(after, total),
            ) by {
                assert(moved_by_answer(
                    moment_of(kept, total),
                    moment_of(after, total),
                    before.automation_id,
                    revision_id,
                    before.pending[0],
                    before.now,
                    response.deep_view(),
                ));
            }
        }
        Ok(())
    }

    /// Take in what came of the next effect of `drive`.
    pub fn effect_handled(
        &mut self,
        drive: &mut EventDrive,
        outcome: EffectHandlerOutcome,
    ) -> (result: Result<(), AutomationsError>)
        requires
            old(drive).effects.len() > 0,
        ensures
            final(self).keeps_parts_of(*old(self)),
            committed(
                old(self).store,
                final(self).store,
                result,
                Ok(
                    effect_recorded(
                        old(self).store.content(),
                        old(drive).deep_view().automation_id,
                        old(drive).revision_id,
                        old(drive).deep_view().effects[0].effect_id,
                        outcome.follow_up_events.len(),
                        old(drive).now,
                    ),
                ),
            ),
            result is Ok ==> final(drive).deep_view() == old(drive).deep_view().handled(
                outcome.deep_view(),
            ),
            result is Ok ==> drive_moved(old(self).store.content(), final(self).store.content()),
            result is Err ==> final(drive).deep_view() == old(drive).deep_view(),
    {
        let current = drive.clone();
        let ghost before = current.deep_view();
        let ghost came = outcome.deep_view();
        let ghost follow_up_events = outcome.follow_up_events.len();
        assert(before.effects.len() == current.effects@.len());
        assert(before.effects.len() == drive.effects@.len());
        let mutate = |state: &mut ControlPlaneState| -> (taken: Result<
            EventDrive,
            AutomationsError,
        >)
            ensures
                taken is Ok,
                final(state).deep_view() == effect_recorded(
                    old(state).deep_view(),
                    before.automation_id,
                    before.revision_id,
                    before.effects[0].effect_id,
                    follow_up_events,
                    before.now,
                ),
                taken->Ok_0.deep_view() == before.handled(came),
            {
                let mut advanced = current;
                advanced.effect_handled(state, outcome);
                Ok(advanced)
            };
        *drive = self.store.transact(mutate)?;
        proof {
            let kept = old(self).store.content();
            let after = self.store.content();
            assert forall|total: nat| settlement_moved(
                moment_of(kept, total),
                #[trigger] moment_of(after, total),
            ) by {
                assert(moved_by_effect(
                    moment_of(kept, total),
                    moment_of(after, total),
                    before.automation_id,
                    before.revision_id,
                    before.effects[0].effect_id,
                    follow_up_events,
                    before.now,
                ));
            }
        }
        Ok(())
    }

    /// The automations that the control plane keeps.
    pub fn automations(&self) -> (result: Result<
        OrderedMap<String, ManagedAutomation>,
        AutomationsError,
    >)
        ensures
            self.store.reliable() ==> result is Ok,
            result is Ok ==> result->Ok_0.deep_view() == self.store.content().automations,
    {
        let state = self.store.snapshot()?;
        Ok(state.automations)
    }

    /// The trace, the oldest record first.
    pub fn traces(&self) -> (result: Result<Vec<TraceRecord>, AutomationsError>)
        ensures
            self.store.reliable() ==> result is Ok,
            result is Ok ==> result->Ok_0.deep_view() == self.store.content().traces,
    {
        let state = self.store.snapshot()?;
        Ok(state.traces)
    }

    /// Everything that the control plane keeps.
    pub fn control_plane_snapshot(&self) -> (result: Result<ControlPlaneState, AutomationsError>)
        ensures
            self.store.reliable() ==> result is Ok,
            result is Ok ==> result->Ok_0.deep_view() == self.store.content(),
    {
        self.store.snapshot()
    }
}

}
