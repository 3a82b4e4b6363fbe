//! A control plane in memory, under a clock that moves only when told to.

use crate::automations::clock::{moved, ManualClock};
use crate::automations::control_plane::{wakeup_drive, AutomationsControlPlane, Reconciliation};
use crate::automations::domain::{
    ActivationMode, ControlPlaneState, ControlPlaneStateModel, ManagedAutomation,
    RegisteredRevision, RegistrationRequest, RevisionId, TraceRecord,
};
use crate::automations::drive::{EventDrive, EventDriveModel};
use crate::automations::due::{due_of, DueWakeupModel};
use crate::automations::error::AutomationsError;
use crate::automations::settlement::{
    is_settlement, moment_of, moved_by_dispatch, settlement_moved, SettlementMoment,
};
use crate::automations::store::{ControlPlaneStore, MemoryControlPlaneStore};
use crate::automations::transitions::{
    activated, deactivated, deleted, dispatched, registered, revision_of, took,
};
use crate::digest::sha256_hex;
use crate::json::JsonValue;
use crate::ordered_map::OrderedMap;
use crate::protocol::{AutomationEventModel, RegistrationResponse};
use vstd::prelude::*;

verus! {

/// A universe that settles: reconciliation follows reconciliation until one
/// finds nothing due.
#[derive(Debug)]
pub struct Settlement {
    pub total_dispatched: usize,
    pub round: Option<Reconciliation>,
}

impl Settlement {
    /// Whether the round holds no more dispatched wakeups than it found.
    pub open spec fn wf(&self) -> bool {
        self.round matches Some(round) ==> round.dispatched <= round.due@.len()
    }

    /// The wakeup that the round dispatches next, with the time of the round.
    pub open spec fn next_wakeup(&self) -> Option<(DueWakeupModel, i64)> {
        match self.round {
            Some(round) => if round.dispatched < round.due@.len() {
                Some((round.due.deep_view()[round.dispatched as int], round.now))
            } else {
                None
            },
            None => None,
        }
    }
}

/// The round `before`, after one more of its wakeups was dispatched or refused.
pub open spec fn round_went_on(
    before: Reconciliation,
    after: Option<Reconciliation>,
    dispatched: bool,
) -> bool {
    &&& after matches Some(after)
    &&& after.now == before.now
    &&& after.due == before.due
    &&& after.dispatched == before.dispatched + if dispatched {
        1int
    } else {
        0int
    }
}

/// What it takes to dispatch `wakeup` while a universe settles.
pub open spec fn settles_one<R, H>(
    before: PocketUniverse<R, H>,
    after: PocketUniverse<R, H>,
    result: Result<Option<EventDrive>, AutomationsError>,
    wakeup: DueWakeupModel,
    now: i64,
) -> bool {
    &&& took(
        before.state(),
        after.state(),
        result,
        dispatched(
            before.state(),
            wakeup.automation_id,
            wakeup.revision_id,
            wakeup.wakeup_id,
            wakeup.at,
            now,
        ),
    )
    &&& result is Ok ==> {
        &&& result->Ok_0 matches Some(drive)
        &&& drive.deep_view() == wakeup_drive(wakeup, now)
    }
}

/// A control plane in memory with its own time.
#[derive(Debug)]
pub struct PocketUniverse<R, H> {
    pub control_plane: AutomationsControlPlane<MemoryControlPlaneStore, R, H, ManualClock>,
}

impl<R, H> PocketUniverse<R, H> {
    /// What the universe keeps.
    pub open spec fn state(&self) -> ControlPlaneStateModel {
        self.control_plane.store.content()
    }

    /// How far a settlement of the universe has come.
    pub open spec fn moment(&self, settlement: Settlement) -> SettlementMoment {
        moment_of(self.state(), settlement.total_dispatched as nat)
    }

    /// The time of the universe.
    pub open spec fn now(&self) -> i64 {
        self.control_plane.clock.now
    }

    /// Whether only what the universe keeps may have changed.
    pub open spec fn keeps_parts_of(&self, before: Self) -> bool {
        self.control_plane.keeps_parts_of(before.control_plane)
    }

    /// An empty universe at `initial_timestamp`.
    pub fn new(initial_timestamp: i64, runtime: R, effect_handler: H) -> (universe: Self)
        ensures
            universe.state() == ControlPlaneStateModel::empty(),
            universe.now() == initial_timestamp,
            universe.control_plane.runtime == runtime,
            universe.control_plane.effect_handler == effect_handler,
    {
        PocketUniverse {
            control_plane: AutomationsControlPlane::with_runtime(
                MemoryControlPlaneStore::new(),
                runtime,
                effect_handler,
                ManualClock::new(initial_timestamp),
            ),
        }
    }

    /// The clock of the universe.
    pub fn clock(&self) -> (clock: &ManualClock)
        ensures
            *clock == self.control_plane.clock,
    {
        &self.control_plane.clock
    }

    /// Move the clock.
    pub fn advance_time_by(&mut self, seconds: i64)
        ensures
            final(self).now() == moved(old(self).now(), seconds),
            final(self).state() == old(self).state(),
            final(self).control_plane.runtime == old(self).control_plane.runtime,
            final(self).control_plane.effect_handler == old(self).control_plane.effect_handler,
    {
        self.control_plane.clock.advance_by(seconds);
    }

    /// The control plane of the universe.
    pub fn control_plane(&self) -> (plane: &AutomationsControlPlane<
        MemoryControlPlaneStore,
        R,
        H,
        ManualClock,
    >)
        ensures
            *plane == self.control_plane,
    {
        &self.control_plane
    }

    /// Register a guest artifact as a new revision, without activating it.
    pub fn register_revision(
        &mut self,
        request: &RegistrationRequest,
        artifact: &Vec<u8>,
        registration: &RegistrationResponse,
    ) -> (result: Result<RegisteredRevision, AutomationsError>)
        requires
            old(self).state().next_revision_id < u64::MAX,
        ensures
            final(self).keeps_parts_of(*old(self)),
            took(
                old(self).state(),
                final(self).state(),
                result,
                Ok(
                    registered(
                        old(self).state(),
                        request.deep_view(),
                        sha256_hex(artifact@),
                        registration.deep_view(),
                        old(self).now(),
                    ),
                ),
            ),
            result is Ok ==> result->Ok_0.deep_view() == revision_of(
                request.deep_view(),
                sha256_hex(artifact@),
                registration.deep_view(),
                (old(self).state().next_revision_id + 1) as u64,
                old(self).now(),
            ),
    {
        self.control_plane.register_revision(request, artifact, registration)
    }

    /// Activate a registered revision.
    pub fn activate_revision(
        &mut self,
        automation_id: &String,
        revision_id: RevisionId,
        mode: ActivationMode,
    ) -> (result: Result<EventDrive, AutomationsError>)
        ensures
            final(self).keeps_parts_of(*old(self)),
            took(
                old(self).state(),
                final(self).state(),
                result,
                activated(
                    old(self).state(),
                    automation_id@,
                    revision_id,
                    mode,
                    old(self).now(),
                ),
            ),
            result is Ok ==> result->Ok_0.deep_view() == EventDriveModel::started(
                automation_id@,
                AutomationEventModel::Activated { at: old(self).now() },
                old(self).now(),
            ),
    {
        self.control_plane.activate_revision(automation_id, revision_id, mode)
    }

    /// Deactivate the active revision.
    pub fn deactivate_automation(&mut self, automation_id: &String) -> (result: Result<
        (),
        AutomationsError,
    >)
        ensures
            final(self).keeps_parts_of(*old(self)),
            took(
                old(self).state(),
                final(self).state(),
                result,
                deactivated(old(self).state(), automation_id@, old(self).now()),
            ),
    {
        self.control_plane.deactivate_automation(automation_id)
    }

    /// Delete an automation.
    pub fn delete_automation(&mut self, automation_id: &String) -> (result: Result<
        (),
        AutomationsError,
    >)
        ensures
            final(self).keeps_parts_of(*old(self)),
            took(
                old(self).state(),
                final(self).state(),
                result,
                deleted(old(self).state(), automation_id@, old(self).now()),
            ),
    {
        self.control_plane.delete_automation(automation_id)
    }

    /// Find the wakeups that are due.
    pub fn reconcile_due(&self) -> (result: Result<Reconciliation, AutomationsError>)
        ensures
            result is Ok,
            result->Ok_0.now == self.now(),
            result->Ok_0.starts_from(self.state()),
            result->Ok_0.due@.len() == due_of(self.state().automations, self.now()).len(),
    {
        let result = self.control_plane.reconcile_due();
        proof {
            result->Ok_0.due.deep_view().to_multiset_ensures();
            due_of(self.state().automations, self.now()).to_multiset_ensures();
        }
        result
    }

    /// Start to reconcile until nothing is due any more.
    pub fn settle(&self) -> (settlement: Settlement)
        ensures
            settlement.total_dispatched == 0,
            settlement.round is None,
            is_settlement(seq![self.moment(settlement)]),
    {
        Settlement { total_dispatched: 0, round: None }
    }

    /// Dispatch the next due wakeup and return its drive, or nothing when no
    /// wakeup is due any more.
    pub fn settle_next(&mut self, settlement: &mut Settlement) -> (result: Result<
        Option<EventDrive>,
        AutomationsError,
    >)
        requires
            old(settlement).wf(),
            old(settlement).total_dispatched < usize::MAX,
        ensures
            final(settlement).wf(),
            final(self).keeps_parts_of(*old(self)),
            final(settlement).total_dispatched == old(settlement).total_dispatched + if result
                matches Ok(Some(_)) {
                1int
            } else {
                0int
            },
            old(settlement).next_wakeup() matches Some((wakeup, now)) ==> {
                &&& settles_one(*old(self), *final(self), result, wakeup, now)
                &&& round_went_on(
                    old(settlement).round->0,
                    final(settlement).round,
                    result is Ok,
                )
            },
            old(settlement).next_wakeup() is None ==> exists|round: Reconciliation|
                {
                    &&& #[trigger] round.starts_from(old(self).state())
                    &&& round.now == old(self).now()
                    &&& round_went_on(
                        round,
                        final(settlement).round,
                        result matches Ok(Some(_)),
                    )
                    &&& if round.due@.len() == 0 {
                        &&& result matches Ok(None)
                        &&& final(self).state() == old(self).state()
                    } else {
                        settles_one(
                            *old(self),
                            *final(self),
                            result,
                            round.due.deep_view()[0],
                            round.now,
                        )
                    }
                },
            if result matches Ok(Some(_)) {
                settlement_moved(
                    old(self).moment(*old(settlement)),
                    final(self).moment(*final(settlement)),
                )
            } else {
                final(self).moment(*final(settlement)) == old(self).moment(*old(settlement))
            },
            result matches Ok(None) ==> {
                &&& due_of(final(self).state().automations, final(self).now()).len() == 0
                &&& final(self).state() == old(self).state()
            },
            old(settlement).next_wakeup() is None && due_of(
                old(self).state().automations,
                old(self).now(),
            ).len() == 0 ==> {
                &&& result matches Ok(None)
                &&& final(self).state() == old(self).state()
            },
    {
        let mut round = match settlement.round.take() {
            Some(round) => if round.dispatched < round.due.len() {
                round
            } else {
                self.control_plane.reconcile_due()?
            },
            None => self.control_plane.reconcile_due()?,
        };
        let ghost started = round;
        let result = self.control_plane.next_wakeup(&mut round);
        proof {
            if old(settlement).next_wakeup() is None {
                assert(started.starts_from(old(self).state()));
                let found = due_of(old(self).state().automations, old(self).now());
                started.due.deep_view().to_multiset_ensures();
                found.to_multiset_ensures();
            }
        }
        proof {
            if result matches Ok(Some(_)) {
                assert(moved_by_dispatch(
                    old(self).moment(*old(settlement)),
                    moment_of(self.state(), (old(settlement).total_dispatched + 1) as nat),
                    started.due.deep_view()[started.dispatched as int],
                    started.now,
                ));
            }
        }
        settlement.round = Some(round);
        match &result {
            Ok(Some(_)) => {
                settlement.total_dispatched = settlement.total_dispatched + 1;
            },
            _ => {},
        }
        result
    }

    /// Move the clock and start to settle what is due then.
    pub fn advance_time_by_and_settle(&mut self, seconds: i64) -> (settlement: Settlement)
        ensures
            settlement.total_dispatched == 0,
            settlement.round is None,
            final(self).now() == moved(old(self).now(), seconds),
            final(self).state() == old(self).state(),
            final(self).control_plane.runtime == old(self).control_plane.runtime,
            final(self).control_plane.effect_handler == old(self).control_plane.effect_handler,
    {
        self.advance_time_by(seconds);
        self.settle()
    }

    /// The drive of a signal from a user.
    pub fn submit_user_signal(
        &self,
        automation_id: &String,
        signal: String,
        payload: JsonValue,
    ) -> (drive: EventDrive)
        ensures
            drive.deep_view() == EventDriveModel::started(
                automation_id@,
                AutomationEventModel::UserSignal {
                    signal: signal@,
                    payload: payload.deep_view(),
                    at: self.now(),
                },
                self.now(),
            ),
    {
        self.control_plane.submit_user_signal(automation_id, signal, payload)
    }

    /// The drive of a runtime trigger.
    pub fn submit_trigger(
        &self,
        automation_id: &String,
        trigger: String,
        payload: JsonValue,
    ) -> (drive: EventDrive)
        ensures
            drive.deep_view() == EventDriveModel::started(
                automation_id@,
                AutomationEventModel::TriggerFired {
                    trigger: trigger@,
                    payload: payload.deep_view(),
                    at: self.now(),
                },
                self.now(),
            ),
    {
        self.control_plane.submit_trigger(automation_id, trigger, payload)
    }

    /// The automations of the universe.
    pub fn automations(&self) -> (result: Result<
        OrderedMap<String, ManagedAutomation>,
        AutomationsError,
    >)
        ensures
            result is Ok,
            result->Ok_0.deep_view() == self.state().automations,
    {
        self.control_plane.automations()
    }

    /// The trace of the universe, the oldest record first.
    pub fn traces(&self) -> (result: Result<Vec<TraceRecord>, AutomationsError>)
        ensures
            result is Ok,
            result->Ok_0.deep_view() == self.state().traces,
    {
        self.control_plane.traces()
    }

    /// Everything that the universe keeps.
    pub fn snapshot(&self) -> (result: Result<ControlPlaneState, AutomationsError>)
        ensures
            result is Ok,
            result->Ok_0.deep_view() == self.state(),
    {
        self.control_plane.control_plane_snapshot()
    }
}

}
