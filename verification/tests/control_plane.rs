use mango::automations::clock::{host_time, Clock, ManualClock, SystemClock};
use mango::automations::control_plane::{AutomationsControlPlane, NoopEffectHandler};
use mango::automations::domain::{
    effect_kind_label, ActivationMode, ControlPlaneState, EffectHandlerOutcome,
    EffectObservation, EventSubmission, ManagedAutomation, RegistrationRequest, TraceEvent,
    TraceRecord,
};
use mango::automations::drive::{DriveAction, EventDrive};
use mango::automations::error::AutomationsError;
use mango::automations::guest::WasmAutomationRuntime;
use mango::automations::pocket_universe::PocketUniverse;
use mango::automations::store::{
    ControlPlaneStore, JsonFileControlPlaneStore, MemoryControlPlaneStore,
};
use mango::automations::supervisor::SupervisorConfig;
use mango::json::{JsonObject, JsonValue};
use mango::protocol::{
    AdvanceEnvelope, AdvanceRequest, AdvanceResponse, AutomationDescriptor, AutomationEvent,
    Capability, EffectKind, EffectRequest, EffectResult, EventDisposition, RegistrationEnvelope,
    RegistrationResponse, AUTOMATION_SDK_VERSION,
};
use mango::wasm::{pack_handle, unpack_handle};
use std::cell::RefCell;
use wasmtime::{Config, Engine};

const START_TIME: i64 = 1_774_522_740;

fn text(value: &str) -> JsonValue {
    JsonValue::Text(value.to_string())
}

fn number(value: u64) -> JsonValue {
    JsonValue::Number(value.to_string())
}

fn object(members: Vec<(&str, JsonValue)>) -> JsonValue {
    let mut object = JsonObject::new();
    for (name, value) in members {
        object.insert(name.to_string(), value);
    }
    JsonValue::Object(object)
}

fn member<'a>(value: &'a JsonValue, key: &str) -> Option<&'a JsonValue> {
    let JsonValue::Object(members) = value else {
        return None;
    };
    members.get(&key.to_string())
}

fn effect(effect_id: &str, kind: EffectKind) -> EffectRequest {
    EffectRequest::new(effect_id.to_string(), kind)
}

fn schedule(wakeup_id: &str, at: i64) -> EffectKind {
    EffectKind::ScheduleWakeup {
        wakeup_id: wakeup_id.to_string(),
        at,
    }
}

fn cancel(wakeup_id: &str) -> EffectKind {
    EffectKind::CancelWakeup {
        wakeup_id: wakeup_id.to_string(),
    }
}

fn registration(
    name: &str,
    description: &str,
    state_schema_version: u32,
    capabilities: Vec<Capability>,
    initial_state: JsonValue,
) -> RegistrationResponse {
    RegistrationResponse {
        descriptor: AutomationDescriptor::new(
            name.to_string(),
            description.to_string(),
            state_schema_version,
            capabilities,
        ),
        initial_state,
    }
}

fn response(state: JsonValue, effects: Vec<EffectRequest>, status: &str) -> AdvanceResponse {
    AdvanceResponse {
        state,
        effects,
        status: Some(status.to_string()),
        disposition: EventDisposition::Handled,
    }
}

fn request(automation_id: &str, artifact_path: &str, config: JsonValue) -> RegistrationRequest {
    RegistrationRequest {
        automation_id: automation_id.to_string(),
        artifact_path: artifact_path.to_string(),
        config,
    }
}

/// A guest that the tests play themselves.
trait Guest {
    fn registration(&self) -> RegistrationResponse;
    fn advance(&self, request: &AdvanceRequest) -> Result<AdvanceResponse, AutomationsError>;
}

type Handler<'a> = &'a mut dyn FnMut(&EffectRequest) -> EffectHandlerOutcome;

fn run<B: ControlPlaneStore, R: Guest, H, C: Clock>(
    plane: &mut AutomationsControlPlane<B, R, H, C>,
    mut drive: EventDrive,
    handler: Handler<'_>,
) -> Result<EventSubmission, AutomationsError> {
    loop {
        match plane.next_action(&drive)? {
            DriveAction::AdvanceGuest { request, .. } => {
                let response = plane.runtime.advance(&request)?;
                plane.guest_answered(&mut drive, request.revision_id, &response)?;
            }
            DriveAction::HandleEffect { effect, .. } => {
                let outcome = handler(&effect);
                plane.effect_handled(&mut drive, outcome)?;
            }
            DriveAction::Finished(submission) => return Ok(submission),
        }
    }
}

fn no_effects(_: &EffectRequest) -> EffectHandlerOutcome {
    NoopEffectHandler.outcome()
}

const ARTIFACT: &[u8] = b"fixture";

fn register<B: ControlPlaneStore, R: Guest, H, C: Clock>(
    plane: &mut AutomationsControlPlane<B, R, H, C>,
    request: &RegistrationRequest,
) -> u64 {
    let registration = plane.runtime.registration();
    plane
        .register_revision(request, &ARTIFACT.to_vec(), &registration)
        .expect("registration")
        .revision_id
}

fn automation(state: &ControlPlaneState, automation_id: &str) -> ManagedAutomation {
    state
        .automations
        .get(&automation_id.to_string())
        .expect("automation")
        .clone()
}

/// A Wasm guest that answers with fixed envelopes.
struct StaticGuest {
    wasm: Vec<u8>,
    registered: RegistrationResponse,
    answer: AdvanceResponse,
}

/// A runtime that reserves no more address space than its guests ask for.
fn frugal_runtime() -> WasmAutomationRuntime {
    let mut config = Config::new();
    config
        .memory_reservation(0)
        .memory_reservation_for_growth(0)
        .memory_guard_size(0)
        .memory_init_cow(false);
    WasmAutomationRuntime {
        engine: Engine::new(&config).expect("engine"),
    }
}

fn wat_bytes(bytes: &[u8]) -> String {
    bytes.iter().map(|byte| format!("\\{byte:02x}")).collect()
}

fn encoded<T: std::fmt::Debug>(value: &T) -> Vec<u8> {
    format!("{value:?}").into_bytes()
}

impl StaticGuest {
    fn new(registered: RegistrationResponse, answer: AdvanceResponse) -> Self {
        let register_bytes = encoded(&registered);
        let advance_bytes = encoded(&answer);
        let wat = format!(
            r#"(module
                (memory (export "memory") 1)
                (func (export "mango_automation_abi_version") (result i32)
                    i32.const 1)
                (func (export "mango_automation_alloc") (param i32) (result i32)
                    i32.const 16384)
                (func (export "mango_automation_free") (param i32 i32))
                (func (export "mango_automation_register") (result i64)
                    i64.const {})
                (func (export "mango_automation_advance") (param i32 i32) (result i64)
                    i64.const {})
                (data (i32.const 0) "{}")
                (data (i32.const 4096) "{}")
            )"#,
            pack_handle(0, register_bytes.len() as u32),
            pack_handle(4096, advance_bytes.len() as u32),
            wat_bytes(&register_bytes),
            wat_bytes(&advance_bytes),
        );
        StaticGuest {
            wasm: wat::parse_str(wat).expect("wasm"),
            registered,
            answer,
        }
    }
}

impl Guest for StaticGuest {
    fn registration(&self) -> RegistrationResponse {
        let payload = frugal_runtime()
            .register(&self.wasm)
            .expect("registration envelope");
        assert_eq!(payload, encoded(&self.registered));
        self.registered.clone()
    }

    fn advance(&self, request: &AdvanceRequest) -> Result<AdvanceResponse, AutomationsError> {
        let payload = frugal_runtime().advance(&self.wasm, &encoded(request))?;
        assert_eq!(payload, encoded(&self.answer));
        Ok(self.answer.clone())
    }
}

#[test]
fn revisions_must_be_registered_before_activation_and_activation_runs_guest_entrypoint() {
    let guest = StaticGuest::new(
        registration(
            "fixture.scheduler",
            "static fixture scheduler",
            1,
            vec![Capability::ScheduleWakeups],
            object(vec![("phase", text("registered"))]),
        ),
        response(
            object(vec![("phase", text("armed"))]),
            vec![effect("wakeup-1", schedule("tick", 120))],
            "armed",
        ),
    );
    let mut control_plane = AutomationsControlPlane::with_runtime(
        MemoryControlPlaneStore::new(),
        guest,
        NoopEffectHandler,
        ManualClock::new(100),
    );

    let fixture = "fixture".to_string();
    assert_eq!(
        control_plane.activate_revision(&fixture, 1, ActivationMode::ColdStart),
        Err(AutomationsError::AutomationNotFound(fixture.clone()))
    );
    let revision_id = register(
        &mut control_plane,
        &request("fixture", "scheduler.wasm", JsonValue::Null),
    );
    let before_activation = control_plane.control_plane_snapshot().expect("snapshot");
    assert_eq!(
        automation(&before_activation, "fixture").active_revision_id,
        None,
        "registration should not implicitly activate a revision"
    );

    let drive = control_plane
        .activate_revision(&fixture, revision_id, ActivationMode::ColdStart)
        .expect("activation");
    run(&mut control_plane, drive, &mut no_effects).expect("drive");

    let after_activation = control_plane.control_plane_snapshot().expect("snapshot");
    let automation = automation(&after_activation, "fixture");
    assert_eq!(automation.active_revision_id, Some(revision_id));
    assert_eq!(
        automation.current_state,
        Some(object(vec![("phase", text("armed"))]))
    );
    assert_eq!(automation.last_status.as_deref(), Some("armed"));
    assert!(automation
        .scheduled_wakeups
        .contains_key(&"tick".to_string()));

    let traces = control_plane.traces().expect("traces");
    assert!(traces
        .iter()
        .any(|trace| matches!(trace.event, TraceEvent::RevisionRegistered { .. })));
    assert!(traces
        .iter()
        .any(|trace| matches!(trace.event, TraceEvent::RevisionActivated { .. })));
    assert!(traces.iter().any(|trace| matches!(
        trace.event,
        TraceEvent::WakeupScheduled { ref wakeup_id, .. } if wakeup_id == "tick"
    )));
}

#[test]
fn wakeups_and_effects_flow_through_control_plane_boundaries() {
    let guest = StaticGuest::new(
        registration(
            "fixture.notifier",
            "static fixture notifier",
            1,
            vec![Capability::ScheduleWakeups, Capability::EmitNotifications],
            object(vec![("phase", text("idle"))]),
        ),
        response(
            object(vec![("phase", text("notified"))]),
            vec![effect(
                "notify-1",
                EffectKind::EmitNotification {
                    channel: "demo".to_string(),
                    title: "Reminder".to_string(),
                    body: "Observe the control plane boundary".to_string(),
                    metadata: JsonValue::Null,
                },
            )],
            "notified",
        ),
    );
    let mut control_plane = AutomationsControlPlane::with_runtime(
        MemoryControlPlaneStore::new(),
        guest,
        NoopEffectHandler,
        ManualClock::new(100),
    );
    let revision_id = register(
        &mut control_plane,
        &request("fixture", "notifier.wasm", JsonValue::Null),
    );
    let drive = control_plane
        .activate_revision(&"fixture".to_string(), revision_id, ActivationMode::ColdStart)
        .expect("activation");

    let mut observed_effects: Vec<EffectRequest> = Vec::new();
    run(&mut control_plane, drive, &mut |effect: &EffectRequest| {
        observed_effects.push(effect.clone());
        EffectHandlerOutcome::default()
    })
    .expect("drive");
    assert_eq!(observed_effects.len(), 1);
    assert!(matches!(
        observed_effects[0].kind,
        EffectKind::EmitNotification { .. }
    ));

    let traces = control_plane.traces().expect("traces");
    assert!(traces.iter().any(|trace| matches!(
        trace.event,
        TraceEvent::EffectRequested { ref effect_id, .. } if effect_id == "notify-1"
    )));
    assert!(traces.iter().any(|trace| matches!(
        trace.event,
        TraceEvent::EffectHandled { ref effect_id, follow_up_events, .. }
            if effect_id == "notify-1" && follow_up_events == 0
    )));
}

#[test]
fn preserve_state_rejects_incompatible_schema_versions() {
    let schema = |version: u64| object(vec![("schema", number(version))]);
    let first = StaticGuest::new(
        registration(
            "fixture.schema",
            "schema v1",
            1,
            vec![Capability::ScheduleWakeups],
            schema(1),
        ),
        response(
            object(vec![("schema", number(1)), ("armed", JsonValue::Bool(true))]),
            Vec::new(),
            "v1",
        ),
    );
    let second = StaticGuest::new(
        registration(
            "fixture.schema",
            "schema v2",
            2,
            vec![Capability::ScheduleWakeups],
            schema(2),
        ),
        response(schema(2), Vec::new(), "v2"),
    );
    let mut control_plane = AutomationsControlPlane::with_runtime(
        MemoryControlPlaneStore::new(),
        first,
        NoopEffectHandler,
        ManualClock::new(100),
    );
    let fixture = "fixture".to_string();
    let v1 = register(
        &mut control_plane,
        &request("fixture", "schema-v1.wasm", JsonValue::Null),
    );
    let drive = control_plane
        .activate_revision(&fixture, v1, ActivationMode::ColdStart)
        .expect("activation");
    run(&mut control_plane, drive, &mut no_effects).expect("drive");
    let v2 = control_plane
        .register_revision(
            &request("fixture", "schema-v2.wasm", JsonValue::Null),
            &second.wasm,
            &second.registration(),
        )
        .expect("registration")
        .revision_id;

    let before = control_plane.control_plane_snapshot();
    let error = control_plane
        .activate_revision(&fixture, v2, ActivationMode::PreserveState)
        .expect_err("schema mismatch should reject preserve-state activation");
    assert!(matches!(
        error,
        AutomationsError::IncompatibleState { revision_id, .. } if revision_id == v2
    ));
    assert_eq!(control_plane.control_plane_snapshot(), before);

    control_plane
        .activate_revision(&fixture, v2, ActivationMode::ColdStart)
        .expect("a cold start needs no old state");
    let after = control_plane.control_plane_snapshot().expect("snapshot");
    assert_eq!(automation(&after, "fixture").current_state, Some(schema(2)));
}

#[test]
fn deactivated_automations_keep_the_schema_of_their_state() {
    let mut control_plane = AutomationsControlPlane::with_runtime(
        MemoryControlPlaneStore::new(),
        (),
        NoopEffectHandler,
        ManualClock::new(100),
    );
    let fixture = "fixture".to_string();
    let mut revisions = Vec::new();
    for schema in [1, 2, 1] {
        let revision = control_plane
            .register_revision(
                &request("fixture", "guest.wasm", JsonValue::Null),
                &ARTIFACT.to_vec(),
                &registration(
                    "fixture.schema",
                    "schema",
                    schema,
                    Vec::new(),
                    number(u64::from(schema)),
                ),
            )
            .expect("registration");
        revisions.push(revision.revision_id);
    }
    control_plane
        .activate_revision(&fixture, revisions[0], ActivationMode::ColdStart)
        .expect("activation");
    control_plane
        .deactivate_automation(&fixture)
        .expect("deactivation");

    let before = control_plane.control_plane_snapshot();
    assert_eq!(
        control_plane
            .activate_revision(&fixture, revisions[1], ActivationMode::PreserveState)
            .expect_err("the state has another schema"),
        AutomationsError::IncompatibleState {
            automation_id: fixture.clone(),
            revision_id: revisions[1],
        }
    );
    assert_eq!(control_plane.control_plane_snapshot(), before);
    let kept = automation(&before.expect("snapshot"), "fixture")
        .current_state
        .clone();
    assert_eq!(kept, Some(number(1)));

    control_plane
        .activate_revision(&fixture, revisions[2], ActivationMode::PreserveState)
        .expect("the state has this schema");
    control_plane
        .deactivate_automation(&fixture)
        .expect("deactivation");
    control_plane
        .activate_revision(&fixture, revisions[1], ActivationMode::ColdStart)
        .expect("a cold start needs no old state");
    let after = control_plane.control_plane_snapshot().expect("snapshot");
    assert_eq!(automation(&after, "fixture").current_state, Some(number(2)));
    assert_eq!(
        after.last_activated_revision(&fixture),
        Some(revisions[1])
    );
}

#[test]
fn failed_transactions_leave_the_store_as_it_was() {
    let mut store = MemoryControlPlaneStore::new();
    let told = store.transact(|state| {
        state.next_revision_id = 7;
        Ok("kept")
    });
    assert_eq!(told, Ok("kept"));
    assert_eq!(store.snapshot().expect("snapshot").next_revision_id, 7);
    let refused: Result<(), AutomationsError> = store.transact(|state| {
        state.next_revision_id = 8;
        Err(AutomationsError::State("refused".to_string()))
    });
    assert_eq!(refused, Err(AutomationsError::State("refused".to_string())));
    assert_eq!(store.snapshot().expect("snapshot").next_revision_id, 7);
}

struct PersistenceRuntime;

impl Guest for PersistenceRuntime {
    fn registration(&self) -> RegistrationResponse {
        registration(
            "fixture.persistence",
            "restart-safe wakeup fixture",
            1,
            vec![Capability::ScheduleWakeups, Capability::EmitNotifications],
            object(vec![("phase", text("idle"))]),
        )
    }

    fn advance(&self, request: &AdvanceRequest) -> Result<AdvanceResponse, AutomationsError> {
        match &request.event {
            AutomationEvent::Activated { .. } => Ok(response(
                object(vec![("phase", text("armed"))]),
                vec![effect("wake-once", schedule("once", request.now + 60))],
                "armed",
            )),
            AutomationEvent::WakeupFired { wakeup_id, .. } if wakeup_id == "once" => {
                Ok(response(
                    object(vec![("phase", text("executed"))]),
                    vec![effect(
                        "notify-once",
                        EffectKind::EmitNotification {
                            channel: "telegram".to_string(),
                            title: "Restart-safe".to_string(),
                            body: "delivery after restart".to_string(),
                            metadata: request.config.clone(),
                        },
                    )],
                    "executed",
                ))
            }
            _ => Ok(response(request.state.clone(), Vec::new(), "idle")),
        }
    }
}

#[test]
fn registration_survives_restart_and_due_wakeup_executes() {
    let config = || object(vec![("chat_id", number(77)), ("thread_id", number(3))]);
    let kept = {
        let mut control_plane = AutomationsControlPlane::with_runtime(
            MemoryControlPlaneStore::new(),
            PersistenceRuntime,
            NoopEffectHandler,
            ManualClock::new(START_TIME),
        );
        let revision_id = register(
            &mut control_plane,
            &request("fixture", "fixture.wasm", config()),
        );
        let drive = control_plane
            .activate_revision(&"fixture".to_string(), revision_id, ActivationMode::ColdStart)
            .expect("activation");
        run(&mut control_plane, drive, &mut no_effects).expect("drive");
        assert_eq!(control_plane.automations().expect("automations").len(), 1);
        control_plane.control_plane_snapshot().expect("snapshot")
    };

    let mut control_plane = AutomationsControlPlane::with_runtime(
        MemoryControlPlaneStore { state: kept },
        PersistenceRuntime,
        NoopEffectHandler,
        ManualClock::new(START_TIME + 60),
    );
    let mut payloads: Vec<JsonValue> = Vec::new();
    let mut reconciliation = control_plane.reconcile_due().expect("due wakeups");
    assert_eq!(reconciliation.due_count(), 1);
    while let Some(drive) = control_plane
        .next_wakeup(&mut reconciliation)
        .expect("dispatch")
    {
        run(&mut control_plane, drive, &mut |effect: &EffectRequest| {
            if let EffectKind::EmitNotification { metadata, .. } = &effect.kind {
                payloads.push(metadata.clone());
            }
            EffectHandlerOutcome::default()
        })
        .expect("drive");
    }

    let state = control_plane.control_plane_snapshot().expect("snapshot");
    let automation = automation(&state, "fixture");
    assert_eq!(automation.active_revision_id, Some(1));
    assert_eq!(automation.last_status.as_deref(), Some("executed"));
    assert_eq!(
        automation.current_state,
        Some(object(vec![("phase", text("executed"))]))
    );
    assert_eq!(payloads, vec![config()]);

    let traces = control_plane.traces().expect("traces");
    assert!(traces.iter().any(|trace| matches!(
        trace.event,
        TraceEvent::WakeupDispatched { ref wakeup_id, .. } if wakeup_id == "once"
    )));
    assert!(traces.iter().any(|trace| matches!(
        trace.event,
        TraceEvent::EffectHandled { ref effect_id, .. } if effect_id == "notify-once"
    )));
}

struct FixtureRuntime;

impl Guest for FixtureRuntime {
    fn registration(&self) -> RegistrationResponse {
        registration(
            "fixture.loop",
            "generic loop fixture",
            1,
            vec![Capability::ScheduleWakeups, Capability::EmitNotifications],
            object(vec![
                ("armed", JsonValue::Bool(false)),
                ("notification_count", number(0)),
            ]),
        )
    }

    fn advance(&self, request: &AdvanceRequest) -> Result<AdvanceResponse, AutomationsError> {
        let armed = member(&request.state, "armed") == Some(&JsonValue::Bool(true));
        let count = match member(&request.state, "notification_count") {
            Some(JsonValue::Number(count)) => count.parse::<u64>().expect("count"),
            _ => 0,
        };
        let state = |armed: bool, count: u64| {
            object(vec![
                ("armed", JsonValue::Bool(armed)),
                ("notification_count", number(count)),
            ])
        };
        match &request.event {
            AutomationEvent::Activated { .. } => Ok(response(
                state(true, count),
                vec![effect("wake-activate", schedule("pulse", request.now + 60))],
                "armed",
            )),
            AutomationEvent::WakeupFired { .. } if armed => Ok(response(
                state(true, count + 1),
                vec![
                    effect(
                        &format!("notify-{}", count + 1),
                        EffectKind::EmitNotification {
                            channel: "demo".to_string(),
                            title: "Pulse".to_string(),
                            body: format!("pulse {}", count + 1),
                            metadata: JsonValue::Null,
                        },
                    ),
                    effect(
                        &format!("wake-{}", count + 1),
                        schedule("pulse", request.now + 60),
                    ),
                ],
                "pulsing",
            )),
            AutomationEvent::UserSignal { signal, .. } if signal == "stop" => {
                Ok(response(state(false, count), Vec::new(), "stopped"))
            }
            _ => Ok(response(request.state.clone(), Vec::new(), "idle")),
        }
    }
}

fn settle(
    universe: &mut PocketUniverse<FixtureRuntime, NoopEffectHandler>,
    seconds: i64,
    handler: Handler<'_>,
) -> usize {
    let mut settlement = universe.advance_time_by_and_settle(seconds);
    while let Some(drive) = universe.settle_next(&mut settlement).expect("dispatch") {
        run(&mut universe.control_plane, drive, handler).expect("drive");
    }
    settlement.total_dispatched
}

#[test]
fn pocket_universe_replays_control_plane_contracts() {
    let mut universe = PocketUniverse::new(START_TIME, FixtureRuntime, NoopEffectHandler);
    let revision_id = universe
        .register_revision(
            &request("loop", "fixture.wasm", JsonValue::Null),
            &ARTIFACT.to_vec(),
            &FixtureRuntime.registration(),
        )
        .expect("registration")
        .revision_id;
    let drive = universe
        .activate_revision(&"loop".to_string(), revision_id, ActivationMode::ColdStart)
        .expect("activation");

    let notifications: RefCell<Vec<String>> = RefCell::new(Vec::new());
    let mut record = |effect: &EffectRequest| {
        if let EffectKind::EmitNotification { body, .. } = &effect.kind {
            notifications.borrow_mut().push(body.clone());
        }
        EffectHandlerOutcome::default()
    };
    run(&mut universe.control_plane, drive, &mut record).expect("drive");

    assert_eq!(settle(&mut universe, 60, &mut record), 1);
    assert!(universe
        .traces()
        .expect("traces")
        .iter()
        .any(|trace| matches!(
            trace.event,
            TraceEvent::EffectHandled { ref effect_id, .. } if effect_id == "notify-1"
        )));
    assert_eq!(*notifications.borrow(), vec!["pulse 1".to_string()]);

    let drive = universe.submit_user_signal(
        &"loop".to_string(),
        "stop".to_string(),
        JsonValue::Null,
    );
    run(&mut universe.control_plane, drive, &mut record).expect("drive");
    assert_eq!(settle(&mut universe, 60, &mut record), 1);
    assert_eq!(
        *notifications.borrow(),
        vec!["pulse 1".to_string()],
        "once stopped, the loop should not emit another notification"
    );
    assert_eq!(settle(&mut universe, 60, &mut record), 0);
    assert_eq!(universe.clock().now(), START_TIME + 180);
}

#[test]
fn settlements_count_the_wakeups_they_dispatch() {
    let mut universe = PocketUniverse::new(START_TIME, FixtureRuntime, NoopEffectHandler);
    let revision_id = universe
        .register_revision(
            &request("loop", "fixture.wasm", JsonValue::Null),
            &ARTIFACT.to_vec(),
            &FixtureRuntime.registration(),
        )
        .expect("registration")
        .revision_id;
    let drive = universe
        .activate_revision(&"loop".to_string(), revision_id, ActivationMode::ColdStart)
        .expect("activation");
    run(&mut universe.control_plane, drive, &mut no_effects).expect("drive");

    let dispatched = |universe: &PocketUniverse<FixtureRuntime, NoopEffectHandler>| {
        universe
            .traces()
            .expect("traces")
            .iter()
            .filter(|trace| matches!(trace.event, TraceEvent::WakeupDispatched { .. }))
            .count()
    };
    let before = dispatched(&universe);
    let total = settle(&mut universe, 60, &mut no_effects);
    assert_eq!(total, 1);
    assert_eq!(dispatched(&universe), before + total);
    assert!(universe.reconcile_due().expect("round").due.is_empty());

    let settled = universe.snapshot();
    assert_eq!(settle(&mut universe, 0, &mut no_effects), 0);
    assert_eq!(universe.snapshot(), settled);
}

/// A guest whose answers are given by the test.
struct ScriptedGuest<F: Fn(&AdvanceRequest) -> AdvanceResponse> {
    capabilities: Vec<Capability>,
    answer: F,
}

impl<F: Fn(&AdvanceRequest) -> AdvanceResponse> Guest for ScriptedGuest<F> {
    fn registration(&self) -> RegistrationResponse {
        registration(
            "fixture.scripted",
            "scripted fixture",
            1,
            self.capabilities.clone(),
            JsonValue::Null,
        )
    }

    fn advance(&self, request: &AdvanceRequest) -> Result<AdvanceResponse, AutomationsError> {
        Ok((self.answer)(request))
    }
}

fn started<F: Fn(&AdvanceRequest) -> AdvanceResponse>(
    capabilities: Vec<Capability>,
    answer: F,
) -> (
    AutomationsControlPlane<MemoryControlPlaneStore, ScriptedGuest<F>, NoopEffectHandler, ManualClock>,
    EventDrive,
) {
    let mut plane = AutomationsControlPlane::with_runtime(
        MemoryControlPlaneStore::new(),
        ScriptedGuest {
            capabilities,
            answer,
        },
        NoopEffectHandler,
        ManualClock::new(100),
    );
    let revision_id = register(&mut plane, &request("fixture", "guest.wasm", JsonValue::Null));
    let drive = plane
        .activate_revision(&"fixture".to_string(), revision_id, ActivationMode::ColdStart)
        .expect("activation");
    (plane, drive)
}

#[test]
fn due_wakeups_are_dispatched_by_time_automation_and_name() {
    let mut state = ControlPlaneState::default();
    for (id, wakeups) in [
        ("b", vec![("z", 5), ("a", 5), ("late", 11)]),
        ("a", vec![("m", 5), ("first", 1)]),
    ] {
        let mut automation = ManagedAutomation::new(id.to_string());
        automation.active_revision_id = Some(7);
        for (name, at) in wakeups {
            automation.scheduled_wakeups.insert(
                name.to_string(),
                mango::automations::domain::ScheduledWakeup {
                    wakeup_id: name.to_string(),
                    at,
                },
            );
        }
        state.automations.insert(id.to_string(), automation);
    }
    let due: Vec<(String, u64, String, i64)> = state
        .due_wakeups(10)
        .into_iter()
        .map(|due| (due.automation_id, due.revision_id, due.wakeup_id, due.at))
        .collect();
    let expected = |id: &str, name: &str, at: i64| (id.to_string(), 7, name.to_string(), at);
    assert_eq!(
        due,
        vec![
            expected("a", "first", 1),
            expected("a", "m", 5),
            expected("b", "a", 5),
            expected("b", "z", 5),
        ]
    );
    assert_eq!(state.due_wakeups(0).len(), 0);
    assert_eq!(state.due_wakeups(11).len(), 5);
}

#[test]
fn the_last_scheduling_effect_decides() {
    let (mut plane, drive) = started(Vec::new(), |_| {
        response(
            JsonValue::Null,
            vec![
                effect("1", schedule("kept", 1)),
                effect("2", schedule("gone", 2)),
                effect("3", schedule("kept", 3)),
                effect("4", cancel("gone")),
                effect("5", cancel("never")),
            ],
            "scheduled",
        )
    });
    run(&mut plane, drive, &mut |_| {
        panic!("the control plane settles wakeups by itself")
    })
    .expect("drive");
    let state = plane.control_plane_snapshot().expect("snapshot");
    let wakeups = automation(&state, "fixture").scheduled_wakeups;
    assert_eq!(wakeups.len(), 1);
    assert_eq!(wakeups.get(&"kept".to_string()).map(|w| w.at), Some(3));
    let labels: Vec<String> = state
        .traces
        .iter()
        .map(|trace| match &trace.event {
            TraceEvent::RevisionRegistered { .. } => "registered".to_string(),
            TraceEvent::RevisionActivated { .. } => "activated".to_string(),
            TraceEvent::EventSubmitted { .. } => "event".to_string(),
            TraceEvent::StateAdvanced { .. } => "state".to_string(),
            TraceEvent::WakeupScheduled { wakeup_id, .. } => format!("+{wakeup_id}"),
            TraceEvent::WakeupCancelled { wakeup_id, .. } => format!("-{wakeup_id}"),
            other => format!("{other:?}"),
        })
        .collect();
    assert_eq!(
        labels,
        ["registered", "activated", "event", "state", "+kept", "+gone", "+kept", "-gone", "-never"]
    );
}

#[test]
fn effects_need_their_capability() {
    let (mut plane, drive) = started(vec![Capability::RunCommand], |_| {
        response(
            JsonValue::Null,
            vec![effect(
                "fetch",
                EffectKind::FetchHttp {
                    url: "http://localhost".to_string(),
                },
            )],
            "fetching",
        )
    });
    assert_eq!(
        run(&mut plane, drive, &mut |_| panic!("the effect is not declared")),
        Err(AutomationsError::MissingCapability {
            automation_id: "fixture".to_string(),
            capability: "FetchHttp".to_string(),
        })
    );
}

#[test]
fn follow_up_events_reach_the_guest_in_order() {
    let seen: RefCell<Vec<String>> = RefCell::new(Vec::new());
    let (mut plane, drive) = started(vec![Capability::ReadProfile], |request| {
        let (name, effects) = match &request.event {
            AutomationEvent::Activated { .. } => (
                "activated".to_string(),
                vec![
                    effect("one", EffectKind::ReadProfile { keys: Vec::new() }),
                    effect("two", EffectKind::ReadProfile { keys: Vec::new() }),
                ],
            ),
            AutomationEvent::EffectCompleted { effect_id, .. } => (effect_id.clone(), Vec::new()),
            other => panic!("unexpected event {other:?}"),
        };
        seen.borrow_mut().push(name);
        AdvanceResponse {
            state: JsonValue::Null,
            effects,
            status: None,
            disposition: if seen.borrow().len() == 1 {
                EventDisposition::Unhandled
            } else {
                EventDisposition::Handled
            },
        }
    });
    let submission = run(&mut plane, drive, &mut |effect| EffectHandlerOutcome {
        follow_up_events: vec![AutomationEvent::EffectCompleted {
            effect_id: effect.effect_id.clone(),
            result: EffectResult::Success(JsonValue::Null),
            at: 100,
        }],
        observations: vec![EffectObservation::Notification {
            effect_id: effect.effect_id.clone(),
            channel: String::new(),
            title: String::new(),
            body: String::new(),
            metadata: JsonValue::Null,
        }],
    })
    .expect("drive");
    assert_eq!(*seen.borrow(), ["activated", "one", "two"]);
    assert_eq!(submission.disposition, EventDisposition::Unhandled);
    assert_eq!(submission.observations.len(), 2);
}

#[test]
fn deactivated_and_deleted_automations_take_no_events() {
    let (mut plane, drive) = started(Vec::new(), |_| {
        response(
            text("state"),
            vec![effect("1", schedule("tick", 120))],
            "armed",
        )
    });
    run(&mut plane, drive, &mut no_effects).expect("drive");
    let fixture = "fixture".to_string();
    let missing = "missing".to_string();
    plane.deactivate_automation(&fixture).expect("deactivation");
    let state = plane.control_plane_snapshot().expect("snapshot");
    let deactivated = automation(&state, "fixture");
    assert_eq!(deactivated.active_revision_id, None);
    assert_eq!(deactivated.revisions.len(), 1);
    assert_eq!(deactivated.current_state, Some(text("state")));
    assert_eq!(deactivated.scheduled_wakeups.len(), 0);
    assert_eq!(deactivated.last_status.as_deref(), Some("deactivated"));
    assert_eq!(
        plane.deactivate_automation(&fixture),
        Err(AutomationsError::NoActiveRevision {
            automation_id: fixture.clone(),
        })
    );
    let drive = plane.submit_trigger(&fixture, "tick".to_string(), JsonValue::Null);
    assert_eq!(
        run(&mut plane, drive, &mut no_effects),
        Err(AutomationsError::NoActiveRevision {
            automation_id: fixture.clone(),
        })
    );
    assert_eq!(
        plane.activate_revision(&fixture, 9, ActivationMode::PreserveState),
        Err(AutomationsError::RevisionNotFound {
            automation_id: fixture.clone(),
            revision_id: 9,
        })
    );
    plane.delete_automation(&fixture).expect("deletion");
    assert_eq!(plane.automations().expect("automations").len(), 0);
    assert!(matches!(
        plane.traces().expect("traces").last(),
        Some(TraceRecord {
            at: 100,
            event: TraceEvent::AutomationDeleted { .. },
        })
    ));
    for result in [
        plane.delete_automation(&fixture),
        plane.deactivate_automation(&fixture),
    ] {
        assert_eq!(
            result,
            Err(AutomationsError::AutomationNotFound(fixture.clone()))
        );
    }
    let drive = plane.submit_user_signal(&missing, "stop".to_string(), JsonValue::Null);
    assert_eq!(
        run(&mut plane, drive, &mut no_effects),
        Err(AutomationsError::AutomationNotFound(missing))
    );
}

#[test]
fn answers_of_a_replaced_revision_are_refused() {
    let (mut plane, drive) = started(Vec::new(), |_| response(text("new"), Vec::new(), "new"));
    let second = register(&mut plane, &request("fixture", "guest.wasm", JsonValue::Null));
    let mut stale = drive;
    plane
        .activate_revision(&"fixture".to_string(), second, ActivationMode::PreserveState)
        .expect("activation");
    assert_eq!(
        plane.guest_answered(&mut stale, 1, &response(text("old"), Vec::new(), "old")),
        Err(AutomationsError::RevisionNotFound {
            automation_id: "fixture".to_string(),
            revision_id: 1,
        })
    );
    assert_eq!(stale.pending.len(), 1);
}

#[test]
fn revisions_are_numbered_and_hashed() {
    let (mut plane, _) = started(Vec::new(), |_| response(JsonValue::Null, Vec::new(), ""));
    let registration = plane.runtime.registration();
    let revision = plane
        .register_revision(
            &request("other", "other.wasm", text("config")),
            &b"abc".to_vec(),
            &registration,
        )
        .expect("registration");
    assert_eq!(revision.revision_id, 2);
    assert_eq!(revision.registered_at, 100);
    assert_eq!(revision.artifact_path, "other.wasm");
    assert_eq!(revision.config, text("config"));
    assert_eq!(revision.descriptor.sdk_version, AUTOMATION_SDK_VERSION);
    assert_eq!(
        revision.artifact_sha256,
        "ba7816bf8f01cfea414140de5dae2223b00361a396177a9cb410ff61f20015ad"
    );
    let empty = plane
        .register_revision(
            &request("other", "other.wasm", JsonValue::Null),
            &Vec::new(),
            &registration,
        )
        .expect("registration");
    assert_eq!(empty.revision_id, 3);
    assert_eq!(
        empty.artifact_sha256,
        "e3b0c44298fc1c149afbf4c8996fb92427ae41e4649b934ca495991b7852b855"
    );
}

#[test]
fn effect_kinds_have_labels() {
    let labels: Vec<&str> = [
        schedule("w", 1),
        cancel("w"),
        EffectKind::EmitNotification {
            channel: String::new(),
            title: String::new(),
            body: String::new(),
            metadata: JsonValue::Null,
        },
        EffectKind::FetchHttp { url: String::new() },
        EffectKind::ReadProfile { keys: Vec::new() },
        EffectKind::CallTool {
            slug: String::new(),
            input: JsonValue::Null,
        },
        EffectKind::RunCommand {
            program: String::new(),
            args: Vec::new(),
        },
        EffectKind::RunInference {
            capability: String::new(),
            input: JsonValue::Null,
        },
        EffectKind::RunModel {
            prompt: String::new(),
            system: None,
        },
    ]
    .iter()
    .map(effect_kind_label)
    .collect();
    assert_eq!(
        labels,
        [
            "schedule_wakeup",
            "cancel_wakeup",
            "emit_notification",
            "fetch_http",
            "read_profile",
            "call_tool",
            "run_command",
            "run_inference",
            "run_model",
        ]
    );
}

#[test]
fn clocks_show_seconds() {
    let mut clock = ManualClock::new(10);
    clock.advance_by(-15);
    assert_eq!(clock.now(), -5);
    clock.advance_by(15);
    assert_eq!(clock.now(), 10);
    clock.set(i64::MAX);
    clock.advance_by(1);
    assert_eq!(clock.now(), i64::MIN);
    assert_eq!(host_time(None), 0);
    assert_eq!(host_time(Some(7)), 7);
    assert_eq!(host_time(Some(u64::MAX)), i64::MAX);
    assert!(SystemClock.now() > 1_700_000_000);
    assert_eq!(SupervisorConfig::default().poll_interval_millis, 250);
    assert_eq!(
        JsonFileControlPlaneStore::new("state.json".to_string()).path(),
        "state.json"
    );
}

#[test]
fn moves_of_a_clock_add_up() {
    for (start, seconds, more) in [
        (10, 5, 7),
        (10, -15, 3),
        (i64::MAX - 1, 5, -9),
        (i64::MIN, i64::MIN, i64::MAX),
    ] {
        let mut twice = ManualClock::new(start);
        twice.advance_by(seconds);
        twice.advance_by(more);
        let mut once = ManualClock::new(start);
        once.advance_by(seconds + more);
        assert_eq!(twice.now(), once.now());
    }
    let mut clock = ManualClock::new(10);
    clock.advance_by(5);
    clock.advance_by(7);
    assert_eq!(clock.now(), 22);
}

#[test]
fn errors_have_messages() {
    let id = || "a".to_string();
    for (error, message) in [
        (AutomationsError::State(id()), "state backend failed: a"),
        (AutomationsError::Io(id()), "control plane I/O failed: a"),
        (AutomationsError::Guest(id()), "wasm guest failed: a"),
        (
            AutomationsError::Provider(id()),
            "provider invocation failed: a",
        ),
        (
            AutomationsError::AutomationNotFound(id()),
            "automation `a` was not found",
        ),
        (
            AutomationsError::NoActiveRevision {
                automation_id: id(),
            },
            "automation `a` has no active revision",
        ),
        (
            AutomationsError::RevisionNotFound {
                automation_id: id(),
                revision_id: 12,
            },
            "revision 12 for automation `a` was not found",
        ),
        (
            AutomationsError::IncompatibleState {
                automation_id: id(),
                revision_id: 0,
            },
            "revision 0 for automation `a` is incompatible with the current state",
        ),
        (
            AutomationsError::MissingCapability {
                automation_id: id(),
                capability: "FetchHttp".to_string(),
            },
            "automation `a` does not declare capability `FetchHttp`",
        ),
    ] {
        assert_eq!(error.message(), message);
    }
}

#[test]
fn envelopes_hold_a_response_or_an_error() {
    let answered = response(JsonValue::Null, Vec::new(), "ok");
    assert_eq!(
        AdvanceEnvelope::Success(answered.clone()).into_result(),
        Ok(answered)
    );
    assert_eq!(
        AdvanceEnvelope::Failure("broken".to_string()).into_result(),
        Err(AutomationsError::Guest("broken".to_string()))
    );
    assert_eq!(
        RegistrationEnvelope::Failure("broken".to_string()).into_result(),
        Err(AutomationsError::Guest("broken".to_string()))
    );
}

const ECHO: &str = r#"(module
    (memory (export "memory") 1)
    (global $freed (mut i32) (i32.const 0))
    (func (export "mango_automation_abi_version") (result i32) i32.const 1)
    (func (export "mango_automation_alloc") (param i32) (result i32) i32.const 512)
    (func (export "mango_automation_free") (param i32 i32)
        (global.set $freed (i32.add (global.get $freed) (i32.const 1)))
        (if (i32.gt_u (global.get $freed) (i32.const 2)) (then unreachable)))
    (func (export "mango_automation_register") (result i64) i64.const 21474836480)
    (func (export "mango_automation_advance") (param i32 i32) (result i64)
        (i64.or
            (i64.shl (i64.extend_i32_u (local.get 1)) (i64.const 32))
            (i64.extend_i32_u (local.get 0))))
    (data (i32.const 0) "hello")
)"#;

fn guest_error(result: Result<Vec<u8>, AutomationsError>) -> String {
    match result {
        Err(AutomationsError::Guest(reason)) => reason,
        other => panic!("expected a guest error, not {other:?}"),
    }
}

#[test]
fn guests_are_handed_the_request() {
    let wasm = wat::parse_str(ECHO).expect("wasm");
    let runtime = frugal_runtime();
    assert_eq!(runtime.register(&wasm), Ok(b"hello".to_vec()));
    let request = b"what the guest is asked".to_vec();
    assert_eq!(runtime.advance(&wasm, &request), Ok(request));
    assert_eq!(runtime.advance(&wasm, &Vec::new()), Ok(Vec::new()));
}

#[test]
fn guests_of_another_kind_are_refused() {
    let runtime = frugal_runtime();
    let wasm = |text: &str| wat::parse_str(text).expect("wasm");
    assert_eq!(
        guest_error(runtime.register(&wasm(&ECHO.replace(
            "(result i32) i32.const 1)",
            "(result i32) i32.const 7)"
        )))),
        "automation ABI version mismatch: guest=7, host=1"
    );
    assert!(guest_error(
        runtime.register(&wasm(&ECHO.replace("mango_automation_free", "other_free")))
    )
    .contains("mango_automation_free"));
    assert!(
        !guest_error(runtime.advance(&wasm(ECHO), &vec![b'x'; 65_536])).is_empty(),
        "the request does not fit into the guest"
    );
    assert!(
        !guest_error(runtime.register(&wasm(&ECHO.replace(
            "i64.const 21474836480",
            "i64.const 21474902012"
        ))))
        .is_empty(),
        "the answer lies outside of the guest"
    );
    assert!(
        !guest_error(runtime.register(&wasm(&ECHO.replace(
            "(i32.const 2)) (then unreachable)",
            "(i32.const 0)) (then unreachable)"
        ))))
        .is_empty(),
        "the guest does not take its buffer back"
    );
}

#[test]
fn the_default_engine_runs_guests_without_memory() {
    let wasm = |version: u32| {
        wat::parse_str(format!(
            r#"(module
                (func (export "mango_automation_abi_version") (result i32)
                    i32.const {version}))"#
        ))
        .expect("wasm")
    };
    for runtime in [WasmAutomationRuntime::new(), WasmAutomationRuntime::default()] {
        assert_eq!(
            guest_error(runtime.register(&wasm(1))),
            "guest does not export memory"
        );
        assert_eq!(
            guest_error(runtime.advance(&wasm(4_000_000_000), &Vec::new())),
            "automation ABI version mismatch: guest=4000000000, host=1"
        );
        assert!(!guest_error(runtime.register(&b"no module".to_vec())).is_empty());
    }
}

#[test]
fn handles_hold_a_pointer_and_a_length() {
    assert_eq!(pack_handle(7, 3), 3 * 4_294_967_296 + 7);
    for (ptr, len) in [(0, 0), (u32::MAX, 0), (0, u32::MAX), (16_384, 9)] {
        assert_eq!(unpack_handle(pack_handle(ptr, len)), (ptr, len));
    }
}
