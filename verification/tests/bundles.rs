use mango::automations::bundle_host::{
    automation_id_for_bundle_scope, complete_effect, config_with_host_context,
    unsupported_effect, AutomationBundleHost, BundleActivation, BundleDispatchOutcome,
    BundleStart, BundleTriggerEvent, EffectPlan, LoadedBundle,
};
use mango::automations::clock::ManualClock;
use mango::automations::domain::{
    EffectHandlerOutcome, EffectObservation, EventSubmission, ManagedAutomation,
};
use mango::automations::error::AutomationsError;
use mango::automations::providers::{
    build_step_failure, ensure_bundle_build_steps, render_output_snippet,
    AutomationBundleManifest, BundleBuildStep, CapabilityBinding, CapabilityProvider,
    CapabilityRegistry,
    CapabilityTransport, CommandJsonCapabilityProvider, CommandOutput, ProviderInvocation,
    ProviderInvocationResult,
};
use mango::automations::store::MemoryControlPlaneStore;
use mango::json::{JsonObject, JsonValue};
use mango::ordered_map::OrderedMap;
use mango::paths::{is_absolute, join_path};
use mango::protocol::{
    AutomationEvent, EffectKind, EffectRequest, EffectResult, EventDisposition,
    RegistrationResponse,
};

fn text(value: &str) -> JsonValue {
    JsonValue::Text(value.to_string())
}

fn object(members: Vec<(&str, JsonValue)>) -> JsonValue {
    let mut object = JsonObject::new();
    for (name, value) in members {
        object.insert(name.to_string(), value);
    }
    JsonValue::Object(object)
}

fn binding(slug: &str, config: JsonValue, program: &str) -> CapabilityBinding {
    let mut env = OrderedMap::new();
    env.insert("MODE".to_string(), "test".to_string());
    CapabilityBinding {
        slug: slug.to_string(),
        config,
        transport: CapabilityTransport::Command {
            program: program.to_string(),
            args: vec!["--json".to_string()],
            env,
        },
    }
}

fn manifest(name: &str, subscriptions: &[&str]) -> AutomationBundleManifest {
    AutomationBundleManifest {
        name: name.to_string(),
        artifact: "guest.wasm".to_string(),
        trigger_subscriptions: subscriptions.iter().map(|name| name.to_string()).collect(),
        build_steps: Vec::new(),
        tools: vec![binding("lookup", JsonValue::Null, "bin/lookup")],
        inference: vec![binding("summary", text("model"), "/opt/summary")],
    }
}

fn host(
    bundles: Vec<AutomationBundleManifest>,
) -> AutomationBundleHost<MemoryControlPlaneStore, (), ManualClock, &'static str> {
    AutomationBundleHost::with_runtime(
        MemoryControlPlaneStore::new(),
        (),
        bundles,
        &text("host"),
        ManualClock::new(100),
    )
}

fn trigger(name: &str) -> BundleTriggerEvent {
    BundleTriggerEvent::new(name.to_string(), JsonValue::Null)
}

#[test]
fn triggers_go_to_the_bundles_that_subscribed() {
    let host = host(vec![
        manifest("photos", &["telegram.photo_received", "tick"]),
        manifest("texts", &["telegram.text_received"]),
        manifest("all", &["tick", "telegram.photo_received"]),
    ]);
    assert_eq!(
        host.dispatch_triggers(&vec![
            trigger("telegram.photo_received"),
            trigger("unknown"),
            trigger("telegram.text_received"),
            trigger("tick"),
        ]),
        vec![(0, 0), (0, 2), (2, 1), (3, 0), (3, 2)]
    );
    assert!(host.dispatch_triggers(&Vec::new()).is_empty());
}

#[test]
fn bundles_without_subscriptions_take_no_triggers() {
    let host = host(vec![manifest("quiet", &[])]);
    assert!(host
        .dispatch_triggers(&vec![trigger("telegram.photo_received")])
        .is_empty());
    assert_eq!(host.automations().expect("automations").len(), 0);
    assert!(host.traces().expect("traces").is_empty());
}

#[test]
fn bundles_are_registered_once_for_each_scope() {
    let bundle: LoadedBundle<()> =
        LoadedBundle::new(manifest("photos", &[]), &JsonValue::Null);
    let id = automation_id_for_bundle_scope("photos", "chat/7/root");
    assert_eq!(id, "photos/chat/7/root");

    let mut automations = OrderedMap::new();
    let Ok(BundleActivation::Register(request)) =
        bundle.required_activation(&automations, "chat/7/root")
    else {
        panic!("expected a registration");
    };
    assert_eq!(request.automation_id, id);
    assert_eq!(request.artifact_path, "guest.wasm");
    assert_eq!(
        request.config,
        object(vec![
            ("bundle_name", text("photos")),
            ("scope_key", text("chat/7/root")),
        ])
    );

    automations.insert(id.clone(), ManagedAutomation::new(id.clone()));
    assert_eq!(
        bundle.required_activation(&automations, "chat/7/root"),
        Err(AutomationsError::State(
            "automation `photos/chat/7/root` has no registered revisions".to_string()
        ))
    );
}

#[test]
fn the_newest_revision_of_a_bundle_goes_on() {
    let mut host = host(vec![manifest("photos", &[])]);
    let scope = "chat/7/root";
    let registration = RegistrationResponse {
        descriptor: mango::protocol::AutomationDescriptor::new(
            "photos".to_string(),
            String::new(),
            1,
            Vec::new(),
        ),
        initial_state: JsonValue::Null,
    };
    let activation = |host: &AutomationBundleHost<
        MemoryControlPlaneStore,
        (),
        ManualClock,
        &'static str,
    >| {
        host.bundles[0]
            .required_activation(&host.automations().expect("automations"), scope)
            .expect("activation")
    };
    for _ in 0..2 {
        let Ok(BundleActivation::Register(request)) =
            host.bundles[0].required_activation(&OrderedMap::new(), scope)
        else {
            panic!("expected a registration");
        };
        host.control_plane
            .register_revision(&request, &Vec::new(), &registration)
            .expect("registration");
    }
    assert_eq!(
        activation(&host),
        BundleActivation::Activate { revision_id: 2 }
    );
    host.control_plane
        .activate_revision(
            &automation_id_for_bundle_scope("photos", scope),
            2,
            mango::automations::domain::ActivationMode::PreserveState,
        )
        .expect("activation");
    assert_eq!(activation(&host), BundleActivation::Active);
}

#[test]
fn handled_automations_are_told_once() {
    let submission = |disposition| EventSubmission {
        disposition,
        observations: vec![EffectObservation::Notification {
            effect_id: "notify".to_string(),
            channel: String::new(),
            title: String::new(),
            body: "I think that is an expense".to_string(),
            metadata: JsonValue::Null,
        }],
    };
    let mut outcome = BundleDispatchOutcome::default();
    let id = |name: &str| name.to_string();
    outcome.submitted(&id("a"), submission(EventDisposition::Handled));
    outcome.submitted(&id("b"), submission(EventDisposition::Unhandled));
    outcome.submitted(&id("c"), submission(EventDisposition::Handled));
    outcome.submitted(&id("a"), submission(EventDisposition::Handled));
    assert_eq!(outcome.handled_automations, ["a", "c"]);
    assert_eq!(outcome.observations.len(), 4);
}

fn effect(kind: EffectKind) -> EffectRequest {
    EffectRequest::new("effect-1".to_string(), kind)
}

fn call_tool(slug: &str) -> EffectRequest {
    effect(EffectKind::CallTool {
        slug: slug.to_string(),
        input: text("input"),
    })
}

fn failed(message: &str) -> EffectHandlerOutcome {
    EffectHandlerOutcome {
        follow_up_events: vec![AutomationEvent::EffectCompleted {
            effect_id: "effect-1".to_string(),
            result: EffectResult::Failure(message.to_string()),
            at: 100,
        }],
        observations: Vec::new(),
    }
}

#[test]
fn effects_are_handled_by_the_bundle_of_their_automation() {
    let mut host = host(vec![manifest("first", &[]), manifest("second", &[])]);
    let id = "second/scope".to_string();
    let unbound = Err(AutomationsError::Provider(
        "no runtime bindings registered for automation `second/scope`".to_string(),
    ));
    assert_eq!(host.handle_effect(&id, &call_tool("lookup"), 100), unbound);
    let notification = effect(EffectKind::EmitNotification {
        channel: "chat".to_string(),
        title: "title".to_string(),
        body: "body".to_string(),
        metadata: text("metadata"),
    });
    let shown = Ok(EffectPlan::Done(EffectHandlerOutcome {
        follow_up_events: Vec::new(),
        observations: vec![EffectObservation::Notification {
            effect_id: "effect-1".to_string(),
            channel: "chat".to_string(),
            title: "title".to_string(),
            body: "body".to_string(),
            metadata: text("metadata"),
        }],
    }));
    assert_eq!(host.handle_effect(&id, &notification, 100), shown);

    host.bind(&id, 1);
    assert_eq!(host.resolve(&id).expect("bundle").manifest.name, "second");
    assert_eq!(host.handle_effect(&id, &notification, 100), shown);
    let Ok(EffectPlan::Invoke {
        provider,
        invocation,
    }) = host.handle_effect(&id, &call_tool("lookup"), 100)
    else {
        panic!("expected an invocation");
    };
    let CapabilityProvider::Command(provider) = provider else {
        panic!("expected a command");
    };
    assert_eq!(provider.program, "bin/lookup");
    assert_eq!(provider.args, ["--json"]);
    assert_eq!(
        invocation,
        ProviderInvocation {
            slug: "lookup".to_string(),
            config: object(vec![("host", text("host"))]),
            input: text("input"),
        }
    );
    let Ok(EffectPlan::Invoke { invocation, .. }) = host.handle_effect(
        &id,
        &effect(EffectKind::RunInference {
            capability: "summary".to_string(),
            input: text("input"),
        }),
        100,
    ) else {
        panic!("expected an invocation");
    };
    assert_eq!(
        invocation.config,
        object(vec![("binding", text("model")), ("host", text("host"))])
    );
    assert_eq!(
        host.handle_effect(&id, &call_tool("summary"), 100),
        Ok(EffectPlan::Done(failed(
            "provider invocation failed: no provider registered for slug `summary`"
        )))
    );
    assert_eq!(
        host.handle_effect(
            &id,
            &effect(EffectKind::FetchHttp { url: String::new() }),
            100
        ),
        Ok(EffectPlan::Unsupported)
    );
    assert_eq!(
        unsupported_effect("Rendered"),
        AutomationsError::Provider(
            "automation bundle host does not implement effect Rendered".to_string()
        )
    );
}

#[test]
fn guests_hear_of_what_providers_answer() {
    let id = "effect-1".to_string();
    assert_eq!(
        complete_effect(&id, Err(AutomationsError::Provider("x".to_string())), 100),
        failed("provider invocation failed: x")
    );
    let outcome = complete_effect(&id, Ok(text("output")), 7);
    assert_eq!(
        outcome.follow_up_events,
        vec![AutomationEvent::EffectCompleted {
            effect_id: id,
            result: EffectResult::Success(text("output")),
            at: 7,
        }]
    );
}

#[test]
fn configurations_carry_the_host_context() {
    let context = object(vec![("state_root", text("/state"))]);
    assert_eq!(
        config_with_host_context(&JsonValue::Null, &context),
        object(vec![("host", context.clone())])
    );
    assert_eq!(
        config_with_host_context(&JsonValue::Bool(true), &context),
        object(vec![
            ("binding", JsonValue::Bool(true)),
            ("host", context.clone()),
        ])
    );
    assert_eq!(
        config_with_host_context(
            &object(vec![("a", JsonValue::Null), ("z", JsonValue::Null)]),
            &context
        ),
        object(vec![
            ("a", JsonValue::Null),
            ("host", context.clone()),
            ("z", JsonValue::Null),
        ])
    );
    assert_eq!(
        config_with_host_context(&object(vec![("host", text("old"))]), &context),
        object(vec![("host", context.clone())])
    );
}

#[test]
fn manifests_are_resolved_against_their_directory() {
    let resolved = manifest("photos", &["tick"]).resolved_against("/bundles/photos");
    assert_eq!(resolved.artifact, "/bundles/photos/guest.wasm");
    let program = |binding: &CapabilityBinding| match &binding.transport {
        CapabilityTransport::Command { program, .. } => program.clone(),
    };
    assert_eq!(program(&resolved.tools[0]), "/bundles/photos/bin/lookup");
    assert_eq!(program(&resolved.inference[0]), "/opt/summary");
    assert_eq!(resolved.trigger_subscriptions, ["tick"]);
    assert_eq!(resolved.resolved_against("/elsewhere"), resolved);

    assert!(is_absolute("/a"));
    assert!(!is_absolute("a/"));
    assert!(!is_absolute(""));
    assert_eq!(join_path("", "a"), "a");
    assert_eq!(join_path("a/", "b"), "a/b");
    assert_eq!(join_path("a", "b/c"), "a/b/c");
    assert_eq!(join_path("/other", &join_path("/base", "b")), "/base/b");
}

fn cargo(package: &str, release: bool, features: &[&str]) -> BundleBuildStep {
    BundleBuildStep::Cargo {
        package: package.to_string(),
        lib: false,
        bin: None,
        target: None,
        release,
        features: features.iter().map(|name| name.to_string()).collect(),
    }
}

#[test]
fn build_steps_are_cargo_commands() {
    assert_eq!(cargo("guest", false, &[]).command_args(), ["build", "--package", "guest"]);
    let step = BundleBuildStep::Cargo {
        package: "guest".to_string(),
        lib: true,
        bin: Some("tool".to_string()),
        target: Some("wasm32-unknown-unknown".to_string()),
        release: true,
        features: vec!["a".to_string(), "b".to_string()],
    };
    assert_eq!(
        step.command_args(),
        [
            "build",
            "--package",
            "guest",
            "--lib",
            "--bin",
            "tool",
            "--target",
            "wasm32-unknown-unknown",
            "--release",
            "--features",
            "a,b",
        ]
    );
    assert_eq!(
        cargo("guest", false, &[]).command_key(),
        "build\u{0}--package\u{0}guest"
    );
    assert_eq!(
        build_step_failure(&cargo("guest", true, &[]), "exit status: 101"),
        AutomationsError::Provider(
            "cargo build --package guest --release exited with status exit status: 101".to_string()
        )
    );
}

#[test]
fn each_build_command_runs_once() {
    let steps = vec![
        cargo("a", false, &[]),
        cargo("b", false, &[]),
        cargo("a", false, &[]),
        cargo("a", true, &[]),
        cargo("b", false, &[]),
    ];
    let plan = vec![
        cargo("a", false, &[]),
        cargo("b", false, &[]),
        cargo("a", true, &[]),
    ];
    assert_eq!(ensure_bundle_build_steps(&steps), plan);
    let bundle = AutomationBundleManifest {
        build_steps: steps,
        ..manifest("built", &[])
    };
    assert_eq!(bundle.ensure_artifacts_built(), plan);
}

#[test]
fn later_bindings_replace_earlier_ones() {
    let mut registry: CapabilityRegistry<&str> = CapabilityRegistry::new();
    registry.register_bindings(&vec![
        binding("tool", text("first"), "one"),
        binding("tool", text("second"), "two"),
    ]);
    let (provider, invocation) = registry
        .invoke(&"tool".to_string(), JsonValue::Null)
        .expect("provider");
    let CapabilityProvider::Command(provider) = provider else {
        panic!("expected a command");
    };
    assert_eq!(provider.program, "two");
    assert_eq!(invocation.config, text("second"));
    assert_eq!(
        registry.invoke(&"other".to_string(), JsonValue::Null),
        Err(AutomationsError::Provider(
            "no provider registered for slug `other`".to_string()
        ))
    );
}

#[test]
fn programs_bring_their_own_providers() {
    let mut registry: CapabilityRegistry<&str> = CapabilityRegistry::new();
    registry.register_binding(&binding("tool", text("first"), "one"));
    registry.register_binding(&binding("kept", text("kept"), "kept"));
    registry.register("tool".to_string(), text("second"), "in process");
    let (provider, invocation) = registry
        .invoke(&"tool".to_string(), text("input"))
        .expect("provider");
    assert_eq!(*provider, CapabilityProvider::Other("in process"));
    assert_eq!(
        invocation,
        ProviderInvocation {
            slug: "tool".to_string(),
            config: text("second"),
            input: text("input"),
        }
    );
    let (provider, invocation) = registry
        .invoke(&"kept".to_string(), JsonValue::Null)
        .expect("provider");
    assert!(matches!(provider, CapabilityProvider::Command(command) if command.program == "kept"));
    assert_eq!(invocation.config, text("kept"));
}

#[test]
fn bundles_are_started_once() {
    let mut host = host(vec![manifest("photos", &[]), manifest("texts", &[])]);
    let scope = "chat/7/root";
    let Ok(BundleStart::Register(request)) = host.ensure_bundle_active(1, scope) else {
        panic!("expected a registration");
    };
    assert_eq!(request.automation_id, "texts/chat/7/root");
    let registration = RegistrationResponse {
        descriptor: mango::protocol::AutomationDescriptor::new(
            "texts".to_string(),
            String::new(),
            1,
            Vec::new(),
        ),
        initial_state: text("fresh"),
    };
    let drive = host
        .register_bundle(&request, &Vec::new(), &registration)
        .expect("start");
    assert_eq!(drive.automation_id, "texts/chat/7/root");
    assert_eq!(drive.pending, [AutomationEvent::Activated { at: 100 }]);

    let before = host.traces().expect("traces");
    assert_eq!(before.len(), 2);
    assert!(matches!(
        host.ensure_bundle_active(1, scope),
        Ok(BundleStart::Active)
    ));
    assert_eq!(host.traces().expect("traces"), before);
    assert_eq!(
        host.resolve(&request.automation_id).expect("bundle").manifest.name,
        "texts"
    );

    host.control_plane
        .deactivate_automation(&request.automation_id)
        .expect("deactivation");
    assert!(matches!(
        host.ensure_bundle_active(1, scope),
        Ok(BundleStart::Started(_))
    ));
    assert!(matches!(
        host.ensure_bundle_active(1, scope),
        Ok(BundleStart::Active)
    ));
    assert!(matches!(
        host.ensure_bundle_active(0, scope),
        Ok(BundleStart::Register(_))
    ));
}

#[test]
fn bundles_without_a_slash_share_no_automation() {
    assert_ne!(
        automation_id_for_bundle_scope("photos", "chat/7"),
        automation_id_for_bundle_scope("texts", "chat/7")
    );
    assert_eq!(
        automation_id_for_bundle_scope("photos/chat", "7"),
        automation_id_for_bundle_scope("photos", "chat/7")
    );
}

fn provider() -> CommandJsonCapabilityProvider {
    CommandJsonCapabilityProvider {
        program: "provider.sh".to_string(),
        args: Vec::new(),
        env: OrderedMap::new(),
    }
}

fn output(success: bool, stderr: &[u8]) -> CommandOutput {
    CommandOutput {
        success,
        status: "exit status: 3".to_string(),
        stdout: Vec::new(),
        stderr: stderr.to_vec(),
    }
}

#[test]
fn failing_providers_say_why() {
    assert_eq!(provider().check_status(&output(true, b"noise")), Ok(()));
    assert_eq!(
        provider().check_status(&output(false, b"bad \xff byte")),
        Err(AutomationsError::Provider(
            "provider.sh exited with status exit status: 3: bad \u{fffd} byte".to_string()
        ))
    );
    assert_eq!(
        provider().decode_failure("expected value", "<empty>", "oops"),
        AutomationsError::Provider(
            "failed to decode provider response from provider.sh: expected value; \
             stdout=`<empty>` stderr=`oops`"
                .to_string()
        )
    );
    assert_eq!(
        ProviderInvocationResult::Success {
            output: text("pong"),
        }
        .into_output(),
        Ok(text("pong"))
    );
    assert_eq!(
        ProviderInvocationResult::Failure {
            message: "no".to_string(),
        }
        .into_output(),
        Err(AutomationsError::Provider("no".to_string()))
    );
}

#[test]
fn answers_come_from_commands_that_ended_well() {
    let said = || ProviderInvocationResult::Success {
        output: text("pong"),
    };
    assert_eq!(
        provider().answer(&output(true, b""), Ok(said())),
        Some(Ok(text("pong")))
    );
    assert_eq!(
        provider().answer(&output(false, b"down"), Ok(said())),
        Some(Err(AutomationsError::Provider(
            "provider.sh exited with status exit status: 3: down".to_string()
        )))
    );
    assert_eq!(
        provider().answer(&output(true, b"a\nb"), Err("expected value".to_string())),
        Some(Err(AutomationsError::Provider(
            "failed to decode provider response from provider.sh: expected value; \
             stdout=`<empty>` stderr=`a\\nb`"
                .to_string()
        )))
    );
    let mut cut = vec![b'x'; 239];
    cut.extend("é".as_bytes());
    assert_eq!(
        provider().answer(&output(true, &cut), Err("expected value".to_string())),
        None
    );
    assert_eq!(
        provider().answer(&output(true, &cut), Ok(said())),
        Some(Ok(text("pong")))
    );
}

#[test]
fn snippets_are_short_and_on_one_line() {
    let snippet = |bytes: &[u8]| render_output_snippet(&bytes.to_vec());
    assert_eq!(snippet(b""), Some("<empty>".to_string()));
    assert_eq!(snippet(b"a\nb\n"), Some("a\\nb\\n".to_string()));
    assert_eq!(snippet(b"\xffx"), Some("\u{fffd}x".to_string()));
    let long = vec![b'x'; 240];
    assert_eq!(snippet(&long), Some("x".repeat(240)));
    assert_eq!(snippet(&vec![b'x'; 241]), Some("x".repeat(240) + "..."));
    let mut cut = vec![b'x'; 239];
    cut.extend("é".as_bytes());
    assert_eq!(snippet(&cut), None);
}

#[test]
fn members_of_objects_are_replaced_wherever_they_stand() {
    let config = object(vec![
        ("z", text("last")),
        ("host", text("old")),
        ("a", text("first")),
    ]);
    let hosted = config_with_host_context(&config, &text("new"));
    assert_eq!(
        hosted,
        object(vec![
            ("a", text("first")),
            ("host", text("new")),
            ("z", text("last")),
        ])
    );
    let JsonValue::Object(members) = &hosted else {
        panic!("expected an object");
    };
    let names: Vec<&String> = (0..members.len()).map(|index| members.name_at(index)).collect();
    assert_eq!(names, ["a", "host", "z"]);
    assert_eq!(members.get(&"host".to_string()), Some(&text("new")));
    assert_eq!(members.value_at(2), &text("last"));
    assert_eq!(members.get(&"other".to_string()), None);
    assert_eq!(hosted, hosted.clone());
    assert_eq!(config_with_host_context(&hosted, &text("new")), hosted);
}
