use mango::guest_sdk::{
    advance, advance_response, effect, error_advance_payload, error_registration_payload,
    registration_response, Automation, Decision, GuestContext, GuestSdkError,
};
use mango::json::JsonValue;
use mango::protocol::{
    AdvanceRequest, AutomationDescriptor, AutomationEvent, Capability, EffectKind,
    EventDisposition, AUTOMATION_ABI_VERSION, AUTOMATION_SDK_VERSION,
};

struct Counter;

impl Automation for Counter {
    type State = u64;

    fn descriptor(&self) -> AutomationDescriptor {
        AutomationDescriptor::new(
            "counter".to_string(),
            "counts events".to_string(),
            3,
            vec![Capability::ScheduleWakeups],
        )
    }

    fn initial_state(&self) -> u64 {
        0
    }

    fn reduce(
        &self,
        state: u64,
        event: AutomationEvent,
        ctx: GuestContext,
    ) -> Result<Decision<u64>, String> {
        match event {
            AutomationEvent::Activated { at } => {
                assert_eq!(at, ctx.now);
                assert_eq!(ctx.automation_id, "counter");
                assert_eq!(ctx.revision_id, 4);
                assert_eq!(ctx.config, JsonValue::Bool(true));
                Ok(Decision::new(state + 1)
                    .with_effect(effect(
                        "wake".to_string(),
                        EffectKind::ScheduleWakeup {
                            wakeup_id: "tick".to_string(),
                            at: ctx.now + 1,
                        },
                    ))
                    .with_status("counting".to_string()))
            }
            _ => Err("unexpected event".to_string()),
        }
    }
}

fn request(event: AutomationEvent) -> AdvanceRequest {
    AdvanceRequest {
        automation_id: "counter".to_string(),
        revision_id: 4,
        now: 100,
        config: JsonValue::Bool(true),
        state: JsonValue::Number("6".to_string()),
        event,
    }
}

#[test]
fn automations_reduce_events() {
    let decision =
        advance(&Counter, 6, request(AutomationEvent::Activated { at: 100 })).expect("decision");
    assert_eq!(decision.state, 7);
    let response = advance_response(decision, JsonValue::Number("7".to_string()));
    assert_eq!(response.state, JsonValue::Number("7".to_string()));
    assert_eq!(response.effects.len(), 1);
    assert_eq!(response.effects[0].effect_id, "wake");
    assert_eq!(response.status.as_deref(), Some("counting"));
    assert_eq!(response.disposition, EventDisposition::Handled);

    let error = advance(
        &Counter,
        0,
        request(AutomationEvent::WakeupFired {
            wakeup_id: "tick".to_string(),
            at: 100,
        }),
    )
    .expect_err("the event is rejected");
    assert_eq!(
        error.message(),
        "automation returned an error: unexpected event"
    );
}

#[test]
fn decisions_are_handled_unless_they_say_otherwise() {
    let decision = Decision::new(());
    assert_eq!(decision.disposition, EventDisposition::Handled);
    assert!(decision.effects.is_empty());
    assert_eq!(decision.status, None);
    let decision = decision.unhandled();
    assert_eq!(decision.disposition, EventDisposition::Unhandled);
    assert_eq!(decision.handled().disposition, EventDisposition::Handled);
    assert_eq!(EventDisposition::default(), EventDisposition::Handled);
}

#[test]
fn registrations_hold_descriptor_and_state() {
    let response = registration_response(
        Counter.descriptor(),
        JsonValue::Number(Counter.initial_state().to_string()),
    );
    assert_eq!(response.descriptor.sdk_version, AUTOMATION_SDK_VERSION);
    assert_eq!(response.descriptor.automation_name, "counter");
    assert_eq!(response.descriptor.description, "counts events");
    assert_eq!(response.descriptor.state_schema_version, 3);
    assert_eq!(response.initial_state, JsonValue::Number("0".to_string()));
    assert_eq!(AUTOMATION_ABI_VERSION, 1);
    assert_eq!(AUTOMATION_SDK_VERSION, 1);
}

#[test]
fn errors_cross_the_boundary_as_envelopes() {
    assert_eq!(
        error_registration_payload("no \"state\""),
        r#"{"Err":"no \"state\""}"#
    );
    assert_eq!(error_advance_payload("a\nb"), r#"{"Err":"a\nb"}"#);
    let parsed: serde_json::Value =
        serde_json::from_str(&error_advance_payload("a\n\u{7}b")).expect("JSON");
    assert_eq!(parsed["Err"].as_str(), Some("a\n\u{7}b"));
}

#[test]
fn guest_errors_have_messages() {
    let reason = || "x".to_string();
    for (error, message) in [
        (
            GuestSdkError::RegistrationEncode(reason()),
            "failed to serialize registration response: x",
        ),
        (
            GuestSdkError::AdvanceEncode(reason()),
            "failed to serialize advance response: x",
        ),
        (
            GuestSdkError::AdvanceDecode(reason()),
            "failed to decode advance request: x",
        ),
        (
            GuestSdkError::StateEncode(reason()),
            "failed to encode state as JSON: x",
        ),
        (
            GuestSdkError::StateDecode(reason()),
            "failed to decode state from JSON: x",
        ),
    ] {
        assert_eq!(error.message(), message);
    }
}
