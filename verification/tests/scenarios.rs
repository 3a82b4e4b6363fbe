use mango::agent::execution::{ExecutionEvent, InferenceEvent};
use mango::agent::schema::AgentSchema;
use mango::agent::substrate::{EventPayload, EventVisibility, StreamKey};
use mango::runtime_support::ids::{DefaultAgentIds, EngineId, ToolName, WorkerId};
use mango::runtime_support::workers::fresh_event;
use mango::scenarios::automations;
use mango::scenarios::automations::DEFAULT_RECENT_TRACE_LIMIT;
use mango::scenarios::bus::{
    can_compress, compress_summary, default_event_summary, ensure_workers_healthy, events_since,
    expect_absent, expect_immediate, squeeze, take_finished, worker_issue, ScenarioFailure,
    ScenarioIssue, TrackedTask, WorkerOutcome, DEFAULT_RECENT_EVENT_LIMIT,
};
use mango::scenarios::report::{
    any_matches, expect_eventually, recent_limit, recent_summaries, Expectation, StepKind,
};

#[derive(Debug, Clone)]
struct TestSchema;

impl AgentSchema for TestSchema {
    type Ids = DefaultAgentIds;
    type Surface = ();
    type InputKind = ();
    type Input = ();
    type InterruptDetail = ();
    type Directive = ();
    type Output = String;
    type ToolData = ();
    type Status = ();
    type CancellationDetail = ();
    type CompletionDetail = ();
    type EngineId = EngineId;
    type ToolName = ToolName;
}

fn texts(items: &[&str]) -> Vec<String> {
    items.iter().map(|item| item.to_string()).collect()
}

#[test]
fn events_are_summed_up_by_stream_visibility_and_domain() {
    let output = || {
        EventPayload::Execution(ExecutionEvent::Inference(InferenceEvent::Output {
            run_id: TestSchema::next_inference_run_id(),
            sequence: 0,
            output: "hello".to_string(),
        }))
    };
    let event = fresh_event::<TestSchema>(StreamKey::Global, EventVisibility::Both, output());
    let summary = default_event_summary(&event);
    assert_eq!(summary, "stream=global visibility=Both domain=execution");
    assert_eq!(compress_summary(&summary), summary);
    let event = fresh_event::<TestSchema>(
        StreamKey::Worker(WorkerId::from("publisher")),
        EventVisibility::UserVisible,
        output(),
    );
    assert_eq!(
        default_event_summary(&event),
        "stream=worker visibility=UserVisible domain=execution"
    );
}

#[test]
fn summaries_are_compressed() {
    assert_eq!(squeeze("  a\n\tb \u{3000}c  "), "a b c");
    assert_eq!(squeeze(" \n"), "");
    assert_eq!(squeeze(&squeeze("  a\n\tb ")), "a b");
    let limit = "x".repeat(160);
    assert_eq!(compress_summary(&limit), limit);
    let long = "x".repeat(161);
    assert_eq!(compress_summary(&long), "x".repeat(159) + "…");
    assert!(can_compress(&long));
    assert!(!can_compress(&("x".repeat(158) + "éxx")));
    assert!(can_compress(&("x".repeat(157) + "éxx")));
}

#[test]
fn reports_name_the_failed_step() {
    let failure = ScenarioFailure {
        scenario: "worker emits output".to_string(),
        phase: StepKind::Then,
        step: "an output event appears".to_string(),
        issue: ScenarioIssue::ExpectationNotMet {
            expectation: "an inference output".to_string(),
            recent_events: texts(&["first", "second"]),
        },
    };
    assert_eq!(
        failure.message(),
        "Scenario `worker emits output` failed at Then an output event appears\n\
         expectation not met: an inference output\n\
         recent events:\n1. first\n2. second\n"
    );
    for (issue, message) in [
        (
            ScenarioIssue::PublishFailed {
                message: "closed".to_string(),
                recent_events: Vec::new(),
            },
            "publish failed: closed\nrecent events: <none>",
        ),
        (
            worker_issue("w".to_string(), WorkerOutcome::Exited, Vec::new()),
            "worker `w` exited unexpectedly\nrecent events: <none>",
        ),
        (
            worker_issue(
                "w".to_string(),
                WorkerOutcome::Failed("bad".to_string()),
                Vec::new(),
            ),
            "worker `w` returned an error: bad\nrecent events: <none>",
        ),
        (
            worker_issue(
                "w".to_string(),
                WorkerOutcome::Panicked("bad".to_string()),
                texts(&["only"]),
            ),
            "worker `w` panicked: bad\nrecent events:\n1. only\n",
        ),
    ] {
        assert_eq!(issue.message(), message);
    }
    assert_eq!(DEFAULT_RECENT_EVENT_LIMIT, 6);
}

#[test]
fn reports_on_automations_list_traces() {
    let failure = automations::ScenarioFailure {
        scenario: "loop".to_string(),
        phase: StepKind::When,
        step: "time advances".to_string(),
        issue: automations::ScenarioIssue::ActionFailed("no".to_string()),
    };
    assert_eq!(
        failure.message(),
        "Scenario `loop` failed at When time advances\naction failed: no"
    );
    assert_eq!(
        automations::ScenarioIssue::WorldFailed("no".to_string()).message(),
        "world failed: no"
    );
    assert_eq!(
        automations::ScenarioIssue::ExpectationNotMet {
            expectation: "x".to_string(),
            recent_traces: (1..=10).map(|i| format!("trace {i}")).collect(),
        }
        .message()
        .lines()
        .last(),
        Some("10. trace 10")
    );
    assert_eq!(StepKind::Given.name(), "Given");
    assert_eq!(DEFAULT_RECENT_TRACE_LIMIT, 8);
}

#[test]
fn the_last_items_are_shown() {
    let items = vec![1, 2, 3, 4];
    let show = |item: &i32| format!("<{item}>");
    assert_eq!(recent_summaries(&items, 2, show), ["<3>", "<4>"]);
    assert_eq!(recent_summaries(&items, 9, show).len(), 4);
    assert!(recent_summaries(&items, 0, show).is_empty());
    assert_eq!(recent_limit(0), 1);
    assert_eq!(recent_limit(12), 12);
    assert_eq!(events_since(&items, 1), [2, 3, 4]);
    assert!(events_since(&items, 4).is_empty());
    assert!(events_since(&items, 9).is_empty());
}

#[test]
fn expectations_wait_for_their_event() {
    let items = vec![1, 2, 3];
    assert!(any_matches(&items, |item: &i32| *item == 3));
    assert!(!any_matches(&items, |item: &i32| *item > 3));
    assert!(matches!(expect_eventually(true, 60, 50), Expectation::Met));
    assert!(matches!(expect_eventually(false, 49, 50), Expectation::Wait));
    assert!(matches!(expect_eventually(false, 50, 50), Expectation::NotMet));

    let expectation = || "x".to_string();
    assert_eq!(expect_immediate(true, expectation(), Vec::new()), Ok(()));
    assert_eq!(expect_absent(false, expectation(), Vec::new()), Ok(()));
    let missed = Err(ScenarioIssue::ExpectationNotMet {
        expectation: expectation(),
        recent_events: texts(&["event"]),
    });
    assert_eq!(
        expect_immediate(false, expectation(), texts(&["event"])),
        missed
    );
    assert_eq!(expect_absent(true, expectation(), texts(&["event"])), missed);
}

#[test]
fn the_first_worker_that_ends_is_reported() {
    let mut tasks = vec![
        TrackedTask::new("running".to_string(), 1),
        TrackedTask::new("ended".to_string(), 2),
        TrackedTask::new("ended too".to_string(), 3),
    ];
    assert!(take_finished(&mut tasks).is_none());
    tasks[1].finished = true;
    tasks[2].finished = true;
    let task = take_finished(&mut tasks).expect("a worker ended");
    assert_eq!((task.label.as_str(), task.handle), ("ended", 2));
    assert_eq!(tasks.len(), 2);
    assert_eq!(ensure_workers_healthy(None, Vec::new()), Ok(()));
    assert_eq!(
        ensure_workers_healthy(Some((task.label, WorkerOutcome::Exited)), Vec::new()),
        Err(ScenarioIssue::WorkerExited {
            label: "ended".to_string(),
            recent_events: Vec::new(),
        })
    );
}
