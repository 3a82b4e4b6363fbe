use mango::agent::runtime::Worker;
use mango::agent::schema::{AgentIds, AgentSchema};
use mango::agent::substrate::{
    ErrorDescriptor, ErrorEvent, EventPayload, EventVisibility, Filter, StreamKey, Subscription,
};
use mango::inmemory_bus::{matches_subscription, receive, ChannelItem, InMemoryEventBusError};
use mango::runtime_support::ids::{
    fresh_label_id, fresh_uuid_id, DefaultAgentIds, EngineId, EventTag, LabelId, ToolCallTag,
    ToolName, UuidId, WorkerId,
};
use mango::runtime_support::workers::{
    fresh_event, matches_filter, merge_filter, ConcurrentBusWorkers,
};

#[derive(Debug, Clone)]
struct TestSchema;

impl AgentSchema for TestSchema {
    type Ids = DefaultAgentIds;
    type Surface = ();
    type InputKind = ();
    type Input = ();
    type InterruptDetail = ();
    type Directive = ();
    type Output = ();
    type ToolData = ();
    type Status = ();
    type CancellationDetail = ();
    type CompletionDetail = ();
    type EngineId = EngineId;
    type ToolName = ToolName;
}

#[derive(Clone)]
struct TestWorker {
    worker_id: &'static str,
    subscription: Subscription<TestSchema>,
}

impl Worker for TestWorker {
    type WorkerId = &'static str;
    type Subscription = Subscription<TestSchema>;

    fn worker_id(&self) -> Self::WorkerId {
        self.worker_id
    }

    fn subscription(&self) -> Self::Subscription {
        self.subscription.clone()
    }
}

#[test]
fn concurrent_workers_merge_stream_filters() {
    let left = TestWorker {
        worker_id: "left",
        subscription: Subscription::for_stream(StreamKey::Session(
            <TestSchema as AgentSchema>::next_session_id(),
        )),
    };
    let right = TestWorker {
        worker_id: "right",
        subscription: Subscription::for_stream(StreamKey::Thread(
            <TestSchema as AgentSchema>::next_thread_id(),
        )),
    };
    let composite = ConcurrentBusWorkers::new("presentation", left, right);

    let Filter::Only(streams) = composite.subscription().streams else {
        panic!("expected merged stream filter");
    };

    assert_eq!(streams.len(), 2);
    assert!(
        streams
            .iter()
            .any(|stream| matches!(stream, StreamKey::Session(_)))
    );
    assert!(
        streams
            .iter()
            .any(|stream| matches!(stream, StreamKey::Thread(_)))
    );
    assert_eq!(composite.subscription().visibility, Filter::Any);
}

#[test]
fn concurrent_workers_keep_any_filter_when_either_side_is_broad() {
    let left = TestWorker {
        worker_id: "left",
        subscription: Subscription::all(),
    };
    let right = TestWorker {
        worker_id: "right",
        subscription: Subscription::for_stream(StreamKey::Thread(
            <TestSchema as AgentSchema>::next_thread_id(),
        )),
    };
    let composite = ConcurrentBusWorkers::new("presentation", left, right);

    assert_eq!(composite.subscription(), Subscription::all());
}

#[test]
fn concurrent_workers_keep_their_name_and_sides() {
    let left = TestWorker {
        worker_id: "left",
        subscription: Subscription::all(),
    };
    let right = TestWorker {
        worker_id: "right",
        subscription: Subscription::all(),
    };
    let composite = ConcurrentBusWorkers::new("presentation", left, right);

    assert_eq!(composite.worker_id(), "presentation");
    assert_eq!(composite.left().worker_id(), "left");
    assert_eq!(composite.right().worker_id(), "right");
}

#[test]
fn matches_any_subscription() {
    let subscription: Subscription<TestSchema> = Subscription {
        streams: Filter::Any,
        visibility: Filter::Any,
    };

    assert!(matches_subscription::<TestSchema>(
        &subscription,
        &StreamKey::Global,
        EventVisibility::Internal,
    ));
}

#[test]
fn filters_by_stream_key() {
    let subscription: Subscription<TestSchema> = Subscription {
        streams: Filter::Only(vec![StreamKey::Global]),
        visibility: Filter::Any,
    };

    assert!(matches_subscription::<TestSchema>(
        &subscription,
        &StreamKey::Global,
        EventVisibility::Internal,
    ));
    assert!(!matches_subscription::<TestSchema>(
        &subscription,
        &StreamKey::Worker(WorkerId::from("maintenance")),
        EventVisibility::Internal,
    ));
}

#[test]
fn filters_by_visibility() {
    let subscription: Subscription<TestSchema> = Subscription {
        streams: Filter::Any,
        visibility: Filter::Only(vec![EventVisibility::UserVisible]),
    };

    assert!(matches_subscription::<TestSchema>(
        &subscription,
        &StreamKey::Global,
        EventVisibility::UserVisible,
    ));
    assert!(!matches_subscription::<TestSchema>(
        &subscription,
        &StreamKey::Global,
        EventVisibility::Internal,
    ));
}

#[test]
fn merged_filters_list_each_value_once() {
    let merged = merge_filter(
        Filter::only(vec![1_u32, 2]),
        Filter::only(vec![2_u32, 3, 3, 1]),
    );
    assert_eq!(merged, Filter::Only(vec![1, 2, 3]));
    for value in 0..5_u32 {
        assert_eq!(matches_filter(&merged, &value), (1..=3).contains(&value));
    }
    assert_eq!(
        merge_filter(Filter::any(), Filter::only(vec![1_u32])),
        Filter::Any
    );
    assert_eq!(
        merge_filter(Filter::<u32>::only(vec![]), Filter::only(vec![])),
        Filter::Only(vec![])
    );
}

#[test]
fn merged_filters_admit_what_either_side_admits() {
    let sides = || {
        [
            Filter::any(),
            Filter::only(vec![]),
            Filter::only(vec![1_u32, 2]),
            Filter::only(vec![3, 2, 3]),
        ]
    };
    for left in sides() {
        for right in sides() {
            let merged = merge_filter(left.clone(), right.clone());
            for value in 0..5_u32 {
                assert_eq!(
                    matches_filter(&merged, &value),
                    matches_filter(&left, &value) || matches_filter(&right, &value)
                );
            }
            assert_eq!(
                merged == Filter::Any,
                left == Filter::Any || right == Filter::Any
            );
        }
    }
    assert_ne!(Filter::<u32>::only(vec![]), Filter::any());
    assert!(!matches_filter(&Filter::<u32>::only(vec![]), &0));
}

#[test]
fn stream_subscriptions_cover_their_stream_alone() {
    let session = StreamKey::Session(<TestSchema as AgentSchema>::next_session_id());
    let subscription: Subscription<TestSchema> = Subscription::for_stream(session.clone());
    for visibility in [
        EventVisibility::Internal,
        EventVisibility::UserVisible,
        EventVisibility::Both,
    ] {
        assert!(matches_subscription::<TestSchema>(
            &subscription,
            &session,
            visibility,
        ));
        for other in [
            StreamKey::Global,
            StreamKey::Session(<TestSchema as AgentSchema>::next_session_id()),
            StreamKey::Worker(WorkerId::from("worker")),
        ] {
            assert!(!matches_subscription::<TestSchema>(
                &subscription,
                &other,
                visibility,
            ));
        }
    }
}

#[test]
fn stream_keys_compare_by_kind_and_identifier() {
    let session = <TestSchema as AgentSchema>::next_session_id();
    let key: StreamKey<TestSchema> = StreamKey::Session(session);
    assert_eq!(key, key.clone());
    assert_ne!(key, StreamKey::Global);
    assert_ne!(
        key,
        StreamKey::Session(<TestSchema as AgentSchema>::next_session_id())
    );
    assert_eq!(
        StreamKey::<TestSchema>::Worker(WorkerId::from("a")),
        StreamKey::Worker(WorkerId::from(String::from("a")))
    );
}

#[test]
fn error_events_compare_by_their_parts() {
    let error = ErrorDescriptor {
        code: "code".to_string(),
        message: "message".to_string(),
        retryable: true,
    };
    let event: ErrorEvent<TestSchema> = ErrorEvent {
        worker_id: WorkerId::from("worker"),
        stream: StreamKey::Global,
        error: error.clone(),
    };
    assert_eq!(event, event.clone());
    let other = ErrorEvent {
        error: ErrorDescriptor {
            retryable: false,
            ..error
        },
        ..event.clone()
    };
    assert_ne!(event, other);
}

#[test]
fn subscribers_skip_what_they_did_not_ask_for() {
    let subscription: Subscription<TestSchema> = Subscription {
        streams: Filter::Only(vec![StreamKey::Global]),
        visibility: Filter::Any,
    };
    let error = || {
        EventPayload::Error(ErrorEvent {
            worker_id: WorkerId::from("worker"),
            stream: StreamKey::Global,
            error: ErrorDescriptor {
                code: String::new(),
                message: String::new(),
                retryable: false,
            },
        })
    };
    let wanted = fresh_event::<TestSchema>(StreamKey::Global, EventVisibility::Both, error());
    let id = wanted.id;
    let told = receive(&subscription, ChannelItem::Event(wanted));
    let Some(Ok(Some(event))) = told else {
        panic!("expected the event");
    };
    assert_eq!(event.id, id);
    assert_eq!(event.visibility, EventVisibility::Both);

    let unwanted = fresh_event::<TestSchema>(
        StreamKey::Worker(WorkerId::from("worker")),
        EventVisibility::Both,
        error(),
    );
    assert!(receive(&subscription, ChannelItem::Event(unwanted)).is_none());
    assert!(matches!(
        receive(&subscription, ChannelItem::Lagged(7)),
        Some(Err(InMemoryEventBusError::Lagged(7)))
    ));
    assert!(matches!(
        receive(&subscription, ChannelItem::Ended),
        Some(Ok(None))
    ));
}

#[test]
fn uuid_identifiers_are_written_in_groups() {
    let id: UuidId<EventTag> = UuidId::new(0x0123_4567_89ab_cdef_0123_4567_89ab_cdef);
    assert_eq!(id.text(), "01234567-89ab-cdef-0123-456789abcdef");
    assert_eq!(*id.as_uuid(), 0x0123_4567_89ab_cdef_0123_4567_89ab_cdef);
    assert_eq!(id.into_uuid(), 0x0123_4567_89ab_cdef_0123_4567_89ab_cdef);
    assert_eq!(UuidId::<EventTag>::from(5), UuidId::new(5));
}

#[test]
fn fresh_identifiers_are_random_uuids() {
    for _ in 0..64 {
        let id: UuidId<EventTag> = fresh_uuid_id();
        assert_eq!((id.value >> 76) & 0xf, 4);
        assert_eq!((id.value >> 62) & 0x3, 2);
    }
    let first = DefaultAgentIds::next_event_id();
    let second = DefaultAgentIds::next_event_id();
    assert_ne!(first, second);

    let label: LabelId<ToolCallTag> = fresh_label_id();
    assert_eq!(label.as_str().len(), 36);
    assert_eq!(label.as_str().as_bytes()[14], b'4');
}

#[test]
fn labels_are_borrowed_or_owned() {
    let borrowed = WorkerId::from("worker");
    let owned = WorkerId::from("worker".to_string());
    assert_eq!(borrowed, owned);
    assert_eq!(borrowed.clone().into_owned(), "worker");
    assert_eq!(owned.as_str(), "worker");
    assert_eq!(AsRef::<str>::as_ref(&owned), "worker");
    assert_ne!(borrowed, WorkerId::from("other"));
}
