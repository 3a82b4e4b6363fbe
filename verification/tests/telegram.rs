use mango::agent::execution::{Completion, ExecutionEvent, InferenceEvent};
use mango::agent::interaction::{InteractionEvent, SessionCloseReason, SessionContext};
use mango::agent::presentation::{PresentationEvent, StatusEvent};
use mango::agent::runtime::Worker;
use mango::agent::schema::AgentSchema;
use mango::agent::substrate::{
    ErrorDescriptor, ErrorEvent, EventPayload, EventVisibility, Filter, StreamKey,
};
use mango::runtime_support::ids::{
    DefaultAgentIds, EngineId, InferenceRunId, ToolName, WorkerId,
};
use mango::runtime_support::workers::fresh_event;
use mango::telegram::client::{
    inbound_from_message, next_offset, normalize_bot_token, validate_bot_token, TelegramChatId,
    TelegramInboundMessage, TelegramMessageId, TelegramMessageParts, TelegramSurface,
    TelegramThreadId, TelegramUser, TeloxideTelegramError, TELEGRAM_HTTP_TIMEOUT_SECONDS,
    TELEGRAM_POLL_TIMEOUT_SECONDS,
};
use mango::telegram::surface::{
    outbound_text, session_subscription, DisplayTelegramTextMapper, OutputBuffers,
    PlainTextTelegramInputMapper, TelegramEgress, TelegramIngress,
};
use mango::telegram::test_client::{
    MessageNumbers, TestTelegramActor, TestTelegramClientConfig, TestTelegramError,
};
use std::time::Duration;

#[test]
fn http_timeout_exceeds_poll_timeout() {
    assert!(
        Duration::from_secs(TELEGRAM_HTTP_TIMEOUT_SECONDS)
            > Duration::from_secs(u64::from(TELEGRAM_POLL_TIMEOUT_SECONDS))
    );
}

#[test]
fn normalize_bot_token_trims_whitespace() {
    assert_eq!(
        normalize_bot_token("  123456:abc_def-ghi  "),
        "123456:abc_def-ghi"
    );
}

#[test]
fn validate_bot_token_accepts_basic_telegram_shape() {
    assert!(validate_bot_token("123456:abc_def-ghi").is_ok());
}

#[test]
fn validate_bot_token_rejects_invalid_shapes() {
    assert!(validate_bot_token("").is_err());
    assert!(validate_bot_token("missing-colon").is_err());
    assert!(validate_bot_token("abc:def").is_err());
    assert!(validate_bot_token("123456:").is_err());
    assert!(validate_bot_token("123456:bad secret").is_err());
}

#[test]
fn refused_tokens_say_why() {
    let reason = |token: &str| match validate_bot_token(token) {
        Err(TeloxideTelegramError::Configuration(reason)) => reason,
        _ => panic!("expected a configuration error"),
    };
    assert_eq!(reason(""), "bot token is empty");
    assert_eq!(reason("abc"), "bot token must contain a ':' separator");
    assert_eq!(reason(":abc"), "bot token id must be ASCII digits");
    assert_eq!(reason("12a:abc"), "bot token id must be ASCII digits");
    assert_eq!(
        reason("12:"),
        "bot token secret must be non-empty and contain no whitespace"
    );
    assert_eq!(
        reason("12:a\u{a0}b"),
        "bot token secret must be non-empty and contain no whitespace"
    );
    assert!(validate_bot_token("12:a:b").is_ok());
    assert_eq!(
        TeloxideTelegramError::Configuration("bot token is empty".to_string()).message(),
        "telegram client configuration failed: bot token is empty"
    );
    assert_eq!(
        TeloxideTelegramError::Connect("x".to_string()).message(),
        "telegram startup validation failed: x"
    );
    assert_eq!(
        TeloxideTelegramError::Polling("x".to_string()).message(),
        "telegram polling failed: x"
    );
    assert_eq!(
        TeloxideTelegramError::Send("x".to_string()).message(),
        "telegram send failed: x"
    );
}

#[test]
fn trimming_agrees_with_the_standard_library() {
    for text in [
        "",
        " ",
        "\u{3000}\u{2003}a b\u{85}",
        "a",
        "\u{200b}a\u{200b}",
        "\t\r\n a \u{1680}\u{2028}\u{2029}\u{202f}\u{205f}",
        "a\u{180e}",
    ] {
        assert_eq!(normalize_bot_token(text), text.trim());
        assert_eq!(normalize_bot_token(text.trim()), text.trim());
    }
}

#[test]
fn offsets_saturate() {
    assert_eq!(next_offset(0), 1);
    assert_eq!(next_offset(2_147_483_646), 2_147_483_647);
    assert_eq!(next_offset(2_147_483_647), 2_147_483_647);
    assert_eq!(next_offset(u32::MAX), 2_147_483_647);
}

fn user(first: &str, last: Option<&str>, username: Option<&str>) -> TelegramUser {
    TelegramUser {
        username: username.map(str::to_string),
        first_name: first.to_string(),
        last_name: last.map(str::to_string),
    }
}

#[test]
fn display_names_join_first_and_last_name() {
    assert_eq!(user("Ada", Some("Lovelace"), None).display_name(), "Ada Lovelace");
    assert_eq!(user("Ada", Some(""), None).display_name(), "Ada");
    assert_eq!(user("Ada", None, None).display_name(), "Ada");
}

#[test]
fn delivered_messages_need_text() {
    let parts = TelegramMessageParts {
        chat_id: 7,
        thread_id: Some(3),
        message_id: 11,
        from: Some(user("Ada", Some("Lovelace"), Some("ada"))),
        text: Some("hello".to_string()),
    };
    let message = inbound_from_message(&parts).expect("message");
    assert_eq!(message.chat_id, TelegramChatId(7));
    assert_eq!(message.thread_id, Some(TelegramThreadId(3)));
    assert_eq!(message.message_id, TelegramMessageId(11));
    assert_eq!(message.username.as_deref(), Some("ada"));
    assert_eq!(message.display_name, "Ada Lovelace");
    assert_eq!(message.text, "hello");
    assert_eq!(
        TelegramSurface::from(&message),
        TelegramSurface {
            chat_id: TelegramChatId(7),
            thread_id: Some(TelegramThreadId(3)),
            username: Some("ada".to_string()),
            display_name: "Ada Lovelace".to_string(),
        }
    );

    let anonymous = TelegramMessageParts {
        from: None,
        thread_id: None,
        ..parts
    };
    let message = inbound_from_message(&anonymous).expect("message");
    assert_eq!(message.display_name, "telegram user");
    assert_eq!(message.username, None);
    assert_eq!(message.thread_id, None);

    let silent = TelegramMessageParts {
        text: None,
        ..anonymous
    };
    assert!(inbound_from_message(&silent).is_none());
}

#[derive(Debug, Clone)]
struct ChatSchema;

impl AgentSchema for ChatSchema {
    type Ids = DefaultAgentIds;
    type Surface = TelegramSurface;
    type InputKind = &'static str;
    type Input = String;
    type InterruptDetail = ();
    type Directive = ();
    type Output = String;
    type ToolData = ();
    type Status = String;
    type CancellationDetail = ();
    type CompletionDetail = ();
    type EngineId = EngineId;
    type ToolName = ToolName;
}

fn session() -> SessionContext<ChatSchema> {
    SessionContext {
        session_id: ChatSchema::next_session_id(),
        thread_id: ChatSchema::next_thread_id(),
        surface: TelegramSurface {
            chat_id: TelegramChatId(7),
            thread_id: Some(TelegramThreadId(3)),
            username: None,
            display_name: "Ada".to_string(),
        },
    }
}

fn message(text: &str) -> TelegramInboundMessage {
    TelegramInboundMessage {
        chat_id: TelegramChatId(7),
        thread_id: None,
        message_id: TelegramMessageId(1),
        username: None,
        display_name: "Ada".to_string(),
        text: text.to_string(),
        caption: None,
        photo: None,
    }
}

#[test]
fn ingress_tells_of_session_and_turns() {
    let ingress: TelegramIngress<ChatSchema, _> = TelegramIngress::new(
        WorkerId::from("ingress"),
        PlainTextTelegramInputMapper::new("text"),
    );
    assert_eq!(ingress.worker_id(), WorkerId::from("ingress"));
    assert_eq!(ingress.subscription().streams, Filter::Any);
    let session = session();

    let opened = ingress.session_opened(&session);
    assert_eq!(opened.stream, StreamKey::Session(session.session_id));
    assert_eq!(opened.visibility, EventVisibility::Internal);
    assert!(matches!(
        opened.payload,
        EventPayload::Interaction(InteractionEvent::SessionOpened { session: ref opened })
            if opened.session_id == session.session_id
    ));

    let events = ingress.message_received(&session, &message("hello"));
    assert_eq!(events.len(), 4);
    let EventPayload::Interaction(InteractionEvent::InputStreamOpened {
        stream_id, kind, ..
    }) = &events[0].payload
    else {
        panic!("expected an opened stream");
    };
    assert_eq!(*kind, "text");
    let EventPayload::Interaction(InteractionEvent::InputDelta {
        stream_id: changed,
        revision_id,
        sequence,
        input,
        ..
    }) = &events[1].payload
    else {
        panic!("expected a delta");
    };
    assert_eq!(events[1].visibility, EventVisibility::Both);
    assert_eq!(changed, stream_id);
    assert_eq!(*sequence, 0);
    assert_eq!(input, "hello");
    let EventPayload::Interaction(InteractionEvent::InputCommitted {
        revision_id: committed,
        input,
        ..
    }) = &events[2].payload
    else {
        panic!("expected a commit");
    };
    assert_eq!(committed, revision_id);
    assert_eq!(input, "hello");
    let EventPayload::Interaction(InteractionEvent::InputStreamClosed {
        stream_id: closed, ..
    }) = &events[3].payload
    else {
        panic!("expected a closed stream");
    };
    assert_eq!(closed, stream_id);

    let session_id = session.session_id;
    let closed = ingress.session_closed(session);
    assert!(matches!(
        closed.payload,
        EventPayload::Interaction(InteractionEvent::SessionClosed {
            session_id: closed,
            reason: SessionCloseReason::Normal,
            ..
        }) if closed == session_id
    ));
}

type Egress = TelegramEgress<ChatSchema, (), DisplayTelegramTextMapper>;

struct Chat {
    egress: Egress,
    buffers: OutputBuffers<InferenceRunId>,
    session: SessionContext<ChatSchema>,
}

impl Chat {
    fn new() -> Self {
        Chat {
            egress: TelegramEgress::new(
                WorkerId::from("egress"),
                (),
                DisplayTelegramTextMapper,
            ),
            buffers: OutputBuffers::new(),
            session: session(),
        }
    }

    fn take(&mut self, payload: EventPayload<ChatSchema>) -> (Vec<String>, bool) {
        let event = fresh_event(StreamKey::Global, EventVisibility::Both, payload);
        let step = self
            .egress
            .event_received(&mut self.buffers, &self.session, event);
        (step.texts, step.finished)
    }
}

fn inference(event: InferenceEvent<ChatSchema>) -> EventPayload<ChatSchema> {
    EventPayload::Execution(ExecutionEvent::Inference(event))
}

fn output(run_id: InferenceRunId, text: &str) -> EventPayload<ChatSchema> {
    inference(InferenceEvent::Output {
        run_id,
        sequence: 0,
        output: text.to_string(),
    })
}

fn error(message: &str) -> ErrorDescriptor {
    ErrorDescriptor {
        code: "code".to_string(),
        message: message.to_string(),
        retryable: false,
    }
}

#[test]
fn egress_joins_the_chunks_of_each_run() {
    let mut chat = Chat::new();
    let first = ChatSchema::next_inference_run_id();
    let second = ChatSchema::next_inference_run_id();
    assert_eq!(chat.take(output(first, "hel")), (vec![], false));
    assert_eq!(chat.take(output(second, "other")), (vec![], false));
    assert_eq!(chat.take(output(first, "lo")), (vec![], false));
    assert_eq!(
        chat.take(inference(InferenceEvent::Completed {
            run_id: first,
            result: Completion::Completed,
        })),
        (vec!["hello".to_string()], false)
    );
    assert_eq!(
        chat.take(inference(InferenceEvent::Completed {
            run_id: first,
            result: Completion::Completed,
        })),
        (vec![], false)
    );
    assert_eq!(
        chat.take(inference(InferenceEvent::Failed {
            run_id: second,
            error: error("broken"),
        })),
        (vec!["other".to_string(), "broken".to_string()], false)
    );
}

#[test]
fn egress_forgets_cancelled_runs_and_empty_output() {
    let mut chat = Chat::new();
    let run_id = ChatSchema::next_inference_run_id();
    chat.take(output(run_id, "text"));
    chat.take(inference(InferenceEvent::Cancelled {
        run_id,
        cause: mango::agent::execution::Cancellation::UserInterrupted,
    }));
    assert_eq!(
        chat.take(inference(InferenceEvent::Completed {
            run_id,
            result: Completion::Completed,
        })),
        (vec![], false)
    );
    chat.take(output(run_id, ""));
    assert_eq!(
        chat.take(inference(InferenceEvent::Completed {
            run_id,
            result: Completion::Completed,
        })),
        (vec![], false)
    );
}

#[test]
fn egress_shows_errors_of_its_own_stream_only() {
    let mut chat = Chat::new();
    let own = StreamKey::Session(chat.session.session_id);
    let error_on = |stream| {
        EventPayload::Error(ErrorEvent {
            worker_id: WorkerId::from("worker"),
            stream,
            error: error("broken"),
        })
    };
    assert_eq!(
        chat.take(error_on(own)),
        (vec!["broken".to_string()], false)
    );
    assert_eq!(chat.take(error_on(StreamKey::Global)), (vec![], false));
    assert_eq!(
        chat.take(EventPayload::Presentation(PresentationEvent::Status(
            StatusEvent::Closed {
                status_id: ChatSchema::next_status_id(),
            }
        ))),
        (vec![], false)
    );
}

#[test]
fn egress_ends_with_its_session() {
    let mut chat = Chat::new();
    let close = |session_id, thread_id| {
        EventPayload::Interaction(InteractionEvent::SessionClosed {
            session_id,
            thread_id,
            reason: SessionCloseReason::Normal,
        })
    };
    let other = close(ChatSchema::next_session_id(), chat.session.thread_id);
    assert_eq!(chat.take(other), (vec![], false));
    let own = close(chat.session.session_id, chat.session.thread_id);
    assert_eq!(chat.take(own), (vec![], true));
}

#[test]
fn texts_go_to_the_chat_of_the_session() {
    let session = session();
    let message = outbound_text(&session, "hello".to_string());
    assert_eq!(message.chat_id, TelegramChatId(7));
    assert_eq!(message.thread_id, Some(TelegramThreadId(3)));
    assert_eq!(message.reply_to_message_id, None);
    assert_eq!(message.text, "hello");
    let subscription = session_subscription(&session);
    assert_eq!(
        subscription.streams,
        Filter::Only(vec![StreamKey::Session(session.session_id)])
    );
    assert_eq!(subscription.visibility, Filter::Any);
}

#[test]
fn scripted_actors_send_numbered_messages() {
    let config = TestTelegramClientConfig::default();
    assert_eq!(config.capacity, 128);
    let mut numbers = MessageNumbers::new(config);
    let actor = TestTelegramActor::new(
        TelegramChatId(7),
        None,
        Some("ada".to_string()),
        "Ada".to_string(),
    );
    let text = actor.text_message(numbers.take(), "hello".to_string());
    assert_eq!(text.message_id, TelegramMessageId(1));
    assert_eq!(text.text, "hello");
    assert_eq!(text.caption, None);
    let photo = actor.photo_message(
        numbers.take(),
        "photo.jpg".to_string(),
        Some("caption".to_string()),
    );
    assert_eq!(photo.message_id, TelegramMessageId(2));
    assert_eq!(photo.text, "caption");
    assert_eq!(photo.caption.as_deref(), Some("caption"));
    assert_eq!(photo.photo.expect("photo").local_path, "photo.jpg");
    let bare = actor.photo_message(numbers.take(), "photo.jpg".to_string(), None);
    assert_eq!(bare.text, "");

    let mut last = MessageNumbers { next: i32::MAX };
    assert_eq!(last.take(), TelegramMessageId(i32::MAX));
    assert_eq!(last.take(), TelegramMessageId(i32::MIN));
    assert_eq!(
        TestTelegramError::InboxClosed.message(),
        "test telegram inbox is closed"
    );
    assert_eq!(
        TestTelegramError::ReceiveTimedOut.message(),
        "timed out waiting for a test telegram outbound message"
    );
}
