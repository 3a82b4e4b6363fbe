//! What a Telegram session does, told of its events and its texts.

use crate::agent::execution::{Cancellation, Completion, ExecutionEvent, InferenceEvent};
use crate::agent::interaction::{InteractionEvent, SessionContext};
use crate::agent::presentation::{PresentationEvent, StatusEvent};
use crate::agent::schema::AgentSchema;
use crate::agent::substrate::{
    same_stream, ErrorDescriptor, ErrorEvent, EventPayload, EventVisibility, StreamKey,
};
use crate::runtime_support::workers::is_equivalence;
use crate::telegram::client::{
    colon_place, end_trimmed, first_dark, is_white_space, surface_of, token_refusal, trimmed,
    TelegramInboundMessage, TelegramSurface, TelegramUser, TeloxideTelegramError,
};
use crate::telegram::surface::{
    buffered, chunks_are_joined_in_order, egress_step, ended_run_is_forgotten, is_planned,
    runs_are_distinct, runs_stay_distinct, says, says_error, says_output, tells_of_turn, with_chunk,
    DisplayTelegramTextMapper, PlainTextTelegramInputMapper, PlannedEvent, TelegramIngressMapper,
    TelegramInputTurn, TelegramTextMapper,
};
use std::fmt::Display;
use vstd::prelude::*;
use vstd::std_specs::cmp::PartialEqSpec;
use vstd::std_specs::convert::FromSpec;
use vstd::string::to_string_from_display_ensures;

verus! {

/// The result with which a run completes is not looked at: whatever it is, the egress
/// does the same.
pub proof fn every_completion_is_told_alike<S: AgentSchema, M: TelegramTextMapper<S>>(
    mapper: M,
    session: SessionContext<S>,
    before: Seq<(S::InferenceRunId, Seq<char>)>,
    run_id: S::InferenceRunId,
    result: Completion<S>,
    other: Completion<S>,
    after: Seq<(S::InferenceRunId, Seq<char>)>,
    texts: Seq<String>,
    finished: bool,
)
    ensures
        egress_step::<S, M>(
            mapper,
            session,
            before,
            EventPayload::Execution(
                ExecutionEvent::Inference(InferenceEvent::Completed { run_id, result }),
            ),
            after,
            texts,
            finished,
        ) <==> egress_step::<S, M>(
            mapper,
            session,
            before,
            EventPayload::Execution(
                ExecutionEvent::Inference(InferenceEvent::Completed { run_id, result: other }),
            ),
            after,
            texts,
            finished,
        ),
{
}

/// A run that completes says what the mapper makes of all its output, whatever the
/// result is, and nothing where it had none. Its output is forgotten and that of other
/// runs stays. The session goes on.
pub proof fn completed_run_says_its_output<S: AgentSchema, M: TelegramTextMapper<S>>(
    mapper: M,
    session: SessionContext<S>,
    before: Seq<(S::InferenceRunId, Seq<char>)>,
    run_id: S::InferenceRunId,
    result: Completion<S>,
    after: Seq<(S::InferenceRunId, Seq<char>)>,
    texts: Seq<String>,
    finished: bool,
    other: S::InferenceRunId,
)
    requires
        is_equivalence::<S::InferenceRunId>(),
        runs_are_distinct(before),
        egress_step::<S, M>(
            mapper,
            session,
            before,
            EventPayload::Execution(
                ExecutionEvent::Inference(InferenceEvent::Completed { run_id, result }),
            ),
            after,
            texts,
            finished,
        ),
    ensures
        !finished,
        buffered(before, run_id) is None ==> texts.len() == 0,
        buffered(before, run_id) matches Some(said) ==> exists|output: String, answer: Option<String>|
            {
                &&& output@ == said
                &&& #[trigger] call_ensures(M::finalize_output, (&mapper, output), answer)
                &&& answer matches Some(text) ==> texts.len() == 1 && texts[0] == text
                &&& answer is None ==> texts.len() == 0
            },
        buffered(after, run_id) is None,
        !run_id.eq_spec(&other) ==> buffered(after, other) == buffered(before, other),
{
    ended_run_is_forgotten(before, run_id, other);
}

/// With a mapper that shows all output that is not empty, a run that completes says
/// exactly what it put out, whatever the result is.
pub proof fn completed_run_says_all_of_it<S: AgentSchema, M: TelegramTextMapper<S>>(
    mapper: M,
    session: SessionContext<S>,
    before: Seq<(S::InferenceRunId, Seq<char>)>,
    run_id: S::InferenceRunId,
    result: Completion<S>,
    after: Seq<(S::InferenceRunId, Seq<char>)>,
    texts: Seq<String>,
    finished: bool,
)
    requires
        forall|output: String, answer: Option<String>|
            #[trigger] call_ensures(M::finalize_output, (&mapper, output), answer) ==> answer
                == if output@.len() == 0 {
                None::<String>
            } else {
                Some(output)
            },
        egress_step::<S, M>(
            mapper,
            session,
            before,
            EventPayload::Execution(
                ExecutionEvent::Inference(InferenceEvent::Completed { run_id, result }),
            ),
            after,
            texts,
            finished,
        ),
    ensures
        buffered(before, run_id) matches Some(said) ==> {
            &&& said.len() > 0 ==> texts.len() == 1 && texts[0]@ == said
            &&& said.len() == 0 ==> texts.len() == 0
        },
        buffered(before, run_id) is None ==> texts.len() == 0,
{
}

/// A piece of output is put behind what its run has said. Nothing is sent yet, and
/// other runs keep theirs.
pub proof fn output_is_kept_for_its_run<S: AgentSchema, M: TelegramTextMapper<S>>(
    mapper: M,
    session: SessionContext<S>,
    before: Seq<(S::InferenceRunId, Seq<char>)>,
    run_id: S::InferenceRunId,
    sequence: u64,
    output: S::Output,
    after: Seq<(S::InferenceRunId, Seq<char>)>,
    texts: Seq<String>,
    finished: bool,
    other: S::InferenceRunId,
)
    requires
        is_equivalence::<S::InferenceRunId>(),
        runs_are_distinct(before),
        egress_step::<S, M>(
            mapper,
            session,
            before,
            EventPayload::Execution(
                ExecutionEvent::Inference(InferenceEvent::Output { run_id, sequence, output }),
            ),
            after,
            texts,
            finished,
        ),
    ensures
        texts.len() == 0,
        !finished,
        runs_are_distinct(after),
        exists|chunk: String|
            {
                &&& #[trigger] call_ensures(M::render_output_chunk, (&mapper, &output), chunk)
                &&& buffered(before, run_id) matches Some(said) ==> buffered(after, run_id)
                    == Some(said + chunk@)
                &&& buffered(before, run_id) is None ==> buffered(after, run_id) == Some(chunk@)
            },
        !run_id.eq_spec(&other) ==> buffered(after, other) == buffered(before, other),
{
    let chunk = choose|chunk: String|
        #[trigger] call_ensures(M::render_output_chunk, (&mapper, &output), chunk) && after
            == with_chunk(before, run_id, chunk@);
    chunks_are_joined_in_order(before, run_id, chunk@, other);
    runs_stay_distinct(before, run_id, chunk@);
}

/// Two pieces of output and the end of their run: what is sent is what the mapper makes
/// of the two texts put together, in their order.
pub proof fn pieces_are_sent_together<S: AgentSchema, M: TelegramTextMapper<S>>(
    mapper: M,
    session: SessionContext<S>,
    start: Seq<(S::InferenceRunId, Seq<char>)>,
    run_id: S::InferenceRunId,
    output: S::Output,
    sequence: u64,
    said: Seq<(S::InferenceRunId, Seq<char>)>,
    texts: Seq<String>,
    finished: bool,
    more: S::Output,
    more_sequence: u64,
    said_more: Seq<(S::InferenceRunId, Seq<char>)>,
    more_texts: Seq<String>,
    more_finished: bool,
    result: Completion<S>,
    end: Seq<(S::InferenceRunId, Seq<char>)>,
    end_texts: Seq<String>,
    end_finished: bool,
)
    requires
        is_equivalence::<S::InferenceRunId>(),
        runs_are_distinct(start),
        buffered(start, run_id) is None,
        egress_step::<S, M>(
            mapper,
            session,
            start,
            EventPayload::Execution(
                ExecutionEvent::Inference(InferenceEvent::Output { run_id, sequence, output }),
            ),
            said,
            texts,
            finished,
        ),
        egress_step::<S, M>(
            mapper,
            session,
            said,
            EventPayload::Execution(
                ExecutionEvent::Inference(
                    InferenceEvent::Output { run_id, sequence: more_sequence, output: more },
                ),
            ),
            said_more,
            more_texts,
            more_finished,
        ),
        egress_step::<S, M>(
            mapper,
            session,
            said_more,
            EventPayload::Execution(
                ExecutionEvent::Inference(InferenceEvent::Completed { run_id, result }),
            ),
            end,
            end_texts,
            end_finished,
        ),
    ensures
        texts.len() == 0 && more_texts.len() == 0,
        exists|first: String, second: String, whole: String, answer: Option<String>|
            {
                &&& #[trigger] call_ensures(M::render_output_chunk, (&mapper, &output), first)
                &&& #[trigger] call_ensures(M::render_output_chunk, (&mapper, &more), second)
                &&& whole@ == first@ + second@
                &&& #[trigger] call_ensures(M::finalize_output, (&mapper, whole), answer)
                &&& answer matches Some(text) ==> end_texts.len() == 1 && end_texts[0] == text
                &&& answer is None ==> end_texts.len() == 0
            },
        buffered(end, run_id) is None,
{
    output_is_kept_for_its_run::<S, M>(
        mapper,
        session,
        start,
        run_id,
        sequence,
        output,
        said,
        texts,
        finished,
        run_id,
    );
    output_is_kept_for_its_run::<S, M>(
        mapper,
        session,
        said,
        run_id,
        more_sequence,
        more,
        said_more,
        more_texts,
        more_finished,
        run_id,
    );
    completed_run_says_its_output::<S, M>(
        mapper,
        session,
        said_more,
        run_id,
        result,
        end,
        end_texts,
        end_finished,
        run_id,
    );
    let first = choose|chunk: String|
        {
            &&& #[trigger] call_ensures(M::render_output_chunk, (&mapper, &output), chunk)
            &&& buffered(said, run_id) == Some(chunk@)
        };
    let second = choose|chunk: String|
        {
            &&& #[trigger] call_ensures(M::render_output_chunk, (&mapper, &more), chunk)
            &&& buffered(said_more, run_id) == Some(first@ + chunk@)
        };
    let (whole, answer) = choose|whole: String, answer: Option<String>|
        {
            &&& whole@ == first@ + second@
            &&& #[trigger] call_ensures(M::finalize_output, (&mapper, whole), answer)
            &&& answer matches Some(text) ==> end_texts.len() == 1 && end_texts[0] == text
            &&& answer is None ==> end_texts.len() == 0
        };
    assert(call_ensures(M::render_output_chunk, (&mapper, &output), first));
    assert(call_ensures(M::render_output_chunk, (&mapper, &more), second));
    assert(call_ensures(M::finalize_output, (&mapper, whole), answer));
}

/// A run that fails says its output and then what the mapper makes of the error. Its
/// output is forgotten, and that of other runs stays.
pub proof fn failed_run_says_output_then_error<S: AgentSchema, M: TelegramTextMapper<S>>(
    mapper: M,
    session: SessionContext<S>,
    before: Seq<(S::InferenceRunId, Seq<char>)>,
    run_id: S::InferenceRunId,
    error: ErrorDescriptor,
    after: Seq<(S::InferenceRunId, Seq<char>)>,
    texts: Seq<String>,
    finished: bool,
    other: S::InferenceRunId,
)
    requires
        is_equivalence::<S::InferenceRunId>(),
        runs_are_distinct(before),
        egress_step::<S, M>(
            mapper,
            session,
            before,
            EventPayload::Execution(
                ExecutionEvent::Inference(InferenceEvent::Failed { run_id, error }),
            ),
            after,
            texts,
            finished,
        ),
    ensures
        !finished,
        exists|reason: Option<String>|
            {
                &&& #[trigger] call_ensures(M::render_error, (&mapper, &error), reason)
                &&& buffered(before, run_id) is None ==> {
                    &&& reason matches Some(text) ==> texts.len() == 1 && texts[0] == text
                    &&& reason is None ==> texts.len() == 0
                }
                &&& buffered(before, run_id) matches Some(said) ==> exists|
                    output: String,
                    answer: Option<String>,
                |
                    {
                        &&& output@ == said
                        &&& #[trigger] call_ensures(M::finalize_output, (&mapper, output), answer)
                        &&& answer is None && reason is None ==> texts.len() == 0
                        &&& answer is None && reason is Some ==> texts.len() == 1 && texts[0]
                            == reason->0
                        &&& answer is Some && reason is None ==> texts.len() == 1 && texts[0]
                            == answer->0
                        &&& answer is Some && reason is Some ==> texts.len() == 2 && texts[0]
                            == answer->0 && texts[1] == reason->0
                    }
            },
        buffered(after, run_id) is None,
        !run_id.eq_spec(&other) ==> buffered(after, other) == buffered(before, other),
{
    ended_run_is_forgotten(before, run_id, other);
    let (said, told) = choose|output: Seq<String>, reason: Seq<String>|
        {
            &&& says_output::<S, M>(mapper, buffered(before, run_id), output)
            &&& says_error::<S, M>(mapper, error, reason)
            &&& texts == #[trigger] (output + reason)
        };
    let reason = choose|answer: Option<String>|
        #[trigger] call_ensures(M::render_error, (&mapper, &error), answer) && says(told, answer);
    assert(call_ensures(M::render_error, (&mapper, &error), reason));
    if buffered(before, run_id) is Some {
        let (output, answer) = choose|output: String, answer: Option<String>|
            {
                &&& output@ == buffered(before, run_id)->0
                &&& #[trigger] call_ensures(M::finalize_output, (&mapper, output), answer)
                &&& says(said, answer)
            };
        assert(call_ensures(M::finalize_output, (&mapper, output), answer));
        assert(texts == said + told);
    }
}

/// A run that is cancelled says nothing, and its output is forgotten.
pub proof fn cancelled_run_says_nothing<S: AgentSchema, M: TelegramTextMapper<S>>(
    mapper: M,
    session: SessionContext<S>,
    before: Seq<(S::InferenceRunId, Seq<char>)>,
    run_id: S::InferenceRunId,
    cause: Cancellation<S>,
    after: Seq<(S::InferenceRunId, Seq<char>)>,
    texts: Seq<String>,
    finished: bool,
    other: S::InferenceRunId,
)
    requires
        is_equivalence::<S::InferenceRunId>(),
        runs_are_distinct(before),
        egress_step::<S, M>(
            mapper,
            session,
            before,
            EventPayload::Execution(
                ExecutionEvent::Inference(InferenceEvent::Cancelled { run_id, cause }),
            ),
            after,
            texts,
            finished,
        ),
    ensures
        !finished,
        texts.len() == 0,
        buffered(after, run_id) is None,
        !run_id.eq_spec(&other) ==> buffered(after, other) == buffered(before, other),
{
    ended_run_is_forgotten(before, run_id, other);
}

/// A status is shown as the mapper shows it, whether it is opened or updated.
pub proof fn status_is_shown<S: AgentSchema, M: TelegramTextMapper<S>>(
    mapper: M,
    session: SessionContext<S>,
    before: Seq<(S::InferenceRunId, Seq<char>)>,
    event: StatusEvent<S>,
    after: Seq<(S::InferenceRunId, Seq<char>)>,
    texts: Seq<String>,
    finished: bool,
)
    requires
        egress_step::<S, M>(
            mapper,
            session,
            before,
            EventPayload::Presentation(PresentationEvent::Status(event)),
            after,
            texts,
            finished,
        ),
    ensures
        !finished,
        after == before,
        match event {
            StatusEvent::Opened { status_id, session_id, run_id, status } => exists|
                answer: Option<String>,
            |
                {
                    &&& #[trigger] call_ensures(M::render_status, (&mapper, &status), answer)
                    &&& answer matches Some(text) ==> texts.len() == 1 && texts[0] == text
                    &&& answer is None ==> texts.len() == 0
                },
            StatusEvent::Updated { status_id, sequence, status } => exists|answer: Option<String>|
                {
                    &&& #[trigger] call_ensures(M::render_status, (&mapper, &status), answer)
                    &&& answer matches Some(text) ==> texts.len() == 1 && texts[0] == text
                    &&& answer is None ==> texts.len() == 0
                },
            _ => texts.len() == 0,
        },
{
}

/// An error is shown where it is on the stream of the session, and nowhere else.
pub proof fn own_errors_are_shown<S: AgentSchema, M: TelegramTextMapper<S>>(
    mapper: M,
    session: SessionContext<S>,
    before: Seq<(S::InferenceRunId, Seq<char>)>,
    event: ErrorEvent<S>,
    after: Seq<(S::InferenceRunId, Seq<char>)>,
    texts: Seq<String>,
    finished: bool,
)
    requires
        is_equivalence::<S::SessionId>(),
        forall|id: S::SessionId|
            #[trigger] cloned(session.session_id, id) ==> session.session_id.eq_spec(&id),
        egress_step::<S, M>(
            mapper,
            session,
            before,
            EventPayload::Error(event),
            after,
            texts,
            finished,
        ),
    ensures
        !finished,
        after == before,
        match event.stream {
            StreamKey::Session(id) => if id.eq_spec(&session.session_id) {
                exists|answer: Option<String>|
                    {
                        &&& #[trigger] call_ensures(
                            M::render_error,
                            (&mapper, &event.error),
                            answer,
                        )
                        &&& answer matches Some(text) ==> texts.len() == 1 && texts[0] == text
                        &&& answer is None ==> texts.len() == 0
                    }
            } else {
                texts.len() == 0
            },
            _ => texts.len() == 0,
        },
{
    let own = choose|own: StreamKey<S>|
        {
            &&& #[trigger] crate::telegram::surface::is_session_stream(session, own)
            &&& if same_stream(event.stream, own) {
                says_error::<S, M>(mapper, event.error, texts)
            } else {
                texts.len() == 0
            }
        };
    let own_id = own->Session_0;
    assert(cloned(session.session_id, own_id));
    if let StreamKey::Session(id) = event.stream {
        if id.eq_spec(&session.session_id) {
            assert(session.session_id.eq_spec(&own_id));
            assert(id.eq_spec(&own_id));
        } else if id.eq_spec(&own_id) {
            assert(own_id.eq_spec(&session.session_id));
        }
    }
}

/// The egress ends with its own session and with no other event. The end of a session
/// and every event that is none of runs, status and errors send nothing and leave what
/// the runs have said.
pub proof fn egress_ends_with_its_session<S: AgentSchema, M: TelegramTextMapper<S>>(
    mapper: M,
    session: SessionContext<S>,
    before: Seq<(S::InferenceRunId, Seq<char>)>,
    payload: EventPayload<S>,
    after: Seq<(S::InferenceRunId, Seq<char>)>,
    texts: Seq<String>,
    finished: bool,
)
    requires
        egress_step::<S, M>(mapper, session, before, payload, after, texts, finished),
    ensures
        finished <==> {
            &&& payload matches EventPayload::Interaction(
                InteractionEvent::SessionClosed { session_id, thread_id, reason },
            )
            &&& session_id.eq_spec(&session.session_id)
        },
        payload is Interaction ==> texts.len() == 0 && after == before,
        payload matches EventPayload::Execution(event) ==> !(event is Inference) ==> texts.len()
            == 0 && after == before,
        payload matches EventPayload::Execution(ExecutionEvent::Inference(event)) ==> (event
            is Started ==> texts.len() == 0 && after == before),
{
}

/// A turn is told in four events on the stream of the session: its input opens, comes
/// whole and final for everyone to see, is committed and closes. All carry the
/// identifiers of the turn, and the input is that of the turn.
pub proof fn turn_is_told_in_four_events<S: AgentSchema>(
    events: Seq<PlannedEvent<S>>,
    session: SessionContext<S>,
    turn: TelegramInputTurn<S>,
    stream_id: S::InputStreamId,
    revision_id: S::RevisionId,
    turn_id: S::TurnId,
)
    requires
        tells_of_turn(events, session, turn, stream_id, revision_id, turn_id),
    ensures
        events.len() == 4,
        forall|i: int|
            0 <= i < 4 ==> ((#[trigger] events[i]).stream matches StreamKey::Session(id) && cloned(
                session.session_id,
                id,
            )),
        events[0].visibility is Internal,
        events[1].visibility is Both,
        events[2].visibility is Internal,
        events[3].visibility is Internal,
        events[0].payload matches EventPayload::Interaction(
            InteractionEvent::InputStreamOpened { session_id, thread_id, stream_id: opened, kind },
        ) && cloned(session.session_id, session_id) && cloned(session.thread_id, thread_id)
            && cloned(stream_id, opened) && cloned(turn.kind, kind),
        events[1].payload matches EventPayload::Interaction(
            InteractionEvent::InputDelta {
                stream_id: changed,
                revision_id: revision,
                sequence,
                input,
                stability,
            },
        ) && cloned(stream_id, changed) && cloned(revision_id, revision) && sequence == 0 && cloned(
            turn.input,
            input,
        ) && stability is Final,
        events[2].payload matches EventPayload::Interaction(
            InteractionEvent::InputCommitted {
                session_id,
                thread_id,
                stream_id: committed,
                revision_id: revision,
                turn_id: turned,
                input,
            },
        ) && cloned(session.session_id, session_id) && cloned(session.thread_id, thread_id)
            && cloned(stream_id, committed) && revision == revision_id && turned == turn_id && input
            == turn.input,
        events[3].payload matches EventPayload::Interaction(
            InteractionEvent::InputStreamClosed { session_id, thread_id, stream_id: closed },
        ) && cloned(session.session_id, session_id) && cloned(session.thread_id, thread_id)
            && closed == stream_id,
{
}

/// A planned event is on the stream of its session, with its visibility.
pub proof fn planned_event_is_on_its_session<S: AgentSchema>(
    event: PlannedEvent<S>,
    session: SessionContext<S>,
    visibility: EventVisibility,
)
    requires
        is_planned(event, session, visibility),
    ensures
        event.visibility == visibility,
        event.stream matches StreamKey::Session(id) && cloned(session.session_id, id),
{
}

/// A mapper of plain text takes every message, with its text as it is.
pub proof fn plain_text_is_taken_as_it_is<S: AgentSchema<Input = String>>(
    mapper: PlainTextTelegramInputMapper<S::InputKind>,
    message: TelegramInboundMessage,
    turn: Option<TelegramInputTurn<S>>,
)
    requires
        <PlainTextTelegramInputMapper<S::InputKind> as TelegramIngressMapper<S>>::maps(
            &mapper,
            message,
            turn,
        ),
    ensures
        turn matches Some(turn) && turn.input == message.text && cloned(mapper.kind, turn.kind),
{
}

/// A message comes from the chat, the thread and the person that it names.
pub proof fn surface_is_that_of_the_message(message: TelegramInboundMessage)
    ensures
        surface_of(message).chat_id == message.chat_id,
        surface_of(message).thread_id == message.thread_id,
        surface_of(message).username == message.username,
        surface_of(message).display_name == message.display_name,
        <TelegramSurface as FromSpec<TelegramInboundMessage>>::obeys_from_spec(),
        <TelegramSurface as FromSpec<TelegramInboundMessage>>::from_spec(message) == surface_of(
            message,
        ),
        <TelegramSurface as FromSpec<&TelegramInboundMessage>>::obeys_from_spec(),
        <TelegramSurface as FromSpec<&TelegramInboundMessage>>::from_spec(&message) == surface_of(
            message,
        ),
{
}

/// A chunk of output is shown as the output displays itself.
pub proof fn output_is_shown_as_it_displays<S: AgentSchema>(
    mapper: DisplayTelegramTextMapper,
    output: S::Output,
    text: String,
) where S::Output: Display
    requires
        <DisplayTelegramTextMapper as TelegramTextMapper<S>>::renders(&mapper, output, text),
    ensures
        to_string_from_display_ensures::<S::Output>(&output, text),
{
}

/// A user is shown by the first name, with a space and the last name behind it where
/// there is one that is not empty.
pub proof fn users_are_shown_by_their_names(user: TelegramUser)
    ensures
        user.last_name matches Some(last) && last@.len() > 0 ==> user.shown_name()
            == user.first_name@ + " "@ + user.last_name->0@,
        !(user.last_name matches Some(last) && last@.len() > 0) ==> user.shown_name()
            == user.first_name@,
{
}

/// Each error of the client tells in its sentence what failed.
pub proof fn client_errors_tell_what_failed(reason: String)
    ensures
        TeloxideTelegramError::Configuration(reason).sentence()
            == "telegram client configuration failed: "@ + reason@,
        TeloxideTelegramError::Connect(reason).sentence() == "telegram startup validation failed: "@
            + reason@,
        TeloxideTelegramError::Polling(reason).sentence() == "telegram polling failed: "@ + reason@,
        TeloxideTelegramError::Send(reason).sentence() == "telegram send failed: "@ + reason@,
{
}

proof fn lemma_first_dark_is_first(text: Seq<char>)
    ensures
        0 <= first_dark(text) <= text.len(),
        forall|i: int| 0 <= i < first_dark(text) ==> is_white_space(#[trigger] text[i]),
        first_dark(text) < text.len() ==> !is_white_space(text[first_dark(text)]),
    decreases text.len(),
{
    if text.len() > 0 && is_white_space(text[0]) {
        let rest = text.drop_first();
        lemma_first_dark_is_first(rest);
        assert forall|i: int| 0 <= i < first_dark(text) implies is_white_space(
            #[trigger] text[i],
        ) by {
            if i > 0 {
                assert(rest[i - 1] == text[i]);
            }
        }
    }
}

proof fn lemma_end_is_white(text: Seq<char>)
    ensures
        end_trimmed(text).len() <= text.len(),
        end_trimmed(text) == text.take(end_trimmed(text).len() as int),
        forall|i: int|
            end_trimmed(text).len() <= i < text.len() ==> is_white_space(#[trigger] text[i]),
        end_trimmed(text).len() > 0 ==> !is_white_space(
            end_trimmed(text)[end_trimmed(text).len() - 1],
        ),
    decreases text.len(),
{
    if text.len() > 0 && is_white_space(text.last()) {
        let rest = text.drop_last();
        lemma_end_is_white(rest);
        assert forall|i: int| end_trimmed(text).len() <= i < text.len() implies is_white_space(
            #[trigger] text[i],
        ) by {
            if i < rest.len() {
                assert(rest[i] == text[i]);
            }
        }
        assert(end_trimmed(text) =~= text.take(end_trimmed(text).len() as int));
    } else {
        assert(text =~= text.take(text.len() as int));
    }
}

/// A token is trimmed to what lies between the white space around it: all that is cut
/// off is white space, what is left begins and ends with none, and nothing in between
/// changes.
pub proof fn only_white_space_is_cut_off(token: Seq<char>) -> (ends: (int, int))
    ensures
        0 <= ends.0 <= ends.1 <= token.len(),
        trimmed(token) == token.subrange(ends.0, ends.1),
        forall|i: int| 0 <= i < ends.0 ==> is_white_space(#[trigger] token[i]),
        forall|i: int| ends.1 <= i < token.len() ==> is_white_space(#[trigger] token[i]),
        ends.0 < ends.1 ==> !is_white_space(token[ends.0]) && !is_white_space(token[ends.1 - 1]),
{
    let a = first_dark(token);
    lemma_first_dark_is_first(token);
    let rest = token.skip(a);
    lemma_end_is_white(rest);
    let b = a + trimmed(token).len();
    assert(trimmed(token) =~= token.subrange(a, b));
    assert forall|i: int| b <= i < token.len() implies is_white_space(#[trigger] token[i]) by {
        assert(rest[i - a] == token[i]);
    }
    if a < b {
        assert(trimmed(token)[0] == token[a]);
        assert(trimmed(token)[trimmed(token).len() - 1] == token[b - 1]);
    }
    (a, b)
}

proof fn lemma_colon(token: Seq<char>)
    ensures
        0 <= colon_place(token) <= token.len(),
        forall|i: int| 0 <= i < colon_place(token) ==> #[trigger] token[i] != ':',
        colon_place(token) < token.len() ==> token[colon_place(token)] == ':',
    decreases token.len(),
{
    if token.len() > 0 && token[0] != ':' {
        let rest = token.drop_first();
        lemma_colon(rest);
        assert forall|i: int| 0 <= i < colon_place(token) implies #[trigger] token[i] != ':' by {
            if i > 0 {
                assert(rest[i - 1] == token[i]);
            }
        }
    }
}

/// A token is taken exactly where digits, at least one, a colon and a secret without
/// white space follow each other. What is refused is refused for the first of these
/// that is missing.
pub proof fn tokens_have_a_number_and_a_secret(token: Seq<char>, p: int)
    requires
        0 <= p <= token.len(),
        forall|i: int| 0 <= i < p ==> #[trigger] token[i] != ':',
        p < token.len() ==> token[p] == ':',
    ensures
        token.len() == 0 ==> token_refusal(token) == Some("bot token is empty"@),
        token.len() > 0 && p == token.len() ==> token_refusal(token) == Some(
            "bot token must contain a ':' separator"@,
        ),
        p < token.len() ==> {
            let numbered = 0 < p && forall|i: int|
                0 <= i < p ==> '0' <= #[trigger] token[i] && token[i] <= '9';
            let secret = p + 1 < token.len() && forall|i: int|
                p < i < token.len() ==> !is_white_space(#[trigger] token[i]);
            &&& !numbered ==> token_refusal(token) == Some("bot token id must be ASCII digits"@)
            &&& numbered && !secret ==> token_refusal(token) == Some(
                "bot token secret must be non-empty and contain no whitespace"@,
            )
            &&& numbered && secret ==> token_refusal(token) is None
        },
{
    lemma_colon(token);
    let q = colon_place(token);
    if q < p {
        assert(token[q] != ':');
    }
    if p < q {
        assert(token[p] != ':');
    }
    assert(p == q);
    if p < token.len() {
        assert forall|i: int| 0 <= i < p implies (crate::telegram::client::is_digit(
            #[trigger] token[i],
        ) <==> '0' <= token[i] && token[i] <= '9') by {}
    }
}

}
