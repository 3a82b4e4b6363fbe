//! What a Telegram session publishes and what it sends.
//!
//! The ingress turns messages into events for the bus, the egress turns events from
//! the bus into texts for the chat. Receiving, publishing and sending happen outside.

use crate::agent::execution::{ExecutionEvent, InferenceEvent};
use crate::agent::interaction::{
    InputStability, InteractionEvent, SessionCloseReason, SessionContext,
};
use crate::agent::presentation::{PresentationEvent, StatusEvent};
use crate::agent::runtime::Worker;
use crate::agent::schema::{AgentIds, AgentSchema};
use crate::agent::substrate::{
    equality_is_specified, same_stream, ErrorDescriptor, Event, EventPayload, EventVisibility,
    Filter, StreamKey, Subscription,
};
use crate::runtime_support::workers::is_equivalence;
use crate::telegram::client::{
    TelegramInboundMessage, TelegramOutboundMessage, TelegramSessionSurface,
};
use std::fmt::Display;
use vstd::prelude::*;
use vstd::std_specs::cmp::PartialEqSpec;
use vstd::string::to_string_from_display_ensures;

verus! {

/// What a message says to an agent.
#[derive(Debug, Clone)]
pub struct TelegramInputTurn<S: AgentSchema> {
    pub kind: S::InputKind,
    pub input: S::Input,
}

/// What of a message an agent hears.
pub trait TelegramIngressMapper<S: AgentSchema> {
    /// Whether `turn` is what a message may stand for.
    open spec fn maps(
        &self,
        message: TelegramInboundMessage,
        turn: Option<TelegramInputTurn<S>>,
    ) -> bool {
        true
    }

    /// The turn that a message stands for, if it stands for one.
    fn map_message(&self, message: &TelegramInboundMessage) -> (turn: Option<TelegramInputTurn<S>>)
        ensures
            self.maps(*message, turn),
    ;
}

/// Takes the text of every message.
#[derive(Debug, Clone)]
pub struct PlainTextTelegramInputMapper<K> {
    pub kind: K,
}

impl<K> PlainTextTelegramInputMapper<K> {
    /// Take the text of every message as input of this kind.
    pub fn new(kind: K) -> (mapper: Self)
        ensures
            mapper.kind == kind,
    {
        PlainTextTelegramInputMapper { kind }
    }
}

impl<S> TelegramIngressMapper<S> for PlainTextTelegramInputMapper<S::InputKind> where
    S: AgentSchema<Input = String>,
 {
    open spec fn maps(
        &self,
        message: TelegramInboundMessage,
        turn: Option<TelegramInputTurn<S>>,
    ) -> bool {
        turn matches Some(turn) && cloned(self.kind, turn.kind) && turn.input == message.text
    }

    fn map_message(&self, message: &TelegramInboundMessage) -> (turn: Option<
        TelegramInputTurn<S>,
    >) {
        Some(TelegramInputTurn { kind: self.kind.clone(), input: message.text.clone() })
    }
}

/// An event that is to be published.
#[derive(Debug)]
pub struct PlannedEvent<S: AgentSchema> {
    pub stream: StreamKey<S>,
    pub visibility: EventVisibility,
    pub payload: EventPayload<S>,
}

/// Whether `stream` is the stream of the session.
pub open spec fn is_session_stream<S: AgentSchema>(
    session: SessionContext<S>,
    stream: StreamKey<S>,
) -> bool {
    stream matches StreamKey::Session(id) && cloned(session.session_id, id)
}

/// The stream of a session.
pub fn session_stream<S>(session: &SessionContext<S>) -> (stream: StreamKey<S>) where S: AgentSchema
    ensures
        is_session_stream(*session, stream),
{
    StreamKey::Session(session.session_id.clone())
}

/// The subscription to everything on the stream of a session.
pub fn session_subscription<S>(session: &SessionContext<S>) -> (subscription: Subscription<
    S,
>) where S: AgentSchema
    ensures
        subscription.streams matches Filter::Only(streams) && streams@.len() == 1
            && is_session_stream(*session, streams@[0]),
        subscription.visibility is Any,
{
    Subscription::for_stream(session_stream(session))
}

/// Whether `event` is planned for the session with this visibility and payload.
pub open spec fn is_planned<S: AgentSchema>(
    event: PlannedEvent<S>,
    session: SessionContext<S>,
    visibility: EventVisibility,
) -> bool {
    is_session_stream(session, event.stream) && event.visibility == visibility
}

/// Whether `events` tell of one turn: its input stream opens, the whole input comes
/// as its final state, it is committed, and the stream closes.
pub open spec fn tells_of_turn<S: AgentSchema>(
    events: Seq<PlannedEvent<S>>,
    session: SessionContext<S>,
    turn: TelegramInputTurn<S>,
    stream_id: S::InputStreamId,
    revision_id: S::RevisionId,
    turn_id: S::TurnId,
) -> bool {
    &&& events.len() == 4
    &&& is_planned(events[0], session, EventVisibility::Internal)
    &&& events[0].payload matches EventPayload::Interaction(
        InteractionEvent::InputStreamOpened {
            session_id,
            thread_id,
            stream_id: opened,
            kind,
        },
    ) && cloned(session.session_id, session_id) && cloned(session.thread_id, thread_id) && cloned(
        stream_id,
        opened,
    ) && cloned(turn.kind, kind)
    &&& is_planned(events[1], session, EventVisibility::Both)
    &&& events[1].payload matches EventPayload::Interaction(
        InteractionEvent::InputDelta {
            stream_id: changed,
            revision_id: revision,
            sequence,
            input,
            stability,
        },
    ) && cloned(stream_id, changed) && cloned(revision_id, revision) && sequence == 0 && cloned(
        turn.input,
        input,
    ) && stability is Final
    &&& is_planned(events[2], session, EventVisibility::Internal)
    &&& events[2].payload matches EventPayload::Interaction(
        InteractionEvent::InputCommitted {
            session_id,
            thread_id,
            stream_id: committed,
            revision_id: revision,
            turn_id: turned,
            input,
        },
    ) && cloned(session.session_id, session_id) && cloned(session.thread_id, thread_id) && cloned(
        stream_id,
        committed,
    ) && revision == revision_id && turned == turn_id && input == turn.input
    &&& is_planned(events[3], session, EventVisibility::Internal)
    &&& events[3].payload matches EventPayload::Interaction(
        InteractionEvent::InputStreamClosed { session_id, thread_id, stream_id: closed },
    ) && cloned(session.session_id, session_id) && cloned(session.thread_id, thread_id) && closed
        == stream_id
}

/// The events that tell of one turn.
pub fn turn_events<S>(
    session: &SessionContext<S>,
    turn: TelegramInputTurn<S>,
    stream_id: S::InputStreamId,
    revision_id: S::RevisionId,
    turn_id: S::TurnId,
) -> (events: Vec<PlannedEvent<S>>) where S: AgentSchema
    ensures
        tells_of_turn(events@, *session, turn, stream_id, revision_id, turn_id),
{
    let mut events: Vec<PlannedEvent<S>> = Vec::new();
    events.push(
        PlannedEvent {
            stream: session_stream(session),
            visibility: EventVisibility::Internal,
            payload: EventPayload::Interaction(
                InteractionEvent::InputStreamOpened {
                    session_id: session.session_id.clone(),
                    thread_id: session.thread_id.clone(),
                    stream_id: stream_id.clone(),
                    kind: turn.kind.clone(),
                },
            ),
        },
    );
    events.push(
        PlannedEvent {
            stream: session_stream(session),
            visibility: EventVisibility::Both,
            payload: EventPayload::Interaction(
                InteractionEvent::InputDelta {
                    stream_id: stream_id.clone(),
                    revision_id: revision_id.clone(),
                    sequence: 0,
                    input: turn.input.clone(),
                    stability: InputStability::Final,
                },
            ),
        },
    );
    events.push(
        PlannedEvent {
            stream: session_stream(session),
            visibility: EventVisibility::Internal,
            payload: EventPayload::Interaction(
                InteractionEvent::InputCommitted {
                    session_id: session.session_id.clone(),
                    thread_id: session.thread_id.clone(),
                    stream_id: stream_id.clone(),
                    revision_id,
                    turn_id,
                    input: turn.input,
                },
            ),
        },
    );
    events.push(
        PlannedEvent {
            stream: session_stream(session),
            visibility: EventVisibility::Internal,
            payload: EventPayload::Interaction(
                InteractionEvent::InputStreamClosed {
                    session_id: session.session_id.clone(),
                    thread_id: session.thread_id.clone(),
                    stream_id,
                },
            ),
        },
    );
    events
}

/// Brings the messages of a chat into a session.
#[derive(Debug, Clone)]
pub struct TelegramIngress<S: AgentSchema, M> {
    pub worker_id: S::WorkerId,
    pub mapper: M,
}

impl<S: AgentSchema, M> TelegramIngress<S, M> {
    /// An ingress under a worker name.
    pub fn new(worker_id: S::WorkerId, mapper: M) -> (ingress: Self)
        ensures
            ingress == (TelegramIngress::<S, M> { worker_id, mapper }),
    {
        TelegramIngress { worker_id, mapper }
    }

    /// What is published when the session begins.
    pub fn session_opened(&self, session: &SessionContext<S>) -> (event: PlannedEvent<S>)
        ensures
            is_planned(event, *session, EventVisibility::Internal),
            event.payload matches EventPayload::Interaction(
                InteractionEvent::SessionOpened { session: opened },
            ) && cloned(*session, opened),
    {
        PlannedEvent {
            stream: session_stream(session),
            visibility: EventVisibility::Internal,
            payload: EventPayload::Interaction(
                InteractionEvent::SessionOpened { session: session.clone() },
            ),
        }
    }

    /// What is published when the inbox has ended.
    pub fn session_closed(&self, session: SessionContext<S>) -> (event: PlannedEvent<S>)
        ensures
            is_planned(event, session, EventVisibility::Internal),
            event.payload == EventPayload::<S>::Interaction(
                InteractionEvent::SessionClosed {
                    session_id: session.session_id,
                    thread_id: session.thread_id,
                    reason: SessionCloseReason::Normal,
                },
            ),
    {
        PlannedEvent {
            stream: session_stream(&session),
            visibility: EventVisibility::Internal,
            payload: EventPayload::Interaction(
                InteractionEvent::SessionClosed {
                    session_id: session.session_id,
                    thread_id: session.thread_id,
                    reason: SessionCloseReason::Normal,
                },
            ),
        }
    }
}

impl<S, M> TelegramIngress<S, M> where
    S: AgentSchema,
    S::Ids: AgentIds<
        InputStreamId = S::InputStreamId,
        RevisionId = S::RevisionId,
        TurnId = S::TurnId,
    >,
    M: TelegramIngressMapper<S>,
 {
    /// What is published of a message: its turn under fresh identifiers, or nothing
    /// where the mapper makes no turn of it.
    pub fn message_received(
        &self,
        session: &SessionContext<S>,
        message: &TelegramInboundMessage,
    ) -> (events: Vec<PlannedEvent<S>>)
        ensures
            exists|turn: Option<TelegramInputTurn<S>>|
                {
                    &&& #[trigger] call_ensures(M::map_message, (&self.mapper, message), turn)
                    &&& match turn {
                        None => events@.len() == 0,
                        Some(turn) => exists|
                            stream_id: S::InputStreamId,
                            revision_id: S::RevisionId,
                            turn_id: S::TurnId,
                        |
                            {
                                &&& call_ensures(
                                    <S as AgentSchema>::next_input_stream_id,
                                    (),
                                    stream_id,
                                )
                                &&& call_ensures(
                                    <S as AgentSchema>::next_revision_id,
                                    (),
                                    revision_id,
                                )
                                &&& call_ensures(<S as AgentSchema>::next_turn_id, (), turn_id)
                                &&& #[trigger] tells_of_turn(
                                    events@,
                                    *session,
                                    turn,
                                    stream_id,
                                    revision_id,
                                    turn_id,
                                )
                            },
                    }
                },
    {
        match self.mapper.map_message(message) {
            None => Vec::new(),
            Some(turn) => {
                let stream_id = S::next_input_stream_id();
                let revision_id = S::next_revision_id();
                let turn_id = S::next_turn_id();
                turn_events(session, turn, stream_id, revision_id, turn_id)
            },
        }
    }
}

impl<S, M> Worker for TelegramIngress<S, M> where S: AgentSchema {
    type WorkerId = S::WorkerId;

    type Subscription = Subscription<S>;

    fn worker_id(&self) -> (worker_id: S::WorkerId)
        ensures
            cloned(self.worker_id, worker_id),
    {
        self.worker_id.clone()
    }

    fn subscription(&self) -> (subscription: Subscription<S>)
        ensures
            subscription.streams is Any,
            subscription.visibility is Any,
    {
        Subscription::all()
    }
}

/// How an agent speaks in a chat.
pub trait TelegramTextMapper<S: AgentSchema>: Sized {
    /// Whether `text` is how a piece of output may be shown.
    open spec fn renders(&self, output: S::Output, text: String) -> bool {
        true
    }

    /// The text of a piece of output.
    fn render_output_chunk(&self, output: &S::Output) -> (text: String)
        ensures
            self.renders(*output, text),
    ;

    /// The text of a status, if it is shown.
    fn render_status(&self, status: &S::Status) -> (text: Option<String>)
        default_ensures
            text is None,
    {
        None
    }

    /// The text of an error, if it is shown.
    fn render_error(&self, error: &ErrorDescriptor) -> (text: Option<String>)
        default_ensures
            text == Some(error.message),
    {
        Some(error.message.clone())
    }

    /// The text of the whole output, if it is shown.
    fn finalize_output(&self, output: String) -> (text: Option<String>)
        default_ensures
            text == if output@.len() == 0 {
                None::<String>
            } else {
                Some(output)
            },
    {
        if output.as_str().is_empty() {
            None
        } else {
            Some(output)
        }
    }
}

/// Shows output as it displays itself.
#[derive(Debug, Clone, Copy, Default)]
pub struct DisplayTelegramTextMapper;

impl<S> TelegramTextMapper<S> for DisplayTelegramTextMapper where
    S: AgentSchema,
    S::Output: Display,
 {
    open spec fn renders(&self, output: S::Output, text: String) -> bool {
        to_string_from_display_ensures::<S::Output>(&output, text)
    }

    fn render_output_chunk(&self, output: &S::Output) -> (text: String) {
        output.to_string()
    }
}

/// The place of the first entry for `id`, or the number of entries.
pub open spec fn buffer_place<Id: PartialEq>(entries: Seq<(Id, Seq<char>)>, id: Id) -> int
    decreases entries.len(),
{
    if entries.len() == 0 || entries[0].0.eq_spec(&id) {
        0
    } else {
        1 + buffer_place(entries.drop_first(), id)
    }
}

/// The text that is buffered for `id`.
pub open spec fn buffered<Id: PartialEq>(entries: Seq<(Id, Seq<char>)>, id: Id) -> Option<
    Seq<char>,
> {
    let p = buffer_place(entries, id);
    if p < entries.len() {
        Some(entries[p].1)
    } else {
        None
    }
}

/// The entries with `chunk` at the end of the text for `id`.
pub open spec fn with_chunk<Id: PartialEq>(
    entries: Seq<(Id, Seq<char>)>,
    id: Id,
    chunk: Seq<char>,
) -> Seq<(Id, Seq<char>)> {
    let p = buffer_place(entries, id);
    if p < entries.len() {
        entries.update(p, (entries[p].0, entries[p].1 + chunk))
    } else {
        entries.push((id, chunk))
    }
}

/// The entries without the first one for `id`.
pub open spec fn without_buffer<Id: PartialEq>(entries: Seq<(Id, Seq<char>)>, id: Id) -> Seq<
    (Id, Seq<char>),
> {
    let p = buffer_place(entries, id);
    if p < entries.len() {
        entries.remove(p)
    } else {
        entries
    }
}

proof fn lemma_buffer_place<Id: PartialEq>(entries: Seq<(Id, Seq<char>)>, id: Id, p: int)
    requires
        0 <= p <= entries.len(),
        forall|i: int| 0 <= i < p ==> !(#[trigger] entries[i]).0.eq_spec(&id),
        p < entries.len() ==> entries[p].0.eq_spec(&id),
    ensures
        buffer_place(entries, id) == p,
    decreases p,
{
    if p > 0 {
        let rest = entries.drop_first();
        assert forall|i: int| 0 <= i < p - 1 implies !(#[trigger] rest[i]).0.eq_spec(&id) by {
            assert(rest[i] == entries[i + 1]);
        }
        lemma_buffer_place(rest, id, p - 1);
    }
}

proof fn lemma_buffer_place_is_first<Id: PartialEq>(entries: Seq<(Id, Seq<char>)>, id: Id)
    ensures
        0 <= buffer_place(entries, id) <= entries.len(),
        forall|i: int|
            0 <= i < buffer_place(entries, id) ==> !(#[trigger] entries[i]).0.eq_spec(&id),
        buffer_place(entries, id) < entries.len() ==> entries[buffer_place(
            entries,
            id,
        )].0.eq_spec(&id),
    decreases entries.len(),
{
    if entries.len() > 0 && !entries[0].0.eq_spec(&id) {
        let rest = entries.drop_first();
        lemma_buffer_place_is_first(rest, id);
        assert forall|i: int| 0 <= i < buffer_place(entries, id) implies !(
        #[trigger] entries[i]).0.eq_spec(&id) by {
            if i > 0 {
                assert(rest[i - 1] == entries[i]);
            }
        }
    }
}

/// What a run has said so far is the text of its chunks, in their order, and a chunk
/// of one run leaves what the others have said.
pub proof fn chunks_are_joined_in_order<Id: PartialEq>(
    entries: Seq<(Id, Seq<char>)>,
    id: Id,
    chunk: Seq<char>,
    other: Id,
)
    requires
        is_equivalence::<Id>(),
    ensures
        buffered(with_chunk(entries, id, chunk), id) == Some(
            match buffered(entries, id) {
                Some(text) => text + chunk,
                None => chunk,
            },
        ),
        !id.eq_spec(&other) ==> buffered(with_chunk(entries, id, chunk), other) == buffered(
            entries,
            other,
        ),
{
    let after = with_chunk(entries, id, chunk);
    let p = buffer_place(entries, id);
    lemma_buffer_place_is_first(entries, id);
    assert(id.eq_spec(&id));
    assert forall|i: int| 0 <= i < p implies !(#[trigger] after[i]).0.eq_spec(&id) by {
        assert(after[i] == entries[i]);
    }
    lemma_buffer_place(after, id, p);
    if !id.eq_spec(&other) {
        let q = buffer_place(entries, other);
        lemma_buffer_place_is_first(entries, other);
        if p < entries.len() && entries[p].0.eq_spec(&other) {
            assert(id.eq_spec(&entries[p].0));
            assert(id.eq_spec(&other));
        }
        let r = if q < entries.len() {
            q
        } else {
            after.len() as int
        };
        assert forall|i: int| 0 <= i < r implies !(#[trigger] after[i]).0.eq_spec(&other) by {
            if i < entries.len() {
                assert(after[i].0 == entries[i].0);
            }
        }
        lemma_buffer_place(after, other, r);
    }
}

/// Whether no run has two buffers.
pub open spec fn runs_are_distinct<Id: PartialEq>(entries: Seq<(Id, Seq<char>)>) -> bool {
    forall|i: int, j: int|
        0 <= i < entries.len() && 0 <= j < entries.len() && i != j ==> !(
        #[trigger] entries[i]).0.eq_spec(&(#[trigger] entries[j]).0)
}

/// A chunk gives no run a second buffer, and neither does the end of a run.
pub proof fn runs_stay_distinct<Id: PartialEq>(
    entries: Seq<(Id, Seq<char>)>,
    id: Id,
    chunk: Seq<char>,
)
    requires
        is_equivalence::<Id>(),
        runs_are_distinct(entries),
    ensures
        runs_are_distinct(with_chunk(entries, id, chunk)),
        runs_are_distinct(without_buffer(entries, id)),
{
    let p = buffer_place(entries, id);
    lemma_buffer_place_is_first(entries, id);
    let longer = with_chunk(entries, id, chunk);
    assert forall|i: int, j: int|
        0 <= i < longer.len() && 0 <= j < longer.len() && i != j implies !(
    #[trigger] longer[i]).0.eq_spec(&(#[trigger] longer[j]).0) by {
        if i < entries.len() && j < entries.len() {
            assert(longer[i].0 == entries[i].0);
            assert(longer[j].0 == entries[j].0);
        } else if i < entries.len() {
            assert(longer[i].0 == entries[i].0);
        } else {
            assert(longer[j].0 == entries[j].0);
            if id.eq_spec(&entries[j].0) {
                assert(entries[j].0.eq_spec(&id));
            }
        }
    }
    let shorter = without_buffer(entries, id);
    if p < entries.len() {
        assert forall|i: int, j: int|
            0 <= i < shorter.len() && 0 <= j < shorter.len() && i != j implies !(
        #[trigger] shorter[i]).0.eq_spec(&(#[trigger] shorter[j]).0) by {
            let a = if i < p {
                i
            } else {
                i + 1
            };
            let b = if j < p {
                j
            } else {
                j + 1
            };
            assert(shorter[i] == entries[a]);
            assert(shorter[j] == entries[b]);
        }
    }
}

/// What a run has said is sent once: when the run ends its buffer is gone, and the
/// others keep theirs.
pub proof fn ended_run_is_forgotten<Id: PartialEq>(
    entries: Seq<(Id, Seq<char>)>,
    id: Id,
    other: Id,
)
    requires
        is_equivalence::<Id>(),
        runs_are_distinct(entries),
    ensures
        buffered(without_buffer(entries, id), id) is None,
        !id.eq_spec(&other) ==> buffered(without_buffer(entries, id), other) == buffered(
            entries,
            other,
        ),
{
    let after = without_buffer(entries, id);
    let p = buffer_place(entries, id);
    lemma_buffer_place_is_first(entries, id);
    lemma_buffer_place_is_first(entries, other);
    if p < entries.len() {
        assert forall|i: int| 0 <= i < after.len() implies !(#[trigger] after[i]).0.eq_spec(
            &id,
        ) by {
            let a = if i < p {
                i
            } else {
                i + 1
            };
            assert(after[i] == entries[a]);
            if entries[a].0.eq_spec(&id) {
                assert(id.eq_spec(&entries[p].0));
                assert(entries[a].0.eq_spec(&entries[p].0));
            }
        }
        lemma_buffer_place(after, id, after.len() as int);
        if !id.eq_spec(&other) {
            let q = buffer_place(entries, other);
            if entries[p].0.eq_spec(&other) {
                assert(id.eq_spec(&entries[p].0));
                assert(id.eq_spec(&other));
            }
            let r = if q < p {
                q
            } else {
                q - 1
            };
            assert forall|i: int| 0 <= i < r implies !(#[trigger] after[i]).0.eq_spec(
                &other,
            ) by {
                let a = if i < p {
                    i
                } else {
                    i + 1
                };
                assert(after[i] == entries[a]);
            }
            if r < after.len() {
                assert(after[r] == entries[q]);
            }
            lemma_buffer_place(after, other, r);
        }
    } else {
        assert(after == entries);
    }
}

/// The output of runs that have not ended, by run.
///
/// A schema brings its own kind of run identifiers. What a `HashMap` does with keys of
/// a kind that is not known is not specified, so the entries stand in a list.
#[derive(Debug)]
pub struct OutputBuffers<Id> {
    pub entries: Vec<(Id, String)>,
}

impl<Id: PartialEq> OutputBuffers<Id> {
    /// The runs with the text of each.
    pub open spec fn texts(&self) -> Seq<(Id, Seq<char>)> {
        self.entries@.map_values(|entry: (Id, String)| (entry.0, entry.1@))
    }

    /// No output yet.
    pub fn new() -> (buffers: Self)
        ensures
            buffers.texts().len() == 0,
    {
        OutputBuffers { entries: Vec::new() }
    }

    fn find(&self, id: &Id) -> (p: usize)
        ensures
            p <= self.entries.len(),
            Id::obeys_eq_spec() ==> p == buffer_place(self.texts(), *id),
    {
        let mut p: usize = 0;
        while p < self.entries.len()
            invariant
                p <= self.entries.len(),
                Id::obeys_eq_spec() ==> forall|i: int|
                    0 <= i < p ==> !(#[trigger] self.texts()[i]).0.eq_spec(id),
            decreases self.entries.len() - p,
        {
            assert(self.texts()[p as int].0 == self.entries@[p as int].0);
            if self.entries[p].0 == *id {
                proof {
                    if Id::obeys_eq_spec() {
                        lemma_buffer_place(self.texts(), *id, p as int);
                    }
                }
                return p;
            }
            p += 1;
        }
        proof {
            if Id::obeys_eq_spec() {
                lemma_buffer_place(self.texts(), *id, p as int);
            }
        }
        p
    }

    /// Put `chunk` at the end of the text of a run.
    pub fn push_chunk(&mut self, id: Id, chunk: &str)
        ensures
            Id::obeys_eq_spec() ==> final(self).texts() == with_chunk(
                old(self).texts(),
                id,
                chunk@,
            ),
    {
        let ghost before = self.texts();
        let p = self.find(&id);
        if p < self.entries.len() {
            let (known, mut text) = self.entries.remove(p);
            text.append(chunk);
            self.entries.insert(p, (known, text));
            assert(self.texts() =~= before.update(
                p as int,
                (before[p as int].0, before[p as int].1 + chunk@),
            ));
        } else {
            self.entries.push((id, chunk.to_string()));
            assert(self.texts() =~= before.push((id, chunk@)));
        }
    }

    /// Take the text of a run out.
    pub fn take(&mut self, id: &Id) -> (text: Option<String>)
        ensures
            Id::obeys_eq_spec() ==> final(self).texts() == without_buffer(old(self).texts(), *id),
            Id::obeys_eq_spec() ==> match text {
                Some(text) => buffered(old(self).texts(), *id) == Some(text@),
                None => buffered(old(self).texts(), *id) is None,
            },
    {
        let ghost before = self.texts();
        let p = self.find(id);
        if p < self.entries.len() {
            let (_, text) = self.entries.remove(p);
            assert(self.texts() =~= before.remove(p as int));
            assert(before[p as int].1 == text@);
            Some(text)
        } else {
            None
        }
    }
}

/// What the egress does with one event: texts that are to be sent, in their order,
/// and whether the session has ended.
#[derive(Debug)]
pub struct EgressStep {
    pub texts: Vec<String>,
    pub finished: bool,
}

/// Whether `texts` hold the text of `answer`, if it has one.
pub open spec fn says(texts: Seq<String>, answer: Option<String>) -> bool {
    match answer {
        Some(text) => texts == seq![text],
        None => texts.len() == 0,
    }
}

/// Whether `texts` say what the mapper makes of the buffered output of a run.
pub open spec fn says_output<S: AgentSchema, M: TelegramTextMapper<S>>(
    mapper: M,
    buffer: Option<Seq<char>>,
    texts: Seq<String>,
) -> bool {
    match buffer {
        None => texts.len() == 0,
        Some(buffer) => exists|output: String, answer: Option<String>|
            {
                &&& output@ == buffer
                &&& #[trigger] call_ensures(M::finalize_output, (&mapper, output), answer)
                &&& says(texts, answer)
            },
    }
}

/// Whether `texts` say what the mapper makes of an error.
pub open spec fn says_error<S: AgentSchema, M: TelegramTextMapper<S>>(
    mapper: M,
    error: ErrorDescriptor,
    texts: Seq<String>,
) -> bool {
    exists|answer: Option<String>|
        #[trigger] call_ensures(M::render_error, (&mapper, &error), answer) && says(texts, answer)
}

/// Whether `texts` say what the mapper makes of a status.
pub open spec fn says_status<S: AgentSchema, M: TelegramTextMapper<S>>(
    mapper: M,
    status: S::Status,
    texts: Seq<String>,
) -> bool {
    exists|answer: Option<String>|
        #[trigger] call_ensures(M::render_status, (&mapper, &status), answer) && says(
            texts,
            answer,
        )
}

/// What the egress of a session does with an event: it collects the output of each
/// run, sends it when the run completes or fails, forgets it when the run is
/// cancelled, shows status and errors of its own stream, and ends with its session.
pub open spec fn egress_step<S: AgentSchema, M: TelegramTextMapper<S>>(
    mapper: M,
    session: SessionContext<S>,
    before: Seq<(S::InferenceRunId, Seq<char>)>,
    payload: EventPayload<S>,
    after: Seq<(S::InferenceRunId, Seq<char>)>,
    texts: Seq<String>,
    finished: bool,
) -> bool {
    match payload {
        EventPayload::Execution(
            ExecutionEvent::Inference(InferenceEvent::Output { run_id, sequence, output }),
        ) => {
            &&& exists|chunk: String|
                #[trigger] call_ensures(M::render_output_chunk, (&mapper, &output), chunk)
                    && after == with_chunk(before, run_id, chunk@)
            &&& texts.len() == 0
            &&& !finished
        },
        EventPayload::Execution(
            ExecutionEvent::Inference(InferenceEvent::Completed { run_id, result }),
        ) => {
            &&& after == without_buffer(before, run_id)
            &&& says_output::<S, M>(mapper, buffered(before, run_id), texts)
            &&& !finished
        },
        EventPayload::Execution(
            ExecutionEvent::Inference(InferenceEvent::Failed { run_id, error }),
        ) => {
            &&& after == without_buffer(before, run_id)
            &&& exists|output: Seq<String>, reason: Seq<String>|
                {
                    &&& says_output::<S, M>(mapper, buffered(before, run_id), output)
                    &&& says_error::<S, M>(mapper, error, reason)
                    &&& texts == #[trigger] (output + reason)
                }
            &&& !finished
        },
        EventPayload::Execution(
            ExecutionEvent::Inference(InferenceEvent::Cancelled { run_id, cause }),
        ) => after == without_buffer(before, run_id) && texts.len() == 0 && !finished,
        EventPayload::Presentation(
            PresentationEvent::Status(StatusEvent::Opened { status_id, session_id, run_id, status }),
        ) => after == before && says_status::<S, M>(mapper, status, texts) && !finished,
        EventPayload::Presentation(
            PresentationEvent::Status(StatusEvent::Updated { status_id, sequence, status }),
        ) => after == before && says_status::<S, M>(mapper, status, texts) && !finished,
        EventPayload::Error(error_event) => {
            &&& after == before
            &&& !finished
            &&& exists|own: StreamKey<S>|
                {
                    &&& #[trigger] is_session_stream(session, own)
                    &&& if same_stream(error_event.stream, own) {
                        says_error::<S, M>(mapper, error_event.error, texts)
                    } else {
                        texts.len() == 0
                    }
                }
        },
        EventPayload::Interaction(
            InteractionEvent::SessionClosed { session_id, thread_id, reason },
        ) => after == before && texts.len() == 0 && finished == session_id.eq_spec(
            &session.session_id,
        ),
        _ => after == before && texts.len() == 0 && !finished,
    }
}

/// What the egress does with an event whatever runs and streams count as the same:
/// output sends nothing, a run that ends sends at most its output and then its error,
/// a status is shown, an error is shown or not, and only the end of a session can end
/// the egress. Only events of runs touch the buffers.
pub open spec fn egress_outline<S: AgentSchema, M: TelegramTextMapper<S>>(
    mapper: M,
    before: Seq<(S::InferenceRunId, Seq<char>)>,
    payload: EventPayload<S>,
    after: Seq<(S::InferenceRunId, Seq<char>)>,
    texts: Seq<String>,
    finished: bool,
) -> bool {
    match payload {
        EventPayload::Execution(
            ExecutionEvent::Inference(InferenceEvent::Output { run_id, sequence, output }),
        ) => texts.len() == 0 && !finished,
        EventPayload::Execution(
            ExecutionEvent::Inference(InferenceEvent::Completed { run_id, result }),
        ) => texts.len() <= 1 && !finished,
        EventPayload::Execution(
            ExecutionEvent::Inference(InferenceEvent::Failed { run_id, error }),
        ) => {
            &&& exists|output: Seq<String>, reason: Seq<String>|
                {
                    &&& output.len() <= 1
                    &&& says_error::<S, M>(mapper, error, reason)
                    &&& texts == #[trigger] (output + reason)
                }
            &&& !finished
        },
        EventPayload::Execution(
            ExecutionEvent::Inference(InferenceEvent::Cancelled { run_id, cause }),
        ) => texts.len() == 0 && !finished,
        EventPayload::Presentation(
            PresentationEvent::Status(StatusEvent::Opened { status_id, session_id, run_id, status }),
        ) => after == before && says_status::<S, M>(mapper, status, texts) && !finished,
        EventPayload::Presentation(
            PresentationEvent::Status(StatusEvent::Updated { status_id, sequence, status }),
        ) => after == before && says_status::<S, M>(mapper, status, texts) && !finished,
        EventPayload::Error(error_event) => {
            &&& after == before
            &&& !finished
            &&& texts.len() == 0 || says_error::<S, M>(mapper, error_event.error, texts)
        },
        EventPayload::Interaction(
            InteractionEvent::SessionClosed { session_id, thread_id, reason },
        ) => after == before && texts.len() == 0,
        _ => after == before && texts.len() == 0 && !finished,
    }
}

/// Brings the words of an agent into a chat.
#[derive(Debug, Clone)]
pub struct TelegramEgress<S: AgentSchema, C, M> {
    pub worker_id: S::WorkerId,
    pub client: C,
    pub mapper: M,
}

impl<S: AgentSchema, C, M> TelegramEgress<S, C, M> {
    /// An egress under a worker name.
    pub fn new(worker_id: S::WorkerId, client: C, mapper: M) -> (egress: Self)
        ensures
            egress == (TelegramEgress::<S, C, M> { worker_id, client, mapper }),
    {
        TelegramEgress { worker_id, client, mapper }
    }
}

fn push_text(texts: &mut Vec<String>, text: Option<String>)
    ensures
        exists|added: Seq<String>|
            says(added, text) && final(texts)@ == #[trigger] (old(texts)@ + added),
{
    match text {
        Some(text) => {
            let ghost added = seq![text];
            texts.push(text);
            assert(texts@ =~= old(texts)@ + added);
        },
        None => {
            assert(texts@ =~= old(texts)@ + Seq::<String>::empty());
        },
    }
}

impl<S: AgentSchema, C, M: TelegramTextMapper<S>> TelegramEgress<S, C, M> {
    fn say_output(&self, buffer: Option<String>, texts: &mut Vec<String>)
        requires
            old(texts)@.len() == 0,
        ensures
            says_output::<S, M>(
                self.mapper,
                match buffer {
                    Some(buffer) => Some(buffer@),
                    None => None,
                },
                final(texts)@,
            ),
    {
        if let Some(buffer) = buffer {
            let ghost output = buffer;
            let answer = self.mapper.finalize_output(buffer);
            let ghost given = answer;
            push_text(texts, answer);
            proof {
                let added = choose|added: Seq<String>|
                    says(added, given) && texts@ == #[trigger] (old(texts)@ + added);
                assert(texts@ =~= added);
                assert(call_ensures(M::finalize_output, (&self.mapper, output), given));
            }
        }
    }

    /// What the egress does with one event of its session.
    pub fn event_received(
        &self,
        buffers: &mut OutputBuffers<S::InferenceRunId>,
        session: &SessionContext<S>,
        event: Event<S>,
    ) -> (step: EgressStep)
        ensures
            egress_outline::<S, M>(
                self.mapper,
                old(buffers).texts(),
                event.payload,
                final(buffers).texts(),
                step.texts@,
                step.finished,
            ),
            S::InferenceRunId::obeys_eq_spec() && equality_is_specified::<StreamKey<S>>()
                ==> egress_step::<S, M>(
                self.mapper,
                *session,
                old(buffers).texts(),
                event.payload,
                final(buffers).texts(),
                step.texts@,
                step.finished,
            ),
    {
        let mut texts: Vec<String> = Vec::new();
        let mut finished = false;
        let ghost payload = event.payload;
        match event.payload {
            EventPayload::Execution(
                ExecutionEvent::Inference(InferenceEvent::Output { run_id, output, .. }),
            ) => {
                let chunk = self.mapper.render_output_chunk(&output);
                buffers.push_chunk(run_id, chunk.as_str());
                assert(call_ensures(M::render_output_chunk, (&self.mapper, &output), chunk));
            },
            EventPayload::Execution(
                ExecutionEvent::Inference(InferenceEvent::Completed { run_id, .. }),
            ) => {
                let buffer = buffers.take(&run_id);
                self.say_output(buffer, &mut texts);
            },
            EventPayload::Execution(
                ExecutionEvent::Inference(InferenceEvent::Failed { run_id, error }),
            ) => {
                let buffer = buffers.take(&run_id);
                self.say_output(buffer, &mut texts);
                let ghost output = texts@;
                let answer = self.mapper.render_error(&error);
                let ghost given = answer;
                push_text(&mut texts, answer);
                proof {
                    let added = choose|added: Seq<String>|
                        says(added, given) && texts@ == #[trigger] (output + added);
                    assert(call_ensures(M::render_error, (&self.mapper, &error), given));
                    assert(says_error::<S, M>(self.mapper, error, added));
                    assert(texts@ == output + added);
                }
            },
            EventPayload::Execution(
                ExecutionEvent::Inference(InferenceEvent::Cancelled { run_id, .. }),
            ) => {
                buffers.take(&run_id);
            },
            EventPayload::Presentation(
                PresentationEvent::Status(StatusEvent::Opened { status, .. }),
            ) => {
                self.say_status(&status, &mut texts);
            },
            EventPayload::Presentation(
                PresentationEvent::Status(StatusEvent::Updated { status, .. }),
            ) => {
                self.say_status(&status, &mut texts);
            },
            EventPayload::Error(error_event) => {
                let own = session_stream(session);
                assert(is_session_stream(*session, own));
                if error_event.stream == own {
                    self.say_error(&error_event.error, &mut texts);
                }
            },
            EventPayload::Interaction(
                InteractionEvent::SessionClosed { session_id, .. },
            ) => {
                finished = session_id == session.session_id;
            },
            _ => {},
        }
        EgressStep { texts, finished }
    }

    fn say_error(&self, error: &ErrorDescriptor, texts: &mut Vec<String>)
        requires
            old(texts)@.len() == 0,
        ensures
            says_error::<S, M>(self.mapper, *error, final(texts)@),
    {
        let answer = self.mapper.render_error(error);
        let ghost given = answer;
        push_text(texts, answer);
        proof {
            let added = choose|added: Seq<String>|
                says(added, given) && texts@ == #[trigger] (old(texts)@ + added);
            assert(texts@ =~= added);
            assert(call_ensures(M::render_error, (&self.mapper, error), given));
        }
    }

    fn say_status(&self, status: &S::Status, texts: &mut Vec<String>)
        requires
            old(texts)@.len() == 0,
        ensures
            says_status::<S, M>(self.mapper, *status, final(texts)@),
    {
        let answer = self.mapper.render_status(status);
        let ghost given = answer;
        push_text(texts, answer);
        proof {
            let added = choose|added: Seq<String>|
                says(added, given) && texts@ == #[trigger] (old(texts)@ + added);
            assert(texts@ =~= added);
            assert(call_ensures(M::render_status, (&self.mapper, status), given));
        }
    }
}

impl<S, C, M> Worker for TelegramEgress<S, C, M> where S: AgentSchema {
    type WorkerId = S::WorkerId;

    type Subscription = Subscription<S>;

    fn worker_id(&self) -> (worker_id: S::WorkerId)
        ensures
            cloned(self.worker_id, worker_id),
    {
        self.worker_id.clone()
    }

    fn subscription(&self) -> (subscription: Subscription<S>)
        ensures
            subscription.streams is Any,
            subscription.visibility is Any,
    {
        Subscription::all()
    }
}

/// The message that brings `text` into the chat of a session.
pub fn outbound_text<S>(session: &SessionContext<S>, text: String) -> (message:
    TelegramOutboundMessage) where S: AgentSchema, S::Surface: TelegramSessionSurface
    ensures
        call_ensures(
            <S::Surface as TelegramSessionSurface>::telegram_chat_id,
            (&session.surface,),
            message.chat_id,
        ),
        call_ensures(
            <S::Surface as TelegramSessionSurface>::telegram_thread_id,
            (&session.surface,),
            message.thread_id,
        ),
        message.reply_to_message_id is None,
        message.text == text,
{
    TelegramOutboundMessage {
        chat_id: session.surface.telegram_chat_id(),
        thread_id: session.surface.telegram_thread_id(),
        reply_to_message_id: None,
        text,
    }
}

}
