//! Event substrate types and bus contracts.

use crate::agent::execution::ExecutionEvent;
use crate::agent::interaction::InteractionEvent;
use crate::agent::presentation::PresentationEvent;
use crate::agent::schema::AgentSchema;
use std::future::Future;
use std::pin::Pin;
use std::task::{Context, Poll};
use std::time::SystemTime;
use vstd::prelude::*;
use vstd::std_specs::cmp::{PartialEqSpec, PartialEqSpecImpl};

verus! {

/// Routing scope.
#[derive(Debug, Hash)]
pub enum StreamKey<S: AgentSchema> {
    Global,
    Session(S::SessionId),
    Thread(S::ThreadId),
    Worker(S::WorkerId),
}

/// Whether two keys name the same stream.
pub open spec fn same_stream<S: AgentSchema>(left: StreamKey<S>, right: StreamKey<S>) -> bool {
    match (left, right) {
        (StreamKey::Global, StreamKey::Global) => true,
        (StreamKey::Session(left), StreamKey::Session(right)) => left.eq_spec(&right),
        (StreamKey::Thread(left), StreamKey::Thread(right)) => left.eq_spec(&right),
        (StreamKey::Worker(left), StreamKey::Worker(right)) => left.eq_spec(&right),
        _ => false,
    }
}

impl<S: AgentSchema> PartialEq for StreamKey<S> {
    fn eq(&self, other: &Self) -> (same: bool) {
        match (self, other) {
            (StreamKey::Global, StreamKey::Global) => true,
            (StreamKey::Session(left), StreamKey::Session(right)) => left == right,
            (StreamKey::Thread(left), StreamKey::Thread(right)) => left == right,
            (StreamKey::Worker(left), StreamKey::Worker(right)) => left == right,
            _ => false,
        }
    }
}

impl<S: AgentSchema> PartialEqSpecImpl for StreamKey<S> {
    open spec fn obeys_eq_spec() -> bool {
        &&& S::SessionId::obeys_eq_spec()
        &&& S::ThreadId::obeys_eq_spec()
        &&& S::WorkerId::obeys_eq_spec()
    }

    open spec fn eq_spec(&self, other: &Self) -> bool {
        same_stream(*self, *other)
    }
}

impl<S: AgentSchema> Eq for StreamKey<S> {

}

impl<S: AgentSchema> Clone for StreamKey<S> {
    fn clone(&self) -> (copy: Self)
        ensures
            match (*self, copy) {
                (StreamKey::Global, StreamKey::Global) => true,
                (StreamKey::Session(id), StreamKey::Session(id_copy)) => cloned(id, id_copy),
                (StreamKey::Thread(id), StreamKey::Thread(id_copy)) => cloned(id, id_copy),
                (StreamKey::Worker(id), StreamKey::Worker(id_copy)) => cloned(id, id_copy),
                _ => false,
            },
    {
        match self {
            StreamKey::Global => StreamKey::Global,
            StreamKey::Session(id) => StreamKey::Session(id.clone()),
            StreamKey::Thread(id) => StreamKey::Thread(id.clone()),
            StreamKey::Worker(id) => StreamKey::Worker(id.clone()),
        }
    }
}

/// Audience hint.
#[derive(Debug, Clone, Copy, Hash)]
pub enum EventVisibility {
    Internal,
    UserVisible,
    Both,
}

impl PartialEq for EventVisibility {
    fn eq(&self, other: &Self) -> (same: bool) {
        match (self, other) {
            (EventVisibility::Internal, EventVisibility::Internal) => true,
            (EventVisibility::UserVisible, EventVisibility::UserVisible) => true,
            (EventVisibility::Both, EventVisibility::Both) => true,
            _ => false,
        }
    }
}

impl PartialEqSpecImpl for EventVisibility {
    open spec fn obeys_eq_spec() -> bool {
        true
    }

    open spec fn eq_spec(&self, other: &Self) -> bool {
        *self == *other
    }
}

impl Eq for EventVisibility {

}

/// Transport record.
#[derive(Debug)]
pub struct Event<S: AgentSchema> {
    pub id: S::EventId,
    pub stream: StreamKey<S>,
    pub visibility: EventVisibility,
    pub occurred_at: SystemTime,
    pub payload: EventPayload<S>,
}

impl<S: AgentSchema + Clone> Clone for Event<S> {
    fn clone(&self) -> (copy: Self)
        ensures
            cloned(self.id, copy.id),
            cloned(self.stream, copy.stream),
            copy.visibility == self.visibility,
            copy.occurred_at == self.occurred_at,
            cloned(self.payload, copy.payload),
    {
        Event {
            id: self.id.clone(),
            stream: self.stream.clone(),
            visibility: self.visibility,
            occurred_at: self.occurred_at,
            payload: self.payload.clone(),
        }
    }
}

/// Top-level event domains.
#[derive(Debug, Clone)]
pub enum EventPayload<S: AgentSchema> {
    Interaction(InteractionEvent<S>),
    Execution(ExecutionEvent<S>),
    Presentation(PresentationEvent<S>),
    Error(ErrorEvent<S>),
}

/// What a subscriber wants to see.
#[derive(Debug)]
pub enum Filter<T> {
    Any,
    Only(Vec<T>),
}

/// Whether `==` on values of this type does what its specification says.
pub open spec fn equality_is_specified<T: PartialEq>() -> bool {
    T::obeys_eq_spec()
}

/// Whether two filters list equal values in the same order, or are both open.
pub open spec fn same_filter<T: PartialEq>(left: Filter<T>, right: Filter<T>) -> bool {
    match (left, right) {
        (Filter::Any, Filter::Any) => true,
        (Filter::Only(left), Filter::Only(right)) => {
            &&& left@.len() == right@.len()
            &&& forall|k: int| 0 <= k < left@.len() ==> (#[trigger] left@[k]).eq_spec(&right@[k])
        },
        _ => false,
    }
}

impl<T: PartialEq> PartialEq for Filter<T> {
    fn eq(&self, other: &Self) -> (same: bool) {
        match (self, other) {
            (Filter::Any, Filter::Any) => true,
            (Filter::Only(left), Filter::Only(right)) => {
                if left.len() != right.len() {
                    return false;
                }
                let mut i: usize = 0;
                while i < left.len()
                    invariant
                        i <= left.len(),
                        left.len() == right.len(),
                        *self == Filter::Only(*left),
                        *other == Filter::Only(*right),
                        T::obeys_eq_spec() ==> forall|k: int|
                            0 <= k < i ==> (#[trigger] left@[k]).eq_spec(&right@[k]),
                    decreases left.len() - i,
                {
                    if !(left[i] == right[i]) {
                        assert(T::obeys_eq_spec() ==> !left@[i as int].eq_spec(&right@[i as int]));
                        return false;
                    }
                    i += 1;
                }
                true
            },
            _ => false,
        }
    }
}

impl<T: PartialEq> PartialEqSpecImpl for Filter<T> {
    open spec fn obeys_eq_spec() -> bool {
        T::obeys_eq_spec()
    }

    open spec fn eq_spec(&self, other: &Self) -> bool {
        same_filter(*self, *other)
    }
}

impl<T: Eq> Eq for Filter<T> {

}

impl<T: Clone> Clone for Filter<T> {
    fn clone(&self) -> (copy: Self)
        ensures
            match (*self, copy) {
                (Filter::Any, Filter::Any) => true,
                (Filter::Only(values), Filter::Only(copies)) => {
                    &&& values@.len() == copies@.len()
                    &&& forall|k: int|
                        0 <= k < values@.len() ==> cloned(#[trigger] values@[k], copies@[k])
                },
                _ => false,
            },
    {
        match self {
            Filter::Any => Filter::Any,
            Filter::Only(values) => Filter::Only(values.clone()),
        }
    }
}

impl<T> Filter<T> {
    /// Everything.
    pub fn any() -> (filter: Self)
        ensures
            filter is Any,
    {
        Filter::Any
    }

    /// Only `values`.
    pub fn only(values: Vec<T>) -> (filter: Self)
        ensures
            filter == Filter::Only(values),
    {
        Filter::Only(values)
    }
}

/// Metadata subscription filter.
#[derive(Debug)]
pub struct Subscription<S: AgentSchema> {
    pub streams: Filter<StreamKey<S>>,
    pub visibility: Filter<EventVisibility>,
}

impl<S: AgentSchema> PartialEq for Subscription<S> {
    fn eq(&self, other: &Self) -> (same: bool) {
        self.streams == other.streams && self.visibility == other.visibility
    }
}

impl<S: AgentSchema> PartialEqSpecImpl for Subscription<S> {
    open spec fn obeys_eq_spec() -> bool {
        &&& equality_is_specified::<StreamKey<S>>()
        &&& equality_is_specified::<EventVisibility>()
    }

    open spec fn eq_spec(&self, other: &Self) -> bool {
        &&& same_filter(self.streams, other.streams)
        &&& same_filter(self.visibility, other.visibility)
    }
}

impl<S: AgentSchema> Eq for Subscription<S> {

}

impl<S: AgentSchema> Clone for Subscription<S> {
    fn clone(&self) -> (copy: Self)
        ensures
            cloned(self.streams, copy.streams),
            cloned(self.visibility, copy.visibility),
    {
        Subscription { streams: self.streams.clone(), visibility: self.visibility.clone() }
    }
}

impl<S: AgentSchema> Subscription<S> {
    /// Every event.
    pub fn all() -> (subscription: Self)
        ensures
            subscription.streams is Any,
            subscription.visibility is Any,
    {
        Subscription { streams: Filter::Any, visibility: Filter::Any }
    }

    /// Every event of one stream.
    pub fn for_stream(stream: StreamKey<S>) -> (subscription: Self)
        ensures
            subscription.streams matches Filter::Only(streams) && streams@ == seq![stream],
            subscription.visibility is Any,
    {
        let mut streams: Vec<StreamKey<S>> = Vec::new();
        streams.push(stream);
        Subscription { streams: Filter::Only(streams), visibility: Filter::Any }
    }
}

/// What went wrong.
#[derive(Debug)]
pub struct ErrorDescriptor {
    pub code: String,
    pub message: String,
    pub retryable: bool,
}

impl PartialEq for ErrorDescriptor {
    fn eq(&self, other: &Self) -> (same: bool) {
        self.code == other.code && self.message == other.message && self.retryable
            == other.retryable
    }
}

impl PartialEqSpecImpl for ErrorDescriptor {
    open spec fn obeys_eq_spec() -> bool {
        true
    }

    open spec fn eq_spec(&self, other: &Self) -> bool {
        same_error(*self, *other)
    }
}

/// Whether two descriptors say the same.
pub open spec fn same_error(left: ErrorDescriptor, right: ErrorDescriptor) -> bool {
    &&& left.code@ == right.code@
    &&& left.message@ == right.message@
    &&& left.retryable == right.retryable
}

impl Eq for ErrorDescriptor {

}

impl Clone for ErrorDescriptor {
    fn clone(&self) -> (copy: Self)
        ensures
            copy == *self,
    {
        ErrorDescriptor {
            code: self.code.clone(),
            message: self.message.clone(),
            retryable: self.retryable,
        }
    }
}

/// Uniform worker failure payload.
#[derive(Debug)]
pub struct ErrorEvent<S: AgentSchema> {
    pub worker_id: S::WorkerId,
    pub stream: StreamKey<S>,
    pub error: ErrorDescriptor,
}

impl<S: AgentSchema> PartialEq for ErrorEvent<S> {
    fn eq(&self, other: &Self) -> (same: bool) {
        self.worker_id == other.worker_id && self.stream == other.stream && self.error
            == other.error
    }
}

impl<S: AgentSchema> PartialEqSpecImpl for ErrorEvent<S> {
    open spec fn obeys_eq_spec() -> bool {
        equality_is_specified::<StreamKey<S>>()
    }

    open spec fn eq_spec(&self, other: &Self) -> bool {
        &&& self.worker_id.eq_spec(&other.worker_id)
        &&& same_stream(self.stream, other.stream)
        &&& same_error(self.error, other.error)
    }
}

impl<S: AgentSchema> Eq for ErrorEvent<S> {

}

impl<S: AgentSchema> Clone for ErrorEvent<S> {
    fn clone(&self) -> (copy: Self)
        ensures
            cloned(self.worker_id, copy.worker_id),
            cloned(self.stream, copy.stream),
            copy.error == self.error,
    {
        ErrorEvent {
            worker_id: self.worker_id.clone(),
            stream: self.stream.clone(),
            error: self.error.clone(),
        }
    }
}

#[verifier::external_type_specification]
#[verifier::external_body]
#[verifier::reject_recursive_types(P)]
pub struct ExPin<P>(std::pin::Pin<P>);

#[verifier::external_type_specification]
#[verifier::external_body]
pub struct ExContext<'a>(std::task::Context<'a>);

#[verifier::external_type_specification]
#[verifier::external_body]
#[verifier::reject_recursive_types(T)]
pub struct ExPoll<T>(std::task::Poll<T>);

/// A stream of events that is polled.
pub trait EventStream {
    type Item;

    type Error;

    fn poll_next(self: Pin<&mut Self>, cx: &mut Context<'_>) -> Poll<
        Result<Option<Self::Item>, Self::Error>,
    >;
}

/// Transport-agnostic event bus.
pub trait EventBus {
    type Event;

    type Subscription;

    type Error;

    type Stream<'a>: EventStream<Item = Self::Event, Error = Self::Error> + 'a where Self: 'a;

    type Publish<'a>: Future<Output = Result<(), Self::Error>> + 'a where Self: 'a;

    /// Publish an event to the subscribers of the bus.
    fn publish(&self, event: Self::Event) -> Self::Publish<'_>;

    /// Subscribe to matching events from the bus, or say why the bus cannot
    /// register the subscription.
    fn subscribe(&self, subscription: Self::Subscription) -> Result<Self::Stream<'_>, Self::Error>;
}

}
