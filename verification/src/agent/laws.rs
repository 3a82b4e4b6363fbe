//! What it takes for streams, filters and errors to be the same.

use crate::agent::schema::AgentSchema;
use crate::agent::substrate::{
    equality_is_specified, ErrorDescriptor, ErrorEvent, EventVisibility, Filter, StreamKey,
    Subscription,
};
use vstd::prelude::*;
use vstd::std_specs::cmp::PartialEqSpec;

verus! {

/// Two streams are the same where they are of one kind and have the same name. The
/// stream for everything is the same as itself alone.
pub proof fn streams_are_told_apart<S: AgentSchema>(
    stream: StreamKey<S>,
    session_id: S::SessionId,
    thread_id: S::ThreadId,
    worker_id: S::WorkerId,
)
    ensures
        stream.eq_spec(&StreamKey::Global) <==> stream is Global,
        stream.eq_spec(&StreamKey::Session(session_id)) <==> (stream matches StreamKey::Session(
            other,
        ) && other.eq_spec(&session_id)),
        stream.eq_spec(&StreamKey::Thread(thread_id)) <==> (stream matches StreamKey::Thread(other)
            && other.eq_spec(&thread_id)),
        stream.eq_spec(&StreamKey::Worker(worker_id)) <==> (stream matches StreamKey::Worker(other)
            && other.eq_spec(&worker_id)),
{
}

/// Two errors are the same where all that they say is, and two subscriptions where both
/// of their filters are: open ones, or lists of the same values in the same order.
pub proof fn descriptions_are_told_apart<S: AgentSchema>(
    error: ErrorDescriptor,
    other_error: ErrorDescriptor,
    event: ErrorEvent<S>,
    other_event: ErrorEvent<S>,
    subscription: Subscription<S>,
    other: Subscription<S>,
)
    ensures
        error.eq_spec(&other_error) <==> error.code@ == other_error.code@ && error.message@
            == other_error.message@ && error.retryable == other_error.retryable,
        event.eq_spec(&other_event) <==> event.worker_id.eq_spec(&other_event.worker_id)
            && event.stream.eq_spec(&other_event.stream) && event.error.eq_spec(
            &other_event.error,
        ),
        subscription.eq_spec(&other) <==> subscription.streams.eq_spec(&other.streams)
            && subscription.visibility.eq_spec(&other.visibility),
{
}

/// Two filters are the same where both are open, or both list as many values and each is
/// the same as the one at its place in the other list.
pub proof fn filters_are_told_apart<T: PartialEq>(left: Filter<T>, right: Filter<T>)
    ensures
        match (left, right) {
            (Filter::Any, Filter::Any) => left.eq_spec(&right),
            (Filter::Only(some), Filter::Only(others)) => left.eq_spec(&right) <==> (some@.len()
                == others@.len() && (forall|k: int|
                0 <= k < some@.len() ==> (#[trigger] some@[k]).eq_spec(&others@[k]))),
            _ => !left.eq_spec(&right),
        },
{
}

/// What `==` says of streams, filters, subscriptions and errors is known wherever it is
/// known of the identifiers in them.
pub proof fn equality_is_known_from_the_parts<S: AgentSchema, T: PartialEq>()
    ensures
        StreamKey::<S>::obeys_eq_spec() <==> S::SessionId::obeys_eq_spec()
            && S::ThreadId::obeys_eq_spec() && S::WorkerId::obeys_eq_spec(),
        EventVisibility::obeys_eq_spec(),
        Filter::<T>::obeys_eq_spec() <==> T::obeys_eq_spec(),
        Subscription::<S>::obeys_eq_spec() <==> StreamKey::<S>::obeys_eq_spec(),
        ErrorDescriptor::obeys_eq_spec(),
        ErrorEvent::<S>::obeys_eq_spec() <==> StreamKey::<S>::obeys_eq_spec(),
        equality_is_specified::<T>() <==> T::obeys_eq_spec(),
{
}

}
