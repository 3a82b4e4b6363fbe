//! Which events a subscriber of the in-memory bus sees.

use crate::agent::schema::AgentSchema;
use crate::agent::substrate::{
    equality_is_specified, same_stream, Event, EventVisibility, Filter, StreamKey, Subscription,
};
use crate::runtime_support::workers::{
    admits, is_equivalence, matches_filter, merged_filter_admits_both_sides, MergeSubscription,
};
use vstd::prelude::*;
use vstd::std_specs::cmp::PartialEqSpec;

verus! {

/// Why a subscriber gets no event.
#[derive(Debug, Clone, Copy, PartialEq, Eq, Structural)]
pub enum InMemoryEventBusError {
    Closed,
    Lagged(u64),
}

/// Whether a subscription covers an event on `stream` for `visibility`.
pub open spec fn covers<S: AgentSchema>(
    subscription: Subscription<S>,
    stream: StreamKey<S>,
    visibility: EventVisibility,
) -> bool {
    admits(subscription.streams, stream) && admits(subscription.visibility, visibility)
}

/// Whether a subscription covers an event on `stream` for `visibility`.
pub fn matches_subscription<S>(
    subscription: &Subscription<S>,
    stream: &StreamKey<S>,
    visibility: EventVisibility,
) -> (matched: bool) where S: AgentSchema
    ensures
        equality_is_specified::<StreamKey<S>>() ==> matched == covers(
            *subscription,
            *stream,
            visibility,
        ),
        subscription.streams is Any ==> matched == admits(subscription.visibility, visibility),
{
    matches_filter(&subscription.streams, stream) && matches_filter(
        &subscription.visibility,
        &visibility,
    )
}

/// What came out of the channel behind a subscriber.
#[derive(Debug)]
pub enum ChannelItem<S: AgentSchema> {
    Event(Event<S>),
    Lagged(u64),
    Ended,
}

/// What a subscriber is told of what came out of its channel, or nothing where it
/// goes on to the next.
pub fn receive<S>(subscription: &Subscription<S>, item: ChannelItem<S>) -> (told: Option<
    Result<Option<Event<S>>, InMemoryEventBusError>,
>) where S: AgentSchema
    ensures
        match item {
            ChannelItem::Event(event) => {
                let passed_on = Some(Ok::<Option<Event<S>>, InMemoryEventBusError>(Some(event)));
                &&& told is None || told == passed_on
                &&& subscription.streams is Any || equality_is_specified::<StreamKey<S>>() ==> (
                told == passed_on <==> covers(*subscription, event.stream, event.visibility))
            },
            ChannelItem::Lagged(skipped) => told == Some(
                Err::<Option<Event<S>>, InMemoryEventBusError>(
                    InMemoryEventBusError::Lagged(skipped),
                ),
            ),
            ChannelItem::Ended => told == Some(
                Ok::<Option<Event<S>>, InMemoryEventBusError>(None),
            ),
        },
{
    match item {
        ChannelItem::Event(event) => if matches_subscription(
            subscription,
            &event.stream,
            event.visibility,
        ) {
            Some(Ok(Some(event)))
        } else {
            None
        },
        ChannelItem::Lagged(skipped) => Some(Err(InMemoryEventBusError::Lagged(skipped))),
        ChannelItem::Ended => Some(Ok(None)),
    }
}

/// Whether `subscription` is the one for a single stream.
pub open spec fn is_for_stream<S: AgentSchema>(
    subscription: Subscription<S>,
    stream: StreamKey<S>,
) -> bool {
    &&& subscription.streams matches Filter::Only(streams)
    &&& streams@ == seq![stream]
    &&& subscription.visibility is Any
}

/// The subscription for a stream covers the events of that stream, whatever their
/// visibility, and no others. Streams of different kinds are never the same.
pub proof fn stream_subscription_covers_its_stream<S: AgentSchema>(
    subscription: Subscription<S>,
    stream: StreamKey<S>,
    other: StreamKey<S>,
    visibility: EventVisibility,
)
    requires
        is_for_stream(subscription, stream),
    ensures
        covers(subscription, other, visibility) <==> same_stream(stream, other),
        same_stream(stream, other) ==> {
            ||| stream is Global && other is Global
            ||| stream is Session && other is Session
            ||| stream is Thread && other is Thread
            ||| stream is Worker && other is Worker
        },
{
    let streams = subscription.streams->Only_0;
    assert(streams@[0] == stream);
    if same_stream(stream, other) {
        assert(streams@[0].eq_spec(&other));
    }
}

/// A merged subscription covers every event that one of its sides covers.
pub proof fn merged_subscription_covers_both_sides<S: AgentSchema>(
    left: Subscription<S>,
    right: Subscription<S>,
    merged: Subscription<S>,
    stream: StreamKey<S>,
    visibility: EventVisibility,
)
    requires
        equality_is_specified::<StreamKey<S>>(),
        is_equivalence::<StreamKey<S>>(),
        <Subscription<S> as MergeSubscription>::merges(left, right, merged),
        covers(left, stream, visibility) || covers(right, stream, visibility),
    ensures
        covers(merged, stream, visibility),
{
    merged_filter_admits_both_sides(left.streams, right.streams, merged.streams, stream);
    merged_filter_admits_both_sides(
        left.visibility,
        right.visibility,
        merged.visibility,
        visibility,
    );
}

/// A subscription covers an event where its stream is one of those that it lists and its
/// visibility is too; an open filter leaves nothing out.
pub proof fn subscription_covers_what_it_lists<S: AgentSchema>(
    subscription: Subscription<S>,
    stream: StreamKey<S>,
    visibility: EventVisibility,
)
    ensures
        covers(subscription, stream, visibility) <==> {
            &&& subscription.streams matches Filter::Only(streams) ==> exists|i: int|
                0 <= i < streams@.len() && (#[trigger] streams@[i]).eq_spec(&stream)
            &&& subscription.visibility matches Filter::Only(visibilities) ==> exists|i: int|
                0 <= i < visibilities@.len() && #[trigger] visibilities@[i] == visibility
        },
{
    if let Filter::Only(visibilities) = subscription.visibility {
        assert(forall|i: int|
            0 <= i < visibilities@.len() ==> ((#[trigger] visibilities@[i]).eq_spec(&visibility)
                <==> visibilities@[i] == visibility));
    }
}

}
