//! What holds of identifiers and of merged subscriptions.

use crate::agent::schema::AgentSchema;
use crate::agent::substrate::{equality_is_specified, StreamKey, Subscription};
use crate::runtime_support::ids::{LabelId, UuidId};
use crate::runtime_support::workers::{
    is_equivalence, merged_filter_lists_both_sides, new_places, visibilities_are_an_equivalence,
    MergeSubscription,
};
use vstd::prelude::*;
use vstd::std_specs::cmp::PartialEqSpec;
use vstd::std_specs::convert::FromSpec;

verus! {

/// Two identifiers are the same exactly where their bits or their labels are, and `==`
/// says so.
pub proof fn identifiers_are_told_apart<Tag>(
    id: UuidId<Tag>,
    other: UuidId<Tag>,
    label: LabelId<Tag>,
    other_label: LabelId<Tag>,
)
    ensures
        UuidId::<Tag>::obeys_eq_spec(),
        id.eq_spec(&other) <==> id.value == other.value,
        LabelId::<Tag>::obeys_eq_spec(),
        label.eq_spec(&other_label) <==> label.label@ == other_label.label@,
{
}

/// An identifier that is made of bits or of a text holds them.
pub proof fn identifiers_hold_what_they_are_made_of<Tag>(
    value: u128,
    label: &'static str,
    text: String,
)
    ensures
        <UuidId<Tag> as FromSpec<u128>>::obeys_from_spec(),
        <UuidId<Tag> as FromSpec<u128>>::from_spec(value).value == value,
        <LabelId<Tag> as FromSpec<&'static str>>::obeys_from_spec(),
        <LabelId<Tag> as FromSpec<&'static str>>::from_spec(label).label@ == label@,
        <LabelId<Tag> as FromSpec<String>>::obeys_from_spec(),
        <LabelId<Tag> as FromSpec<String>>::from_spec(text).label@ == text@,
{
}

/// A merged subscription is open to all streams, or to all visibilities, exactly where
/// one of its sides is. Otherwise it lists what the first side lists, and behind it what
/// only the second side lists, each in its order.
pub proof fn merged_subscription_lists_both_sides<S: AgentSchema>(
    left: Subscription<S>,
    right: Subscription<S>,
    merged: Subscription<S>,
)
    requires
        equality_is_specified::<StreamKey<S>>(),
        is_equivalence::<StreamKey<S>>(),
        <Subscription<S> as MergeSubscription>::merges(left, right, merged),
    ensures
        merged.streams is Any <==> left.streams is Any || right.streams is Any,
        merged.visibility is Any <==> left.visibility is Any || right.visibility is Any,
        merged.streams is Only ==> merged.streams->Only_0@ == left.streams->Only_0@ + new_places(
            left.streams->Only_0@,
            right.streams->Only_0@,
        ).map_values(|place: int| right.streams->Only_0@[place]),
        merged.visibility is Only ==> merged.visibility->Only_0@ == left.visibility->Only_0@
            + new_places(left.visibility->Only_0@, right.visibility->Only_0@).map_values(
            |place: int| right.visibility->Only_0@[place],
        ),
{
    visibilities_are_an_equivalence();
    merged_filter_lists_both_sides(left.streams, right.streams, merged.streams);
    merged_filter_lists_both_sides(left.visibility, right.visibility, merged.visibility);
}

}
