//! Two workers behind one slot, and the envelope of published events.

use crate::agent::runtime::Worker;
use crate::agent::schema::{AgentIds, AgentSchema};
use crate::agent::substrate::{
    same_filter, Event, EventPayload, EventVisibility, Filter, StreamKey, Subscription,
};
use crate::automations::clock::system_time;
use crate::runtime_support::ids::{LabelId, UuidId};
use vstd::prelude::*;
use vstd::std_specs::cmp::PartialEqSpec;

verus! {

/// Whether some of `values` equals `value`.
pub open spec fn listed<T: PartialEq>(values: Seq<T>, value: T) -> bool {
    exists|i: int| 0 <= i < values.len() && (#[trigger] values[i]).eq_spec(&value)
}

/// `left` with those of `right` at its end that it does not list yet.
pub open spec fn merged_values<T: PartialEq>(left: Seq<T>, right: Seq<T>) -> Seq<T>
    decreases right.len(),
{
    if right.len() == 0 {
        left
    } else {
        let merged = merged_values(left, right.drop_last());
        if listed(merged, right.last()) {
            merged
        } else {
            merged.push(right.last())
        }
    }
}

/// Whether `merged` is what two filters have together: open if one of them is, and
/// otherwise the values of both.
pub open spec fn merges_filters<T: PartialEq>(
    left: Filter<T>,
    right: Filter<T>,
    merged: Filter<T>,
) -> bool {
    match (left, right) {
        (Filter::Only(left), Filter::Only(right)) => merged matches Filter::Only(values)
            && values@ == merged_values(left@, right@),
        _ => merged is Any,
    }
}

/// Whether a filter lets `value` through.
pub open spec fn admits<T: PartialEq>(filter: Filter<T>, value: T) -> bool {
    match filter {
        Filter::Any => true,
        Filter::Only(values) => listed(values@, value),
    }
}

/// Whether `==` is an equivalence on this type.
pub open spec fn is_equivalence<T: PartialEq>() -> bool {
    &&& forall|a: T| #[trigger] a.eq_spec(&a)
    &&& forall|a: T, b: T| #[trigger] a.eq_spec(&b) ==> b.eq_spec(&a)
    &&& forall|a: T, b: T, c: T|
        #[trigger] a.eq_spec(&b) && #[trigger] b.eq_spec(&c) ==> a.eq_spec(&c)
}

/// Stream keys are an equivalence where their identifiers are.
pub proof fn stream_keys_are_an_equivalence<S: AgentSchema>()
    requires
        is_equivalence::<S::SessionId>(),
        is_equivalence::<S::ThreadId>(),
        is_equivalence::<S::WorkerId>(),
    ensures
        is_equivalence::<StreamKey<S>>(),
{
    assert forall|a: StreamKey<S>, b: StreamKey<S>, c: StreamKey<S>| #[trigger]
        PartialEqSpec::eq_spec(&a, &b) && #[trigger] PartialEqSpec::eq_spec(
        &b,
        &c,
    ) implies PartialEqSpec::eq_spec(&a, &c) by {
        match (a, b, c) {
            (StreamKey::Session(x), StreamKey::Session(y), StreamKey::Session(z)) => {
                assert(x.eq_spec(&y) && y.eq_spec(&z));
            },
            (StreamKey::Thread(x), StreamKey::Thread(y), StreamKey::Thread(z)) => {
                assert(x.eq_spec(&y) && y.eq_spec(&z));
            },
            (StreamKey::Worker(x), StreamKey::Worker(y), StreamKey::Worker(z)) => {
                assert(x.eq_spec(&y) && y.eq_spec(&z));
            },
            _ => {},
        }
    }
}

/// Identifiers of the default bundle are an equivalence.
pub proof fn default_ids_are_an_equivalence<Tag>()
    ensures
        is_equivalence::<UuidId<Tag>>(),
        is_equivalence::<LabelId<Tag>>(),
{
}

proof fn lemma_merged_values<T: PartialEq>(left: Seq<T>, right: Seq<T>, value: T)
    requires
        is_equivalence::<T>(),
    ensures
        listed(merged_values(left, right), value) <==> listed(left, value) || listed(right, value),
    decreases right.len(),
{
    if right.len() > 0 {
        let rest = right.drop_last();
        let last = right.last();
        let before = merged_values(left, rest);
        let merged = merged_values(left, right);
        lemma_merged_values(left, rest, value);
        assert(listed(right, value) <==> listed(rest, value) || last.eq_spec(&value)) by {
            if listed(right, value) {
                let i = choose|i: int|
                    0 <= i < right.len() && (#[trigger] right[i]).eq_spec(&value);
                if i < rest.len() {
                    assert(rest[i] == right[i]);
                }
            }
            if listed(rest, value) {
                let i = choose|i: int| 0 <= i < rest.len() && (#[trigger] rest[i]).eq_spec(&value);
                assert(right[i] == rest[i]);
            }
            assert(right[right.len() - 1] == last);
        }
        if listed(before, last) {
            if last.eq_spec(&value) {
                let i = choose|i: int|
                    0 <= i < before.len() && (#[trigger] before[i]).eq_spec(&last);
                assert(before[i].eq_spec(&value));
            }
        } else {
            assert(listed(merged, value) <==> listed(before, value) || last.eq_spec(&value)) by {
                if listed(merged, value) {
                    let i = choose|i: int|
                        0 <= i < merged.len() && (#[trigger] merged[i]).eq_spec(&value);
                    if i < before.len() {
                        assert(before[i] == merged[i]);
                    }
                }
                if listed(before, value) {
                    let i = choose|i: int|
                        0 <= i < before.len() && (#[trigger] before[i]).eq_spec(&value);
                    assert(merged[i] == before[i]);
                }
                assert(merged[before.len() as int] == last);
            }
        }
    }
}

/// Merged filters let through exactly what one of them lets through.
pub proof fn merged_filter_admits_both_sides<T: PartialEq>(
    left: Filter<T>,
    right: Filter<T>,
    merged: Filter<T>,
    value: T,
)
    requires
        is_equivalence::<T>(),
        merges_filters(left, right, merged),
    ensures
        admits(merged, value) <==> admits(left, value) || admits(right, value),
{
    match (left, right) {
        (Filter::Only(left), Filter::Only(right)) => {
            lemma_merged_values(left@, right@, value);
        },
        _ => {},
    }
}

/// Whether no two of `values` are equal.
pub open spec fn are_distinct<T: PartialEq>(values: Seq<T>) -> bool {
    forall|i: int, j: int|
        #![trigger values[i], values[j]]
        0 <= i < values.len() && 0 <= j < values.len() && i != j ==> !values[i].eq_spec(&values[j])
}

/// The places in `right` of the values that `left` and `right` up to there do not
/// list: where each of its new values comes first.
pub open spec fn new_places<T: PartialEq>(left: Seq<T>, right: Seq<T>) -> Seq<int>
    decreases right.len(),
{
    if right.len() == 0 {
        Seq::empty()
    } else {
        let earlier = new_places(left, right.drop_last());
        if listed(left, right.last()) || listed(right.drop_last(), right.last()) {
            earlier
        } else {
            earlier.push(right.len() - 1)
        }
    }
}

/// The values of `left` come first, in their order. Behind them comes each new value
/// of `right` once, in the order in which these come first there. Where `left` lists
/// nothing twice, neither do they together.
pub proof fn merged_values_keep_their_order<T: PartialEq>(left: Seq<T>, right: Seq<T>)
    requires
        is_equivalence::<T>(),
    ensures
        merged_values(left, right) == left + new_places(left, right).map_values(
            |place: int| right[place],
        ),
        forall|k: int|
            0 <= k < new_places(left, right).len() ==> {
                let place = #[trigger] new_places(left, right)[k];
                &&& 0 <= place < right.len()
                &&& !listed(left, right[place])
                &&& !listed(right.take(place), right[place])
            },
        forall|j: int, k: int|
            0 <= j < k < new_places(left, right).len() ==> #[trigger] new_places(left, right)[j]
                < #[trigger] new_places(left, right)[k],
        are_distinct(left) ==> are_distinct(merged_values(left, right)),
    decreases right.len(),
{
    if right.len() == 0 {
        assert(left + new_places(left, right).map_values(|place: int| right[place]) =~= left);
    } else {
        let rest = right.drop_last();
        let last = right.last();
        let earlier = new_places(left, rest);
        let places = new_places(left, right);
        let before = merged_values(left, rest);
        let merged = merged_values(left, right);
        merged_values_keep_their_order(left, rest);
        lemma_merged_values(left, rest, last);
        assert forall|k: int| 0 <= k < earlier.len() implies #[trigger] rest[earlier[k]]
            == right[earlier[k]] && rest.take(earlier[k]) =~= right.take(earlier[k]) by {}
        assert(earlier.map_values(|place: int| rest[place]) =~= earlier.map_values(
            |place: int| right[place],
        ));
        assert(right.take(right.len() - 1) =~= rest);
        if listed(before, last) {
            assert(places == earlier);
        } else {
            assert(places == earlier.push(right.len() - 1));
            assert(places.map_values(|place: int| right[place]) =~= earlier.map_values(
                |place: int| right[place],
            ).push(last));
            if are_distinct(left) {
                assert forall|i: int, j: int|
                    #![trigger merged[i], merged[j]]
                    0 <= i < merged.len() && 0 <= j < merged.len() && i != j implies !merged[i].eq_spec(
                    &merged[j],
                ) by {
                    if i < before.len() && j < before.len() {
                        assert(merged[i] == before[i] && merged[j] == before[j]);
                    } else if i < before.len() {
                        assert(merged[i] == before[i]);
                    } else {
                        assert(merged[j] == before[j]);
                        if last.eq_spec(&before[j]) {
                            assert(before[j].eq_spec(&last));
                        }
                    }
                }
            }
        }
        assert forall|k: int| 0 <= k < places.len() implies {
            let place = #[trigger] places[k];
            &&& 0 <= place < right.len()
            &&& !listed(left, right[place])
            &&& !listed(right.take(place), right[place])
        } by {
            if k < earlier.len() {
                assert(places[k] == earlier[k]);
                assert(rest[earlier[k]] == right[earlier[k]]);
                assert(rest.take(earlier[k]) =~= right.take(earlier[k]));
            }
        }
    }
}

/// Merged filters are open exactly where one of them is, and otherwise list the
/// values of both in order.
pub proof fn merged_filter_lists_both_sides<T: PartialEq>(
    left: Filter<T>,
    right: Filter<T>,
    merged: Filter<T>,
)
    requires
        is_equivalence::<T>(),
        merges_filters(left, right, merged),
    ensures
        merged is Any <==> left is Any || right is Any,
        match (left, right) {
            (Filter::Only(left), Filter::Only(right)) => merged matches Filter::Only(values) && {
                &&& values@ == left@ + new_places(left@, right@).map_values(
                    |place: int| right@[place],
                )
                &&& are_distinct(left@) ==> are_distinct(values@)
            },
            _ => true,
        },
        forall|value: T| #[trigger]
            admits(merged, value) <==> admits(left, value) || admits(right, value),
{
    assert forall|value: T| #[trigger] admits(merged, value) <==> admits(left, value) || admits(
        right,
        value,
    ) by {
        merged_filter_admits_both_sides(left, right, merged, value);
    }
    match (left, right) {
        (Filter::Only(left), Filter::Only(right)) => {
            merged_values_keep_their_order(left@, right@);
        },
        _ => {},
    }
}

/// A filter for some values lets exactly these through: one for none lets nothing
/// through, and is not the open filter, which lets everything through.
pub proof fn only_filter_admits_its_values<T: PartialEq>(values: Vec<T>, value: T)
    ensures
        admits(Filter::Only(values), value) <==> exists|i: int|
            0 <= i < values@.len() && (#[trigger] values@[i]).eq_spec(&value),
        values@.len() == 0 ==> !admits(Filter::Only(values), value),
        admits(Filter::<T>::Any, value),
        Filter::Only(values) != Filter::<T>::Any,
        !same_filter(Filter::Only(values), Filter::<T>::Any),
{
}

/// Visibilities are an equivalence: each equals itself alone.
pub proof fn visibilities_are_an_equivalence()
    ensures
        is_equivalence::<EventVisibility>(),
        forall|a: EventVisibility, b: EventVisibility| #[trigger] a.eq_spec(&b) <==> a == b,
{
}

/// What two filters have together.
pub fn merge_filter<T: Eq>(left: Filter<T>, right: Filter<T>) -> (merged: Filter<T>)
    ensures
        T::obeys_eq_spec() ==> merges_filters(left, right, merged),
        left is Any || right is Any ==> merged is Any,
        left is Only && right is Only ==> merged is Only,
{
    match (left, right) {
        (Filter::Only(left_values), Filter::Only(right_values)) => {
            let ghost listed_first = left_values@;
            let ghost added = right_values@;
            let mut values = left_values;
            let mut rest = right_values;
            let ghost mut taken: int = 0;
            assert(added.take(0) =~= Seq::empty());
            assert(added.skip(0) =~= added);
            while rest.len() > 0
                invariant
                    0 <= taken <= added.len(),
                    rest@ == added.skip(taken),
                    T::obeys_eq_spec() ==> values@ == merged_values(
                        listed_first,
                        added.take(taken),
                    ),
                decreases rest.len(),
            {
                let value = rest.remove(0);
                proof {
                    assert(value == added[taken]);
                    assert(rest@ =~= added.skip(taken + 1));
                    assert(added.take(taken + 1).drop_last() =~= added.take(taken));
                }
                if !contains_value(&values, &value) {
                    values.push(value);
                }
                proof {
                    taken = taken + 1;
                }
            }
            assert(added.take(taken) =~= added);
            Filter::Only(values)
        },
        _ => Filter::Any,
    }
}

fn contains_value<T: PartialEq>(values: &Vec<T>, value: &T) -> (contained: bool)
    ensures
        T::obeys_eq_spec() ==> contained == listed(values@, *value),
{
    let mut i: usize = 0;
    while i < values.len()
        invariant
            i <= values.len(),
            T::obeys_eq_spec() ==> forall|k: int|
                0 <= k < i ==> !(#[trigger] values@[k]).eq_spec(value),
        decreases values.len() - i,
    {
        if values[i] == *value {
            assert(T::obeys_eq_spec() ==> values@[i as int].eq_spec(value));
            return true;
        }
        i += 1;
    }
    false
}

/// Whether a filter lets `value` through.
pub fn matches_filter<T: PartialEq>(filter: &Filter<T>, value: &T) -> (matched: bool)
    ensures
        T::obeys_eq_spec() ==> matched == admits(*filter, *value),
        filter is Any ==> matched,
{
    match filter {
        Filter::Any => true,
        Filter::Only(values) => contains_value(values, value),
    }
}

/// Subscriptions that can be put together.
pub trait MergeSubscription: Sized {
    /// Whether `merged` is what two subscriptions have together.
    open spec fn merges(left: Self, right: Self, merged: Self) -> bool {
        true
    }

    /// What two subscriptions have together.
    fn merge(left: Self, right: Self) -> (merged: Self)
        ensures
            Self::merges(left, right, merged),
    ;
}

impl<S> MergeSubscription for Subscription<S> where S: AgentSchema {
    open spec fn merges(left: Self, right: Self, merged: Self) -> bool {
        &&& crate::agent::substrate::equality_is_specified::<StreamKey<S>>() ==> merges_filters(
            left.streams,
            right.streams,
            merged.streams,
        )
        &&& merges_filters(left.visibility, right.visibility, merged.visibility)
        &&& left.streams is Any || right.streams is Any ==> merged.streams is Any
        &&& left.streams is Only && right.streams is Only ==> merged.streams is Only
    }

    fn merge(left: Self, right: Self) -> (merged: Self) {
        Subscription {
            streams: merge_filter(left.streams, right.streams),
            visibility: merge_filter(left.visibility, right.visibility),
        }
    }
}

/// Run two bus workers behind one slot.
#[derive(Debug, Clone)]
pub struct ConcurrentBusWorkers<W, A, B> {
    pub worker_id: W,
    pub left: A,
    pub right: B,
}

impl<W, A, B> ConcurrentBusWorkers<W, A, B> {
    /// Two workers under one name.
    pub fn new(worker_id: W, left: A, right: B) -> (workers: Self)
        ensures
            workers == (ConcurrentBusWorkers { worker_id, left, right }),
    {
        ConcurrentBusWorkers { worker_id, left, right }
    }

    /// The first worker.
    pub fn left(&self) -> (left: &A)
        ensures
            *left == self.left,
    {
        &self.left
    }

    /// The second worker.
    pub fn right(&self) -> (right: &B)
        ensures
            *right == self.right,
    {
        &self.right
    }
}

impl<W, A, B> Worker for ConcurrentBusWorkers<W, A, B> where
    W: Clone,
    A: Worker<WorkerId = W>,
    B: Worker<WorkerId = W, Subscription = A::Subscription>,
    A::Subscription: MergeSubscription,
 {
    type WorkerId = W;

    type Subscription = A::Subscription;

    fn worker_id(&self) -> (worker_id: W)
        ensures
            cloned(self.worker_id, worker_id),
    {
        self.worker_id.clone()
    }

    /// What the two workers subscribe to together.
    fn subscription(&self) -> (subscription: A::Subscription)
        ensures
            exists|left: A::Subscription, right: A::Subscription|
                {
                    &&& call_ensures(A::subscription, (&self.left,), left)
                    &&& call_ensures(B::subscription, (&self.right,), right)
                    &&& #[trigger] <A::Subscription as MergeSubscription>::merges(
                        left,
                        right,
                        subscription,
                    )
                },
    {
        let left = self.left.subscription();
        let right = self.right.subscription();
        <A::Subscription as MergeSubscription>::merge(left, right)
    }
}

/// The event with a fresh envelope around `payload`.
pub fn fresh_event<S>(
    stream: StreamKey<S>,
    visibility: EventVisibility,
    payload: EventPayload<S>,
) -> (event: Event<S>) where S: AgentSchema, S::Ids: AgentIds<EventId = S::EventId>
    ensures
        event.stream == stream,
        event.visibility == visibility,
        event.payload == payload,
        call_ensures(<S as AgentSchema>::next_event_id, (), event.id),
{
    Event { id: S::next_event_id(), stream, visibility, occurred_at: system_time(), payload }
}

}
