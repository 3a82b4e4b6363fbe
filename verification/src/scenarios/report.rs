//! Parts that reports of scenarios have in common.

use crate::text::{decimal, decimal_text};
use vstd::prelude::*;

verus! {

/// The part of a scenario that a step belongs to.
#[derive(Debug, Clone, Copy, PartialEq, Eq, Structural)]
pub enum StepKind {
    Given,
    When,
    Then,
}

impl StepKind {
    /// The name of the part.
    pub open spec fn label(self) -> Seq<char> {
        match self {
            StepKind::Given => "Given"@,
            StepKind::When => "When"@,
            StepKind::Then => "Then"@,
        }
    }

    /// The name of the part.
    pub fn name(self) -> (name: &'static str)
        ensures
            name@ == self.label(),
    {
        match self {
            StepKind::Given => "Given",
            StepKind::When => "When",
            StepKind::Then => "Then",
        }
    }
}

/// The items on lines of their own, each with its number.
pub open spec fn numbered(items: Seq<Seq<char>>) -> Seq<char>
    decreases items.len(),
{
    if items.len() == 0 {
        Seq::empty()
    } else {
        numbered(items.drop_last()) + decimal(items.len()) + ". "@ + items.last() + "\n"@
    }
}

/// What a report says under `title`.
pub open spec fn listing(title: Seq<char>, items: Seq<Seq<char>>) -> Seq<char> {
    if items.len() == 0 {
        title + ": <none>"@
    } else {
        title + ":\n"@ + numbered(items)
    }
}

/// Write what a report says under `title`.
pub fn write_listing(title: &str, items: &Vec<String>) -> (text: String)
    ensures
        text@ == listing(title@, items.deep_view()),
{
    if items.len() == 0 {
        return title.to_string().concat(": <none>");
    }
    let ghost model = items.deep_view();
    let mut lines = String::new();
    let mut i: usize = 0;
    assert(model.take(0) =~= Seq::empty());
    while i < items.len()
        invariant
            i <= items.len(),
            model == items.deep_view(),
            lines@ == numbered(model.take(i as int)),
        decreases items.len() - i,
    {
        assert(model.take(i + 1).drop_last() =~= model.take(i as int));
        assert(model.take(i + 1).last() == items@[i as int]@);
        lines = lines.concat(decimal_text(i as u64 + 1).as_str()).concat(". ").concat(
            items[i].as_str(),
        ).concat("\n");
        i += 1;
    }
    assert(model.take(i as int) =~= model);
    title.to_string().concat(":\n").concat(lines.as_str())
}

/// What a report says of the step that failed.
pub open spec fn headline(scenario: Seq<char>, phase: StepKind, step: Seq<char>) -> Seq<char> {
    "Scenario `"@ + scenario + "` failed at "@ + phase.label() + " "@ + step + "\n"@
}

/// Write what a report says of the step that failed.
pub fn write_headline(scenario: &str, phase: StepKind, step: &str) -> (text: String)
    ensures
        text@ == headline(scenario@, phase, step@),
{
    "Scenario `".to_string().concat(scenario).concat("` failed at ").concat(phase.name()).concat(
        " ",
    ).concat(step).concat("\n")
}

/// The number of items that a report shows: at least one.
pub fn recent_limit(limit: usize) -> (shown: usize)
    ensures
        shown == if limit == 0 {
            1
        } else {
            limit
        },
{
    if limit == 0 {
        1
    } else {
        limit
    }
}

/// Where the last `limit` of `len` items begin.
pub open spec fn recent_start(len: int, limit: int) -> int {
    if len > limit {
        len - limit
    } else {
        0
    }
}

/// Summaries of the last `limit` items, in their order.
pub fn recent_summaries<T, F: Fn(&T) -> String>(items: &Vec<T>, limit: usize, summary: F) -> (
summaries: Vec<String>)
    requires
        forall|i: int|
            0 <= i < items@.len() ==> call_requires(summary, (&#[trigger] items@[i],)),
    ensures
        summaries@.len() == if items@.len() > limit {
            limit as int
        } else {
            items@.len() as int
        },
        summaries@.len() == items@.len() - recent_start(items@.len() as int, limit as int),
        forall|i: int|
            0 <= i < summaries@.len() ==> call_ensures(
                summary,
                (&items@[items@.len() - summaries@.len() + i],),
                #[trigger] summaries@[i],
            ),
        forall|i: int|
            0 <= i < summaries@.len() ==> call_ensures(
                summary,
                (&items@[recent_start(items@.len() as int, limit as int) + i],),
                #[trigger] summaries@[i],
            ),
{
    let start: usize = if items.len() > limit {
        items.len() - limit
    } else {
        0
    };
    let mut summaries: Vec<String> = Vec::new();
    let mut i: usize = start;
    while i < items.len()
        invariant
            start <= i <= items.len(),
            start == recent_start(items@.len() as int, limit as int),
            forall|k: int|
                0 <= k < items@.len() ==> call_requires(summary, (&#[trigger] items@[k],)),
            summaries@.len() == i - start,
            forall|k: int|
                0 <= k < i - start ==> call_ensures(
                    summary,
                    (&items@[start + k],),
                    #[trigger] summaries@[k],
                ),
        decreases items.len() - i,
    {
        let item = &items[i];
        let text = summary(item);
        assert(call_ensures(summary, (&items@[start + (i - start)],), text));
        summaries.push(text);
        i += 1;
    }
    summaries
}

/// Whether some item meets `predicate`.
pub fn any_matches<T, P: Fn(&T) -> bool>(items: &Vec<T>, predicate: P) -> (found: bool)
    requires
        forall|i: int|
            0 <= i < items@.len() ==> call_requires(predicate, (&#[trigger] items@[i],)),
    ensures
        found ==> exists|i: int|
            0 <= i < items@.len() && call_ensures(predicate, (&#[trigger] items@[i],), true),
        !found ==> forall|i: int|
            0 <= i < items@.len() ==> call_ensures(predicate, (&#[trigger] items@[i],), false),
{
    let mut i: usize = 0;
    while i < items.len()
        invariant
            i <= items.len(),
            forall|k: int|
                0 <= k < items@.len() ==> call_requires(predicate, (&#[trigger] items@[k],)),
            forall|k: int|
                0 <= k < i ==> call_ensures(predicate, (&#[trigger] items@[k],), false),
        decreases items.len() - i,
    {
        let item = &items[i];
        if predicate(item) {
            assert(call_ensures(predicate, (&items@[i as int],), true));
            return true;
        }
        i += 1;
    }
    false
}

/// What a scenario does while it waits.
#[derive(Debug)]
pub enum Expectation {
    Met,
    Wait,
    NotMet,
}

/// What a scenario does that has waited for `elapsed_nanos` nanoseconds.
pub fn expect_eventually(found: bool, elapsed_nanos: u128, timeout_nanos: u128) -> (expectation:
    Expectation)
    ensures
        expectation == if found {
            Expectation::Met
        } else if elapsed_nanos >= timeout_nanos {
            Expectation::NotMet
        } else {
            Expectation::Wait
        },
{
    if found {
        Expectation::Met
    } else if elapsed_nanos >= timeout_nanos {
        Expectation::NotMet
    } else {
        Expectation::Wait
    }
}

}
