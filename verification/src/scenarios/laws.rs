//! What holds of the reports of scenarios.

use crate::agent::schema::AgentSchema;
use crate::agent::substrate::{Event, EventPayload, EventVisibility, StreamKey};
use crate::scenarios::automations;
use crate::scenarios::bus::{
    self, cut, cuts_cleanly, event_summary, is_first_finished, issue_of_worker, squeezed,
    TrackedTask, WorkerOutcomeModel,
};
use crate::scenarios::report::{headline, listing, numbered, recent_start, StepKind};
use crate::telegram::client::is_white_space;
use crate::text::decimal;
use vstd::prelude::*;
use vstd::utf8::{decode_utf8, encode_utf8, is_char_boundary};

verus! {

/// A report names the scenario, the part of it and the step that failed.
pub proof fn reports_name_the_step(scenario: Seq<char>, step: Seq<char>)
    ensures
        headline(scenario, StepKind::Given, step) == "Scenario `"@ + scenario + "` failed at "@
            + "Given"@ + " "@ + step + "\n"@,
        headline(scenario, StepKind::When, step) == "Scenario `"@ + scenario + "` failed at "@
            + "When"@ + " "@ + step + "\n"@,
        headline(scenario, StepKind::Then, step) == "Scenario `"@ + scenario + "` failed at "@
            + "Then"@ + " "@ + step + "\n"@,
{
}

/// A listing shows every item on a line of its own, in order and counted from one; where
/// there is none it says so.
pub proof fn listings_show_every_item(title: Seq<char>, items: Seq<Seq<char>>, item: Seq<char>)
    ensures
        listing(title, Seq::empty()) == title + ": <none>"@,
        listing(title, seq![item]) == title + ":\n"@ + "1"@ + ". "@ + item + "\n"@,
        items.len() > 0 ==> listing(title, items.push(item)) == listing(title, items) + decimal(
            items.len() + 1,
        ) + ". "@ + item + "\n"@,
{
    assert(items.push(item).drop_last() =~= items);
    assert(seq![item].drop_last() =~= Seq::empty());
    reveal_strlit("1");
    assert(decimal(1) =~= "1"@);
    assert(numbered(seq![item].drop_last()) =~= Seq::empty());
    assert(seq![item].last() == item);
    assert(numbered(seq![item]) =~= "1"@ + ". "@ + item + "\n"@);
    assert(title + ":\n"@ + numbered(seq![item]) =~= title + ":\n"@ + "1"@ + ". "@ + item + "\n"@);
    if items.len() > 0 {
        assert(title + ":\n"@ + numbered(items.push(item)) =~= title + ":\n"@ + numbered(items)
            + decimal(items.len() + 1) + ". "@ + item + "\n"@);
    }
}

/// The items that a report shows are the last ones: as many as it may show, or all of
/// them where there are fewer.
pub proof fn last_items_are_shown(len: nat, limit: nat)
    ensures
        0 <= recent_start(len as int, limit as int) <= len,
        limit <= len ==> recent_start(len as int, limit as int) + limit == len,
        len <= limit ==> recent_start(len as int, limit as int) == 0,
{
}

/// Each issue on a bus is reported with what went wrong, and with the events that came
/// last behind it.
pub proof fn bus_issues_are_reported(
    label: Seq<char>,
    text: Seq<char>,
    recent_events: Seq<Seq<char>>,
)
    ensures
        (bus::ScenarioIssueModel::PublishFailed { message: text, recent_events }).report()
            == "publish failed: "@ + text + "\n"@ + listing("recent events"@, recent_events),
        (bus::ScenarioIssueModel::ExpectationNotMet { expectation: text, recent_events }).report()
            == "expectation not met: "@ + text + "\n"@ + listing("recent events"@, recent_events),
        (bus::ScenarioIssueModel::WorkerExited { label, recent_events }).report() == "worker `"@
            + label + "` exited unexpectedly\n"@ + listing("recent events"@, recent_events),
        (bus::ScenarioIssueModel::WorkerFailed { label, message: text, recent_events }).report()
            == "worker `"@ + label + "` returned an error: "@ + text + "\n"@ + listing(
            "recent events"@,
            recent_events,
        ),
        (bus::ScenarioIssueModel::WorkerPanicked { label, message: text, recent_events }).report()
            == "worker `"@ + label + "` panicked: "@ + text + "\n"@ + listing(
            "recent events"@,
            recent_events,
        ),
{
}

/// Each issue with automations is reported with what went wrong, and an expectation that
/// was not met with the traces that came last behind it.
pub proof fn automation_issues_are_reported(text: Seq<char>, recent_traces: Seq<Seq<char>>)
    ensures
        (automations::ScenarioIssueModel::ActionFailed(text)).report() == "action failed: "@ + text,
        (automations::ScenarioIssueModel::ExpectationNotMet {
            expectation: text,
            recent_traces,
        }).report() == "expectation not met: "@ + text + "\n"@ + listing(
            "recent traces"@,
            recent_traces,
        ),
        (automations::ScenarioIssueModel::WorldFailed(text)).report() == "world failed: "@ + text,
{
}

/// A worker that ended is an issue under its own name, with how it ended.
pub proof fn ended_workers_are_reported(
    label: Seq<char>,
    message: Seq<char>,
    recent_events: Seq<Seq<char>>,
)
    ensures
        issue_of_worker(label, WorkerOutcomeModel::Exited, recent_events) == (
        bus::ScenarioIssueModel::WorkerExited { label, recent_events }),
        issue_of_worker(label, WorkerOutcomeModel::Failed(message), recent_events) == (
        bus::ScenarioIssueModel::WorkerFailed { label, message, recent_events }),
        issue_of_worker(label, WorkerOutcomeModel::Panicked(message), recent_events) == (
        bus::ScenarioIssueModel::WorkerPanicked { label, message, recent_events }),
{
}

/// The worker that is taken out has ended, and no worker before it has.
pub proof fn first_ended_worker_is_taken<H>(tasks: Seq<TrackedTask<H>>, p: int, i: int)
    requires
        is_first_finished(tasks, p),
        0 <= i < tasks.len(),
        tasks[i].finished,
    ensures
        0 <= p <= i,
        tasks[p].finished,
{
}

proof fn lemma_white_space_is_dropped(text: Seq<char>, blank: Seq<char>)
    requires
        forall|i: int| 0 <= i < blank.len() ==> is_white_space(#[trigger] blank[i]),
    ensures
        squeezed(text + blank) == squeezed(text),
    decreases blank.len(),
{
    if blank.len() == 0 {
        assert(text + blank =~= text);
    } else {
        let rest = blank.drop_last();
        assert forall|i: int| 0 <= i < rest.len() implies is_white_space(#[trigger] rest[i]) by {
            assert(rest[i] == blank[i]);
        }
        lemma_white_space_is_dropped(text, rest);
        assert((text + blank).drop_last() =~= text + rest);
        assert((text + blank).last() == blank[blank.len() - 1]);
    }
}

/// Texts with white space between them are squeezed each for itself, with one space
/// between what is left of them, whatever the white space was.
pub proof fn words_are_one_space_apart(before: Seq<char>, blank: Seq<char>, after: Seq<char>)
    requires
        blank.len() > 0,
        forall|i: int| 0 <= i < blank.len() ==> is_white_space(#[trigger] blank[i]),
    ensures
        squeezed(before + blank + after) == if squeezed(before).len() == 0 {
            squeezed(after)
        } else if squeezed(after).len() == 0 {
            squeezed(before)
        } else {
            squeezed(before) + seq![' '] + squeezed(after)
        },
    decreases after.len(),
{
    let text = before + blank + after;
    if after.len() == 0 {
        assert(text =~= before + blank);
        lemma_white_space_is_dropped(before, blank);
        assert(squeezed(after) =~= Seq::empty());
        assert(squeezed(before).len() == 0 ==> squeezed(before) =~= squeezed(after));
    } else {
        let start = after.drop_last();
        let c = after.last();
        words_are_one_space_apart(before, blank, start);
        assert(text.drop_last() =~= before + blank + start);
        assert(text.last() == c);
        if !is_white_space(c) {
            if start.len() == 0 {
                assert(text[text.len() - 2] == blank[blank.len() - 1]);
                assert(squeezed(start) =~= Seq::empty());
                assert(squeezed(after) =~= seq![c]);
                assert(squeezed(before).push(' ').push(c) =~= squeezed(before) + seq![' ']
                    + squeezed(after));
            } else {
                assert(text[text.len() - 2] == start[start.len() - 1]);
                assert(after[after.len() - 2] == start[start.len() - 1]);
                if squeezed(start).len() == 0 {
                    assert(is_white_space(start.last()));
                    assert(squeezed(start) =~= Seq::empty());
                    assert(squeezed(after) =~= seq![c]);
                    assert(squeezed(before).push(' ').push(c) =~= squeezed(before) + seq![' ']
                        + squeezed(after));
                } else if squeezed(before).len() > 0 {
                    let left = squeezed(before) + seq![' '] + squeezed(start);
                    assert(left.push(' ').push(c) =~= squeezed(before) + seq![' '] + squeezed(
                        start,
                    ).push(' ').push(c));
                    assert(left.push(c) =~= squeezed(before) + seq![' '] + squeezed(start).push(c));
                }
            }
        }
    }
}

/// A word without white space in it is kept as it is.
pub proof fn words_are_kept(word: Seq<char>)
    requires
        forall|i: int| 0 <= i < word.len() ==> !is_white_space(#[trigger] word[i]),
    ensures
        squeezed(word) == word,
    decreases word.len(),
{
    if word.len() > 0 {
        let start = word.drop_last();
        assert forall|i: int| 0 <= i < start.len() implies !is_white_space(#[trigger] start[i]) by {
            assert(start[i] == word[i]);
        }
        words_are_kept(start);
        assert(word[word.len() - 1] == word.last());
        assert(start.push(word.last()) =~= word);
    }
}

/// A summary of up to a hundred and sixty bytes is kept as it is. Of a longer one the
/// first hundred and fifty-nine bytes are kept, which hold whole characters, and a mark
/// stands behind them.
pub proof fn long_summaries_are_cut(compact: Seq<char>)
    ensures
        encode_utf8(compact).len() <= 160 ==> cut(compact) == compact && cuts_cleanly(compact),
        encode_utf8(compact).len() > 160 ==> {
            &&& cut(compact) == decode_utf8(encode_utf8(compact).take(159)) + seq!['\u{2026}']
            &&& cuts_cleanly(compact) <==> is_char_boundary(encode_utf8(compact), 159)
        },
{
    if encode_utf8(compact).len() > 160 {
        assert(encode_utf8(compact).subrange(0, 159) =~= encode_utf8(compact).take(159));
    }
}

/// What a report shows of an event by default says where the event goes, who sees it and
/// what it is about, in this order.
pub proof fn events_are_shown_by_their_envelope<S: AgentSchema>(event: Event<S>)
    ensures
        event_summary(event) == (match event.stream {
            StreamKey::Global => "stream=global"@,
            StreamKey::Session(_) => "stream=session"@,
            StreamKey::Thread(_) => "stream=thread"@,
            StreamKey::Worker(_) => "stream=worker"@,
        }) + " visibility="@ + (match event.visibility {
            EventVisibility::Internal => "Internal"@,
            EventVisibility::UserVisible => "UserVisible"@,
            EventVisibility::Both => "Both"@,
        }) + " domain="@ + (match event.payload {
            EventPayload::Interaction(_) => "interaction"@,
            EventPayload::Execution(_) => "execution"@,
            EventPayload::Presentation(_) => "presentation"@,
            EventPayload::Error(_) => "error"@,
        }),
{
}

/// The model of a [`ScenarioIssue`](bus::ScenarioIssue) holds all that it holds itself.
pub proof fn bus_scenario_issue_is_told_by_its_model(kept: &bus::ScenarioIssue)
    ensures
        match kept {
            bus::ScenarioIssue::PublishFailed { message, recent_events } => kept.deep_view() == (
            bus::ScenarioIssueModel::PublishFailed {
                message: message.deep_view(),
                recent_events: recent_events.deep_view(),
            }),
            bus::ScenarioIssue::ExpectationNotMet {
                expectation,
                recent_events,
            } => kept.deep_view() == (bus::ScenarioIssueModel::ExpectationNotMet {
                expectation: expectation.deep_view(),
                recent_events: recent_events.deep_view(),
            }),
            bus::ScenarioIssue::WorkerExited { label, recent_events } => kept.deep_view() == (
            bus::ScenarioIssueModel::WorkerExited {
                label: label.deep_view(),
                recent_events: recent_events.deep_view(),
            }),
            bus::ScenarioIssue::WorkerFailed {
                label,
                message,
                recent_events,
            } => kept.deep_view() == (bus::ScenarioIssueModel::WorkerFailed {
                label: label.deep_view(),
                message: message.deep_view(),
                recent_events: recent_events.deep_view(),
            }),
            bus::ScenarioIssue::WorkerPanicked {
                label,
                message,
                recent_events,
            } => kept.deep_view() == (bus::ScenarioIssueModel::WorkerPanicked {
                label: label.deep_view(),
                message: message.deep_view(),
                recent_events: recent_events.deep_view(),
            }),
        },
{
}

/// The model of a [`ScenarioFailure`](bus::ScenarioFailure) holds all that it holds itself.
pub proof fn bus_scenario_failure_is_told_by_its_model(kept: &bus::ScenarioFailure)
    ensures
        kept.deep_view().scenario == kept.scenario@,
        kept.deep_view().phase == kept.phase,
        kept.deep_view().step == kept.step@,
        kept.deep_view().issue == kept.issue.deep_view(),
{
}

/// The model of a [`WorkerOutcome`](bus::WorkerOutcome) holds all that it holds itself.
pub proof fn bus_worker_outcome_is_told_by_its_model(kept: &bus::WorkerOutcome)
    ensures
        match kept {
            bus::WorkerOutcome::Exited => kept.deep_view() == bus::WorkerOutcomeModel::Exited,
            bus::WorkerOutcome::Failed(value) => kept.deep_view()
                == bus::WorkerOutcomeModel::Failed(value.deep_view()),
            bus::WorkerOutcome::Panicked(value) => kept.deep_view()
                == bus::WorkerOutcomeModel::Panicked(value.deep_view()),
        },
{
}

/// The model of a [`ScenarioIssue`](automations::ScenarioIssue) holds all that it holds itself.
pub proof fn automation_scenario_issue_is_told_by_its_model(kept: &automations::ScenarioIssue)
    ensures
        match kept {
            automations::ScenarioIssue::ActionFailed(value) => kept.deep_view()
                == automations::ScenarioIssueModel::ActionFailed(value.deep_view()),
            automations::ScenarioIssue::ExpectationNotMet {
                expectation,
                recent_traces,
            } => kept.deep_view() == (automations::ScenarioIssueModel::ExpectationNotMet {
                expectation: expectation.deep_view(),
                recent_traces: recent_traces.deep_view(),
            }),
            automations::ScenarioIssue::WorldFailed(value) => kept.deep_view()
                == automations::ScenarioIssueModel::WorldFailed(value.deep_view()),
        },
{
}

/// The model of a [`ScenarioFailure`](automations::ScenarioFailure) holds all that it holds itself.
pub proof fn automation_scenario_failure_is_told_by_its_model(kept: &automations::ScenarioFailure)
    ensures
        kept.deep_view().scenario == kept.scenario@,
        kept.deep_view().phase == kept.phase,
        kept.deep_view().step == kept.step@,
        kept.deep_view().issue == kept.issue.deep_view(),
{
}

}
