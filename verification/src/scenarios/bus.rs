//! Scenarios on workers of an event bus.

use crate::agent::schema::AgentSchema;
use crate::agent::substrate::{Event, EventPayload, EventVisibility, StreamKey};
use crate::model::FaithfulClone;
use crate::scenarios::report::{headline, listing, write_headline, write_listing, StepKind};
use crate::telegram::client::is_white_space;
use crate::text::chars_of;
use vstd::prelude::*;
use vstd::utf8::{
    decode_utf8, encode_scalar, encode_utf8, encode_utf8_decode_utf8, encode_utf8_valid_utf8,
    is_char_boundary,
};

verus! {

/// The number of events that a report shows by default.
pub const DEFAULT_RECENT_EVENT_LIMIT: usize = 6;

/// The number of bytes that a summary may have.
pub const DEFAULT_SUMMARY_LIMIT: usize = 160;

/// Why a step failed.
#[derive(Debug, PartialEq)]
pub enum ScenarioIssue {
    PublishFailed {
        message: String,
        recent_events: Vec<String>,
    },
    ExpectationNotMet {
        expectation: String,
        recent_events: Vec<String>,
    },
    WorkerExited {
        label: String,
        recent_events: Vec<String>,
    },
    WorkerFailed {
        label: String,
        message: String,
        recent_events: Vec<String>,
    },
    WorkerPanicked {
        label: String,
        message: String,
        recent_events: Vec<String>,
    },
}

/// What a [`ScenarioIssue`] holds.
#[verifier::ext_equal]
pub enum ScenarioIssueModel {
    PublishFailed {
        message: Seq<char>,
        recent_events: Seq<Seq<char>>,
    },
    ExpectationNotMet {
        expectation: Seq<char>,
        recent_events: Seq<Seq<char>>,
    },
    WorkerExited {
        label: Seq<char>,
        recent_events: Seq<Seq<char>>,
    },
    WorkerFailed {
        label: Seq<char>,
        message: Seq<char>,
        recent_events: Seq<Seq<char>>,
    },
    WorkerPanicked {
        label: Seq<char>,
        message: Seq<char>,
        recent_events: Seq<Seq<char>>,
    },
}

impl DeepView for ScenarioIssue {
    type V = ScenarioIssueModel;

    open spec fn deep_view(&self) -> ScenarioIssueModel {
        match self {
            ScenarioIssue::PublishFailed { message, recent_events } => ScenarioIssueModel::PublishFailed {
                message: message.deep_view(),
                recent_events: recent_events.deep_view(),
            },
            ScenarioIssue::ExpectationNotMet { expectation, recent_events } => ScenarioIssueModel::ExpectationNotMet {
                expectation: expectation.deep_view(),
                recent_events: recent_events.deep_view(),
            },
            ScenarioIssue::WorkerExited { label, recent_events } => ScenarioIssueModel::WorkerExited {
                label: label.deep_view(),
                recent_events: recent_events.deep_view(),
            },
            ScenarioIssue::WorkerFailed { label, message, recent_events } => ScenarioIssueModel::WorkerFailed {
                label: label.deep_view(),
                message: message.deep_view(),
                recent_events: recent_events.deep_view(),
            },
            ScenarioIssue::WorkerPanicked { label, message, recent_events } => ScenarioIssueModel::WorkerPanicked {
                label: label.deep_view(),
                message: message.deep_view(),
                recent_events: recent_events.deep_view(),
            },
        }
    }
}

impl Clone for ScenarioIssue {
    fn clone(&self) -> (copy: Self)
        ensures
            copy.deep_view() == self.deep_view(),
    {
        match self {
            ScenarioIssue::PublishFailed { message, recent_events } => {
                let recent_events_copy = recent_events.clone();
                assert(recent_events_copy.deep_view() =~= recent_events.deep_view());
                ScenarioIssue::PublishFailed {
                    message: message.clone(),
                    recent_events: recent_events_copy,
                }
            },
            ScenarioIssue::ExpectationNotMet { expectation, recent_events } => {
                let recent_events_copy = recent_events.clone();
                assert(recent_events_copy.deep_view() =~= recent_events.deep_view());
                ScenarioIssue::ExpectationNotMet {
                    expectation: expectation.clone(),
                    recent_events: recent_events_copy,
                }
            },
            ScenarioIssue::WorkerExited { label, recent_events } => {
                let recent_events_copy = recent_events.clone();
                assert(recent_events_copy.deep_view() =~= recent_events.deep_view());
                ScenarioIssue::WorkerExited {
                    label: label.clone(),
                    recent_events: recent_events_copy,
                }
            },
            ScenarioIssue::WorkerFailed { label, message, recent_events } => {
                let recent_events_copy = recent_events.clone();
                assert(recent_events_copy.deep_view() =~= recent_events.deep_view());
                ScenarioIssue::WorkerFailed {
                    label: label.clone(),
                    message: message.clone(),
                    recent_events: recent_events_copy,
                }
            },
            ScenarioIssue::WorkerPanicked { label, message, recent_events } => {
                let recent_events_copy = recent_events.clone();
                assert(recent_events_copy.deep_view() =~= recent_events.deep_view());
                ScenarioIssue::WorkerPanicked {
                    label: label.clone(),
                    message: message.clone(),
                    recent_events: recent_events_copy,
                }
            },
        }
    }
}

impl FaithfulClone for ScenarioIssue {
    proof fn clone_keeps_model(original: Self, copy: Self) {
    }
}

/// The step of a scenario that failed.
#[derive(Debug, PartialEq)]
pub struct ScenarioFailure {
    pub scenario: String,
    pub phase: StepKind,
    pub step: String,
    pub issue: ScenarioIssue,
}

/// What a [`ScenarioFailure`] holds.
#[verifier::ext_equal]
pub struct ScenarioFailureModel {
    pub scenario: Seq<char>,
    pub phase: StepKind,
    pub step: Seq<char>,
    pub issue: ScenarioIssueModel,
}

impl DeepView for ScenarioFailure {
    type V = ScenarioFailureModel;

    open spec fn deep_view(&self) -> ScenarioFailureModel {
        ScenarioFailureModel {
            scenario: self.scenario.deep_view(),
            phase: self.phase,
            step: self.step.deep_view(),
            issue: self.issue.deep_view(),
        }
    }
}

impl Clone for ScenarioFailure {
    fn clone(&self) -> (copy: Self)
        ensures
            copy.deep_view() == self.deep_view(),
    {
        let copy = ScenarioFailure {
            scenario: self.scenario.clone(),
            phase: self.phase,
            step: self.step.clone(),
            issue: self.issue.clone(),
        };
        copy
    }
}

impl FaithfulClone for ScenarioFailure {
    proof fn clone_keeps_model(original: Self, copy: Self) {
    }
}

/// How a worker ended.
#[derive(Debug, PartialEq)]
pub enum WorkerOutcome {
    Exited,
    Failed(String),
    Panicked(String),
}

/// What a [`WorkerOutcome`] holds.
#[verifier::ext_equal]
pub enum WorkerOutcomeModel {
    Exited,
    Failed(Seq<char>),
    Panicked(Seq<char>),
}

impl DeepView for WorkerOutcome {
    type V = WorkerOutcomeModel;

    open spec fn deep_view(&self) -> WorkerOutcomeModel {
        match self {
            WorkerOutcome::Exited => WorkerOutcomeModel::Exited,
            WorkerOutcome::Failed(value) => WorkerOutcomeModel::Failed(value.deep_view()),
            WorkerOutcome::Panicked(value) => WorkerOutcomeModel::Panicked(value.deep_view()),
        }
    }
}

impl Clone for WorkerOutcome {
    fn clone(&self) -> (copy: Self)
        ensures
            copy.deep_view() == self.deep_view(),
    {
        match self {
            WorkerOutcome::Exited => WorkerOutcome::Exited,
            WorkerOutcome::Failed(value) => WorkerOutcome::Failed(value.clone()),
            WorkerOutcome::Panicked(value) => WorkerOutcome::Panicked(value.clone()),
        }
    }
}

impl FaithfulClone for WorkerOutcome {
    proof fn clone_keeps_model(original: Self, copy: Self) {
    }
}

impl ScenarioIssueModel {
    /// The issue as a report shows it.
    pub open spec fn report(self) -> Seq<char> {
        match self {
            ScenarioIssueModel::PublishFailed { message, recent_events } => "publish failed: "@
                + message + "\n"@ + listing("recent events"@, recent_events),
            ScenarioIssueModel::ExpectationNotMet {
                expectation,
                recent_events,
            } => "expectation not met: "@ + expectation + "\n"@ + listing(
                "recent events"@,
                recent_events,
            ),
            ScenarioIssueModel::WorkerExited { label, recent_events } => "worker `"@ + label
                + "` exited unexpectedly\n"@ + listing("recent events"@, recent_events),
            ScenarioIssueModel::WorkerFailed { label, message, recent_events } => "worker `"@
                + label + "` returned an error: "@ + message + "\n"@ + listing(
                "recent events"@,
                recent_events,
            ),
            ScenarioIssueModel::WorkerPanicked { label, message, recent_events } => "worker `"@
                + label + "` panicked: "@ + message + "\n"@ + listing(
                "recent events"@,
                recent_events,
            ),
        }
    }
}

impl ScenarioIssue {
    /// The issue as a report shows it.
    pub fn message(&self) -> (text: String)
        ensures
            text@ == self.deep_view().report(),
    {
        match self {
            ScenarioIssue::PublishFailed { message, recent_events } => {
                "publish failed: ".to_string().concat(message.as_str()).concat("\n").concat(
                    write_listing("recent events", recent_events).as_str(),
                )
            },
            ScenarioIssue::ExpectationNotMet { expectation, recent_events } => {
                "expectation not met: ".to_string().concat(expectation.as_str()).concat(
                    "\n",
                ).concat(write_listing("recent events", recent_events).as_str())
            },
            ScenarioIssue::WorkerExited { label, recent_events } => {
                "worker `".to_string().concat(label.as_str()).concat(
                    "` exited unexpectedly\n",
                ).concat(write_listing("recent events", recent_events).as_str())
            },
            ScenarioIssue::WorkerFailed { label, message, recent_events } => {
                "worker `".to_string().concat(label.as_str()).concat(
                    "` returned an error: ",
                ).concat(message.as_str()).concat("\n").concat(
                    write_listing("recent events", recent_events).as_str(),
                )
            },
            ScenarioIssue::WorkerPanicked { label, message, recent_events } => {
                "worker `".to_string().concat(label.as_str()).concat("` panicked: ").concat(
                    message.as_str(),
                ).concat("\n").concat(write_listing("recent events", recent_events).as_str())
            },
        }
    }
}

impl ScenarioFailure {
    /// The failure as a report shows it.
    pub fn message(&self) -> (text: String)
        ensures
            text@ == headline(self.scenario@, self.phase, self.step@)
                + self.issue.deep_view().report(),
    {
        write_headline(self.scenario.as_str(), self.phase, self.step.as_str()).concat(
            self.issue.message().as_str(),
        )
    }
}

/// A worker that a scenario watches. `handle` is what the host awaits it by.
#[derive(Debug)]
pub struct TrackedTask<H> {
    pub label: String,
    pub finished: bool,
    pub handle: H,
}

impl<H> TrackedTask<H> {
    /// Watch a worker that runs.
    pub fn new(label: String, handle: H) -> (task: Self)
        ensures
            task == (TrackedTask { label, finished: false, handle }),
    {
        TrackedTask { label, finished: false, handle }
    }
}

/// Whether `p` is the place of the first worker that has ended.
pub open spec fn is_first_finished<H>(tasks: Seq<TrackedTask<H>>, p: int) -> bool {
    &&& 0 <= p < tasks.len()
    &&& tasks[p].finished
    &&& forall|i: int| 0 <= i < p ==> !(#[trigger] tasks[i]).finished
}

/// Take the first worker out that has ended, if one has.
pub fn take_finished<H>(tasks: &mut Vec<TrackedTask<H>>) -> (ended: Option<TrackedTask<H>>)
    ensures
        match ended {
            Some(task) => exists|p: int|
                #[trigger] is_first_finished(old(tasks)@, p) && task == old(tasks)@[p]
                    && final(tasks)@ == old(tasks)@.remove(p),
            None => final(tasks)@ == old(tasks)@ && forall|i: int|
                0 <= i < old(tasks)@.len() ==> !(#[trigger] old(tasks)@[i]).finished,
        },
{
    let mut index: usize = 0;
    while index < tasks.len()
        invariant
            index <= tasks.len(),
            tasks@ == old(tasks)@,
            forall|i: int| 0 <= i < index ==> !(#[trigger] tasks@[i]).finished,
        decreases tasks.len() - index,
    {
        if tasks[index].finished {
            assert(is_first_finished(old(tasks)@, index as int));
            return Some(tasks.remove(index));
        }
        index += 1;
    }
    None
}

/// The issue of a worker that ended.
pub open spec fn issue_of_worker(
    label: Seq<char>,
    outcome: WorkerOutcomeModel,
    recent_events: Seq<Seq<char>>,
) -> ScenarioIssueModel {
    match outcome {
        WorkerOutcomeModel::Exited => ScenarioIssueModel::WorkerExited { label, recent_events },
        WorkerOutcomeModel::Failed(message) => ScenarioIssueModel::WorkerFailed {
            label,
            message,
            recent_events,
        },
        WorkerOutcomeModel::Panicked(message) => ScenarioIssueModel::WorkerPanicked {
            label,
            message,
            recent_events,
        },
    }
}

/// The issue of a worker that ended. No worker may end while its scenario runs.
pub fn worker_issue(label: String, outcome: WorkerOutcome, recent_events: Vec<String>) -> (issue:
    ScenarioIssue)
    ensures
        issue.deep_view() == issue_of_worker(
            label@,
            outcome.deep_view(),
            recent_events.deep_view(),
        ),
{
    match outcome {
        WorkerOutcome::Exited => ScenarioIssue::WorkerExited { label, recent_events },
        WorkerOutcome::Failed(message) => ScenarioIssue::WorkerFailed {
            label,
            message,
            recent_events,
        },
        WorkerOutcome::Panicked(message) => ScenarioIssue::WorkerPanicked {
            label,
            message,
            recent_events,
        },
    }
}

/// Whether the workers are healthy, given the first one that ended, if one did.
pub fn ensure_workers_healthy(
    ended: Option<(String, WorkerOutcome)>,
    recent_events: Vec<String>,
) -> (result: Result<(), ScenarioIssue>)
    ensures
        match ended {
            None => result is Ok,
            Some((label, outcome)) => result is Err && result->Err_0.deep_view() == issue_of_worker(
                label@,
                outcome.deep_view(),
                recent_events.deep_view(),
            ),
        },
{
    match ended {
        None => Ok(()),
        Some((label, outcome)) => Err(worker_issue(label, outcome, recent_events)),
    }
}

/// Whether an event that is there was expected.
pub fn expect_immediate(found: bool, expectation: String, recent_events: Vec<String>) -> (result:
    Result<(), ScenarioIssue>)
    ensures
        result is Ok <==> found,
        result is Err ==> result->Err_0.deep_view() == (ScenarioIssueModel::ExpectationNotMet {
            expectation: expectation@,
            recent_events: recent_events.deep_view(),
        }),
{
    if found {
        Ok(())
    } else {
        Err(ScenarioIssue::ExpectationNotMet { expectation, recent_events })
    }
}

/// Whether an event that is not there was expected to be absent.
pub fn expect_absent(found: bool, expectation: String, recent_events: Vec<String>) -> (result:
    Result<(), ScenarioIssue>)
    ensures
        result is Ok <==> !found,
        result is Err ==> result->Err_0.deep_view() == (ScenarioIssueModel::ExpectationNotMet {
            expectation: expectation@,
            recent_events: recent_events.deep_view(),
        }),
{
    expect_immediate(!found, expectation, recent_events)
}

/// The events that were recorded after `checkpoint`.
pub fn events_since<T: Clone>(events: &Vec<T>, checkpoint: usize) -> (recent: Vec<T>)
    ensures
        recent@.len() == if checkpoint <= events@.len() {
            events@.len() - checkpoint
        } else {
            0
        },
        forall|i: int|
            0 <= i < recent@.len() ==> cloned(events@[checkpoint + i], #[trigger] recent@[i]),
{
    let mut recent: Vec<T> = Vec::new();
    let mut i: usize = checkpoint;
    while i < events.len()
        invariant
            checkpoint <= i,
            i <= events.len() || i == checkpoint,
            recent@.len() == i - checkpoint,
            forall|k: int|
                0 <= k < i - checkpoint ==> cloned(events@[checkpoint + k], #[trigger] recent@[k]),
        decreases events.len() - i,
    {
        recent.push(events[i].clone());
        i += 1;
    }
    recent
}

/// `text` with its words one space apart and nothing around them.
pub open spec fn squeezed(text: Seq<char>) -> Seq<char>
    decreases text.len(),
{
    if text.len() == 0 {
        Seq::empty()
    } else {
        let before = squeezed(text.drop_last());
        if is_white_space(text.last()) {
            before
        } else if before.len() > 0 && is_white_space(text[text.len() - 2]) {
            before.push(' ').push(text.last())
        } else {
            before.push(text.last())
        }
    }
}

/// Put the words of `text` one space apart.
pub fn squeeze(text: &str) -> (compact: String)
    ensures
        compact@ == squeezed(text@),
{
    let chars = chars_of(text);
    let mut compact = String::new();
    let mut started = false;
    let mut i: usize = 0;
    while i < chars.len()
        invariant
            i <= chars.len(),
            chars@ == text@,
            compact@ == squeezed(text@.take(i as int)),
            started == (compact@.len() > 0),
        decreases chars.len() - i,
    {
        let ghost taken = text@.take(i + 1);
        assert(taken.drop_last() =~= text@.take(i as int));
        if !chars[i].is_whitespace() {
            if started && chars[i - 1].is_whitespace() {
                compact.push(' ');
            }
            compact.push(chars[i]);
            started = true;
        }
        i += 1;
    }
    assert(text@.take(i as int) =~= text@);
    compact
}

/// Whether `compact` is cut between two characters, where it is cut.
pub open spec fn cuts_cleanly(compact: Seq<char>) -> bool {
    encode_utf8(compact).len() > DEFAULT_SUMMARY_LIMIT ==> is_char_boundary(
        encode_utf8(compact),
        DEFAULT_SUMMARY_LIMIT - 1,
    )
}

/// `compact`, or as much of it as leaves room for a mark that there was more.
pub open spec fn cut(compact: Seq<char>) -> Seq<char> {
    if encode_utf8(compact).len() > DEFAULT_SUMMARY_LIMIT {
        decode_utf8(encode_utf8(compact).subrange(0, DEFAULT_SUMMARY_LIMIT - 1)).push('\u{2026}')
    } else {
        compact
    }
}

/// Whether a summary can be compressed without cutting a character.
pub fn can_compress(summary: &str) -> (clean: bool)
    ensures
        clean == cuts_cleanly(squeezed(summary@)),
{
    let compact = squeeze(summary);
    let text = compact.as_str();
    text.as_bytes().len() <= DEFAULT_SUMMARY_LIMIT || text.is_char_boundary(
        DEFAULT_SUMMARY_LIMIT - 1,
    )
}

/// A summary on one line, cut where it is too long.
pub fn compress_summary(summary: &str) -> (compact: String)
    requires
        cuts_cleanly(squeezed(summary@)),
    ensures
        compact@ == cut(squeezed(summary@)),
{
    let compact = squeeze(summary);
    if compact.as_str().as_bytes().len() <= DEFAULT_SUMMARY_LIMIT {
        return compact;
    }
    let (head, _) = compact.as_str().split_at(DEFAULT_SUMMARY_LIMIT - 1);
    proof {
        encode_utf8_valid_utf8(head@);
        encode_utf8_decode_utf8(head@);
    }
    let mut short = head.to_string();
    short.push('\u{2026}');
    short
}

/// The name of what an event is about.
pub open spec fn domain_label<S: AgentSchema>(payload: EventPayload<S>) -> Seq<char> {
    match payload {
        EventPayload::Interaction(_) => "interaction"@,
        EventPayload::Execution(_) => "execution"@,
        EventPayload::Presentation(_) => "presentation"@,
        EventPayload::Error(_) => "error"@,
    }
}

/// The name of where an event goes.
pub open spec fn stream_label<S: AgentSchema>(stream: StreamKey<S>) -> Seq<char> {
    match stream {
        StreamKey::Global => "stream=global"@,
        StreamKey::Session(_) => "stream=session"@,
        StreamKey::Thread(_) => "stream=thread"@,
        StreamKey::Worker(_) => "stream=worker"@,
    }
}

/// The name of who sees an event.
pub open spec fn visibility_label(visibility: EventVisibility) -> Seq<char> {
    match visibility {
        EventVisibility::Internal => "Internal"@,
        EventVisibility::UserVisible => "UserVisible"@,
        EventVisibility::Both => "Both"@,
    }
}

/// What a report shows of an event by default.
pub open spec fn event_summary<S: AgentSchema>(event: Event<S>) -> Seq<char> {
    stream_label(event.stream) + " visibility="@ + visibility_label(event.visibility) + " domain="@
        + domain_label(event.payload)
}

/// What a report shows of an event by default.
pub fn default_event_summary<S>(event: &Event<S>) -> (summary: String) where S: AgentSchema
    ensures
        summary@ == event_summary(*event),
{
    let domain = match &event.payload {
        EventPayload::Interaction(_) => "interaction",
        EventPayload::Execution(_) => "execution",
        EventPayload::Presentation(_) => "presentation",
        EventPayload::Error(_) => "error",
    };
    let stream = match &event.stream {
        StreamKey::Global => "stream=global",
        StreamKey::Session(_) => "stream=session",
        StreamKey::Thread(_) => "stream=thread",
        StreamKey::Worker(_) => "stream=worker",
    };
    let visibility = match event.visibility {
        EventVisibility::Internal => "Internal",
        EventVisibility::UserVisible => "UserVisible",
        EventVisibility::Both => "Both",
    };
    stream.to_string().concat(" visibility=").concat(visibility).concat(" domain=").concat(domain)
}

/// Whether `text` is made of words that are one space apart.
pub open spec fn is_tidy(text: Seq<char>) -> bool {
    &&& text.len() > 0
    &&& !is_white_space(text.last())
    &&& forall|i: int|
        0 <= i < text.len() && is_white_space(#[trigger] text[i]) ==> text[i] == ' ' && 0 < i
            && !is_white_space(text[i - 1])
}

proof fn lemma_tidy_with_char(text: Seq<char>, c: char)
    requires
        is_tidy(text),
        !is_white_space(c),
    ensures
        is_tidy(text.push(c)),
        is_tidy(text.push(' ').push(c)),
{
    let plain = text.push(c);
    let spaced = text.push(' ').push(c);
    assert forall|i: int| 0 <= i < plain.len() && is_white_space(#[trigger] plain[i]) implies plain[i]
        == ' ' && 0 < i && !is_white_space(plain[i - 1]) by {
        assert(plain[i] == text[i]);
        assert(i > 0 ==> plain[i - 1] == text[i - 1]);
    }
    assert forall|i: int| 0 <= i < spaced.len() && is_white_space(#[trigger] spaced[i]) implies
        spaced[i] == ' ' && 0 < i && !is_white_space(spaced[i - 1]) by {
        if i < text.len() {
            assert(spaced[i] == text[i]);
            assert(i > 0 ==> spaced[i - 1] == text[i - 1]);
        } else {
            assert(spaced[i - 1] == text.last());
        }
    }
}

proof fn lemma_squeezed_is_tidy(text: Seq<char>)
    ensures
        squeezed(text).len() > 0 ==> is_tidy(squeezed(text)),
    decreases text.len(),
{
    if text.len() > 0 {
        let before = squeezed(text.drop_last());
        lemma_squeezed_is_tidy(text.drop_last());
        if !is_white_space(text.last()) {
            if before.len() > 0 {
                lemma_tidy_with_char(before, text.last());
            } else {
                assert(before.push(text.last()) =~= seq![text.last()]);
            }
        }
    }
}

/// Squeezing leaves words that are one space apart, so squeezing again changes
/// nothing.
pub proof fn squeezing_again_changes_nothing(text: Seq<char>)
    ensures
        squeezed(text).len() > 0 ==> is_tidy(squeezed(text)),
        squeezed(squeezed(text)) == squeezed(text),
{
    lemma_squeezed_is_tidy(text);
    if squeezed(text).len() > 0 {
        lemma_tidy_is_squeezed(squeezed(text));
    } else {
        assert(squeezed(squeezed(text)) =~= squeezed(text));
    }
}

proof fn lemma_tidy_start_is_tidy(text: Seq<char>)
    requires
        is_tidy(text),
        text.len() > 1,
    ensures
        !is_white_space(text[text.len() - 2]) ==> is_tidy(text.drop_last()),
        is_white_space(text[text.len() - 2]) ==> text.len() > 2 && is_tidy(
            text.drop_last().drop_last(),
        ),
{
    let shorter = text.drop_last();
    assert forall|i: int| 0 <= i < shorter.len() implies #[trigger] shorter[i] == text[i] by {}
    let shortest = shorter.drop_last();
    assert forall|i: int| 0 <= i < shortest.len() implies #[trigger] shortest[i] == text[i] by {}
    if is_white_space(text[text.len() - 2]) {
        assert(!is_white_space(text[text.len() - 3]));
    }
}

proof fn lemma_tidy_is_squeezed(text: Seq<char>)
    requires
        is_tidy(text),
    ensures
        squeezed(text) == text,
    decreases text.len(),
{
    let shorter = text.drop_last();
    if text.len() == 1 {
        assert(squeezed(shorter) =~= Seq::empty());
        assert(squeezed(text) =~= text);
    } else {
        lemma_tidy_start_is_tidy(text);
        if is_white_space(text[text.len() - 2]) {
            lemma_tidy_is_squeezed(shorter.drop_last());
            assert(squeezed(shorter) == shorter.drop_last());
            assert(shorter.drop_last().push(' ').push(text.last()) =~= text);
        } else {
            lemma_tidy_is_squeezed(shorter);
            assert(shorter.push(text.last()) =~= text);
        }
    }
}

/// Whether `text` holds printable ASCII characters only.
spec fn is_plain(text: Seq<char>) -> bool {
    forall|i: int| 0 <= i < text.len() ==> 0x20 <= #[trigger] text[i] as int && (text[i] as int)
        < 0x7f
}

/// Whether `text` is one word of printable ASCII characters.
spec fn is_word(text: Seq<char>) -> bool {
    &&& text.len() > 0
    &&& is_plain(text)
    &&& forall|i: int| 0 <= i < text.len() ==> #[trigger] text[i] != ' '
}

proof fn lemma_tidy_with_word(text: Seq<char>, word: Seq<char>)
    requires
        is_tidy(text),
        is_plain(text),
        is_word(word),
    ensures
        is_tidy(text + word),
        is_plain(text + word),
        is_tidy(text + seq![' '] + word),
        is_plain(text + seq![' '] + word),
    decreases word.len(),
{
    let start = word.drop_last();
    lemma_tidy_with_char(text, word.last());
    if start.len() == 0 {
        assert(text + word =~= text.push(word.last()));
        assert(text + seq![' '] + word =~= text.push(' ').push(word.last()));
    } else {
        assert(is_word(start));
        lemma_tidy_with_word(text, start);
        lemma_tidy_with_char(text + start, word.last());
        lemma_tidy_with_char(text + seq![' '] + start, word.last());
        assert(text + word =~= (text + start).push(word.last()));
        assert(text + seq![' '] + word =~= (text + seq![' '] + start).push(word.last()));
    }
}

proof fn lemma_plain_char_in_bytes(c: char)
    requires
        (c as int) < 0x7f,
    ensures
        encode_scalar(c as u32).len() == 1,
{
}

proof fn lemma_plain_text_in_bytes(text: Seq<char>)
    requires
        is_plain(text),
    ensures
        encode_utf8(text).len() == text.len(),
    decreases text.len(),
{
    if text.len() > 0 {
        let rest = text.drop_first();
        assert forall|i: int| 0 <= i < rest.len() implies 0x20 <= #[trigger] rest[i] as int && (
        rest[i] as int) < 0x7f by {
            assert(rest[i] == text[i + 1]);
        }
        lemma_plain_text_in_bytes(rest);
        lemma_plain_char_in_bytes(text[0]);
    }
}

/// What a report shows of an event by default fits as it is: compressing it
/// changes nothing.
pub proof fn default_summaries_need_no_compression<S: AgentSchema>(event: Event<S>)
    ensures
        cuts_cleanly(squeezed(event_summary(event))),
        cut(squeezed(event_summary(event))) == event_summary(event),
{
    let stream = stream_label(event.stream);
    let visibility = visibility_label(event.visibility);
    let domain = domain_label(event.payload);
    assert(is_word(stream) && stream.len() < 20) by {
        reveal_strlit("stream=global");
        reveal_strlit("stream=session");
        reveal_strlit("stream=thread");
        reveal_strlit("stream=worker");
    }
    assert(is_word(visibility) && visibility.len() < 20) by {
        reveal_strlit("Internal");
        reveal_strlit("UserVisible");
        reveal_strlit("Both");
    }
    assert(is_word(domain) && domain.len() < 20) by {
        reveal_strlit("interaction");
        reveal_strlit("execution");
        reveal_strlit("presentation");
        reveal_strlit("error");
    }
    let shown = " visibility="@.drop_first();
    let about = " domain="@.drop_first();
    assert(is_word(shown) && shown.len() < 20 && " visibility="@ =~= seq![' '] + shown) by {
        reveal_strlit(" visibility=");
    }
    assert(is_word(about) && about.len() < 20 && " domain="@ =~= seq![' '] + about) by {
        reveal_strlit(" domain=");
    }
    assert(is_tidy(stream));
    let first = stream + " visibility="@;
    assert(first =~= stream + seq![' '] + shown);
    lemma_tidy_with_word(stream, shown);
    let second = first + visibility;
    lemma_tidy_with_word(first, visibility);
    let third = second + " domain="@;
    assert(third =~= second + seq![' '] + about);
    lemma_tidy_with_word(second, about);
    lemma_tidy_with_word(third, domain);
    assert(event_summary(event) == third + domain);
    lemma_tidy_is_squeezed(event_summary(event));
    lemma_plain_text_in_bytes(event_summary(event));
}

}
