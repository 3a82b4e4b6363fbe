//! Reports of scenarios on automations.

use crate::model::FaithfulClone;
use crate::scenarios::report::{headline, listing, write_headline, write_listing, StepKind};
use vstd::prelude::*;

verus! {

/// The number of traces that a report shows by default.
pub const DEFAULT_RECENT_TRACE_LIMIT: usize = 8;

/// Why a step failed.
#[derive(Debug, PartialEq)]
pub enum ScenarioIssue {
    ActionFailed(String),
    ExpectationNotMet {
        expectation: String,
        recent_traces: Vec<String>,
    },
    WorldFailed(String),
}

/// What a [`ScenarioIssue`] holds.
#[verifier::ext_equal]
pub enum ScenarioIssueModel {
    ActionFailed(Seq<char>),
    ExpectationNotMet {
        expectation: Seq<char>,
        recent_traces: Seq<Seq<char>>,
    },
    WorldFailed(Seq<char>),
}

impl DeepView for ScenarioIssue {
    type V = ScenarioIssueModel;

    open spec fn deep_view(&self) -> ScenarioIssueModel {
        match self {
            ScenarioIssue::ActionFailed(value) => ScenarioIssueModel::ActionFailed(value.deep_view()),
            ScenarioIssue::ExpectationNotMet { expectation, recent_traces } => ScenarioIssueModel::ExpectationNotMet {
                expectation: expectation.deep_view(),
                recent_traces: recent_traces.deep_view(),
            },
            ScenarioIssue::WorldFailed(value) => ScenarioIssueModel::WorldFailed(value.deep_view()),
        }
    }
}

impl Clone for ScenarioIssue {
    fn clone(&self) -> (copy: Self)
        ensures
            copy.deep_view() == self.deep_view(),
    {
        match self {
            ScenarioIssue::ActionFailed(value) => ScenarioIssue::ActionFailed(value.clone()),
            ScenarioIssue::ExpectationNotMet { expectation, recent_traces } => {
                let recent_traces_copy = recent_traces.clone();
                assert(recent_traces_copy.deep_view() =~= recent_traces.deep_view());
                ScenarioIssue::ExpectationNotMet {
                    expectation: expectation.clone(),
                    recent_traces: recent_traces_copy,
                }
            },
            ScenarioIssue::WorldFailed(value) => ScenarioIssue::WorldFailed(value.clone()),
        }
    }
}

impl FaithfulClone for ScenarioIssue {
    proof fn clone_keeps_model(original: Self, copy: Self) {
    }
}

/// The step of a scenario that failed.
#[derive(Debug, PartialEq)]
pub struct ScenarioFailure {
    pub scenario: String,
    pub phase: StepKind,
    pub step: String,
    pub issue: ScenarioIssue,
}

/// What a [`ScenarioFailure`] holds.
#[verifier::ext_equal]
pub struct ScenarioFailureModel {
    pub scenario: Seq<char>,
    pub phase: StepKind,
    pub step: Seq<char>,
    pub issue: ScenarioIssueModel,
}

impl DeepView for ScenarioFailure {
    type V = ScenarioFailureModel;

    open spec fn deep_view(&self) -> ScenarioFailureModel {
        ScenarioFailureModel {
            scenario: self.scenario.deep_view(),
            phase: self.phase,
            step: self.step.deep_view(),
            issue: self.issue.deep_view(),
        }
    }
}

impl Clone for ScenarioFailure {
    fn clone(&self) -> (copy: Self)
        ensures
            copy.deep_view() == self.deep_view(),
    {
        let copy = ScenarioFailure {
            scenario: self.scenario.clone(),
            phase: self.phase,
            step: self.step.clone(),
            issue: self.issue.clone(),
        };
        copy
    }
}

impl FaithfulClone for ScenarioFailure {
    proof fn clone_keeps_model(original: Self, copy: Self) {
    }
}

impl ScenarioIssueModel {
    /// The issue as a report shows it.
    pub open spec fn report(self) -> Seq<char> {
        match self {
            ScenarioIssueModel::ActionFailed(message) => "action failed: "@ + message,
            ScenarioIssueModel::ExpectationNotMet { expectation, recent_traces } => {
                "expectation not met: "@ + expectation + "\n"@ + listing(
                    "recent traces"@,
                    recent_traces,
                )
            },
            ScenarioIssueModel::WorldFailed(message) => "world failed: "@ + message,
        }
    }
}

impl ScenarioIssue {
    /// The issue as a report shows it.
    pub fn message(&self) -> (text: String)
        ensures
            text@ == self.deep_view().report(),
    {
        match self {
            ScenarioIssue::ActionFailed(message) => "action failed: ".to_string().concat(
                message.as_str(),
            ),
            ScenarioIssue::ExpectationNotMet { expectation, recent_traces } => {
                "expectation not met: ".to_string().concat(expectation.as_str()).concat(
                    "\n",
                ).concat(write_listing("recent traces", recent_traces).as_str())
            },
            ScenarioIssue::WorldFailed(message) => "world failed: ".to_string().concat(
                message.as_str(),
            ),
        }
    }
}

impl ScenarioFailure {
    /// The failure as a report shows it.
    pub fn message(&self) -> (text: String)
        ensures
            text@ == headline(self.scenario@, self.phase, self.step@)
                + self.issue.deep_view().report(),
    {
        write_headline(self.scenario.as_str(), self.phase, self.step.as_str()).concat(
            self.issue.message().as_str(),
        )
    }
}

}
