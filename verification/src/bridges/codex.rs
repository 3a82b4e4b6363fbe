//! The bridge to Codex agents.

use crate::bridges::process::{
    flag_name, flag_text, invalid_line, invalid_line_text, push_variable, with_variable,
    BridgeProcess,
};
use crate::json::{JsonModel, JsonValue};
use crate::json_text::{
    is_one_line, json_members, json_members_are_one_line, json_members_text, json_strings,
    json_strings_text,
};
use crate::model::FaithfulClone;
use vstd::prelude::*;

verus! {

/// How a Codex agent is run.
#[derive(Debug, Clone)]
pub struct CodexAgentConfig {
    pub cwd: String,
    pub codex_executable: String,
    pub thread_id: Option<String>,
    pub model: Option<String>,
    pub sandbox_mode: Option<String>,
    pub approval_policy: Option<String>,
    pub skip_git_repo_check: bool,
    pub network_access_enabled: bool,
    pub additional_directories: Vec<String>,
}

impl CodexAgentConfig {
    /// Run `codex_executable` in `cwd`, with everything else as it is by default.
    pub fn new(cwd: String, codex_executable: String) -> (config: Self)
        ensures
            config == (CodexAgentConfig {
                cwd,
                codex_executable,
                thread_id: None,
                model: None,
                sandbox_mode: None,
                approval_policy: None,
                skip_git_repo_check: false,
                network_access_enabled: false,
                additional_directories: config.additional_directories,
            }),
            config.additional_directories@.len() == 0,
    {
        CodexAgentConfig {
            cwd,
            codex_executable,
            thread_id: None,
            model: None,
            sandbox_mode: None,
            approval_policy: None,
            skip_git_repo_check: false,
            network_access_enabled: false,
            additional_directories: Vec::new(),
        }
    }

    /// Go on with this thread.
    pub fn with_thread_id(self, thread_id: String) -> (config: Self)
        ensures
            config == (CodexAgentConfig { thread_id: Some(thread_id), ..self }),
    {
        CodexAgentConfig { thread_id: Some(thread_id), ..self }
    }

    /// Use this model.
    pub fn with_model(self, model: String) -> (config: Self)
        ensures
            config == (CodexAgentConfig { model: Some(model), ..self }),
    {
        CodexAgentConfig { model: Some(model), ..self }
    }

    /// Run in this kind of sandbox.
    pub fn with_sandbox_mode(self, sandbox_mode: String) -> (config: Self)
        ensures
            config == (CodexAgentConfig { sandbox_mode: Some(sandbox_mode), ..self }),
    {
        CodexAgentConfig { sandbox_mode: Some(sandbox_mode), ..self }
    }

    /// Ask for approval under this policy.
    pub fn with_approval_policy(self, approval_policy: String) -> (config: Self)
        ensures
            config == (CodexAgentConfig { approval_policy: Some(approval_policy), ..self }),
    {
        CodexAgentConfig { approval_policy: Some(approval_policy), ..self }
    }

    /// Say whether the check for a repository is skipped.
    pub fn with_skip_git_repo_check(self, skip_git_repo_check: bool) -> (config: Self)
        ensures
            config == (CodexAgentConfig { skip_git_repo_check, ..self }),
    {
        CodexAgentConfig { skip_git_repo_check, ..self }
    }

    /// Say whether the network may be used.
    pub fn with_network_access(self, network_access_enabled: bool) -> (config: Self)
        ensures
            config == (CodexAgentConfig { network_access_enabled, ..self }),
    {
        CodexAgentConfig { network_access_enabled, ..self }
    }

    /// Allow these directories too.
    pub fn with_additional_directories(self, directories: Vec<String>) -> (config: Self)
        ensures
            config == (CodexAgentConfig { additional_directories: directories, ..self }),
    {
        CodexAgentConfig { additional_directories: directories, ..self }
    }

    /// The environment of the bridge process.
    pub open spec fn env(self) -> Seq<(Seq<char>, Seq<char>)> {
        let always = seq![
            ("MANGO_CWD"@, self.cwd@),
            ("MANGO_CODEX_PATH"@, self.codex_executable@),
            ("MANGO_SKIP_GIT_REPO_CHECK"@, flag_text(self.skip_git_repo_check)),
            ("MANGO_NETWORK_ACCESS_ENABLED"@, flag_text(self.network_access_enabled)),
        ];
        let threaded = with_variable(always, "MANGO_THREAD_ID"@, self.thread_id.deep_view());
        let modelled = with_variable(threaded, "MANGO_MODEL"@, self.model.deep_view());
        let boxed = with_variable(modelled, "MANGO_SANDBOX_MODE"@, self.sandbox_mode.deep_view());
        let approved = with_variable(
            boxed,
            "MANGO_APPROVAL_POLICY"@,
            self.approval_policy.deep_view(),
        );
        with_variable(
            approved,
            "MANGO_ADDITIONAL_DIRECTORIES_JSON"@,
            if self.additional_directories@.len() > 0 {
                Some(json_strings(self.additional_directories.deep_view()))
            } else {
                None
            },
        )
    }
}

/// How the bridge process of an agent is started.
pub fn build_command(config: CodexAgentConfig, js_dir: &str, script: &str) -> (process:
    BridgeProcess)
    ensures
        process.runs_script(js_dir@, script@, config.env()),
{
    let ghost whole = config;
    let CodexAgentConfig {
        cwd,
        codex_executable,
        thread_id,
        model,
        sandbox_mode,
        approval_policy,
        skip_git_repo_check,
        network_access_enabled,
        additional_directories,
    } = config;
    let mut env: Vec<(String, String)> = Vec::new();
    env.push(("MANGO_CWD".to_string(), cwd));
    env.push(("MANGO_CODEX_PATH".to_string(), codex_executable));
    env.push(
        ("MANGO_SKIP_GIT_REPO_CHECK".to_string(), flag_name(skip_git_repo_check).to_string()),
    );
    env.push(
        (
            "MANGO_NETWORK_ACCESS_ENABLED".to_string(),
            flag_name(network_access_enabled).to_string(),
        ),
    );
    assert(env.deep_view() =~= seq![
        ("MANGO_CWD"@, whole.cwd@),
        ("MANGO_CODEX_PATH"@, whole.codex_executable@),
        ("MANGO_SKIP_GIT_REPO_CHECK"@, flag_text(whole.skip_git_repo_check)),
        ("MANGO_NETWORK_ACCESS_ENABLED"@, flag_text(whole.network_access_enabled)),
    ]);
    push_variable(&mut env, "MANGO_THREAD_ID", thread_id);
    push_variable(&mut env, "MANGO_MODEL", model);
    push_variable(&mut env, "MANGO_SANDBOX_MODE", sandbox_mode);
    push_variable(&mut env, "MANGO_APPROVAL_POLICY", approval_policy);
    let directories_json = if additional_directories.len() > 0 {
        Some(json_strings_text(&additional_directories))
    } else {
        None
    };
    push_variable(&mut env, "MANGO_ADDITIONAL_DIRECTORIES_JSON", directories_json);
    BridgeProcess::node(js_dir, script, env)
}

/// What the bridge process is told.
#[derive(Debug, PartialEq)]
pub enum BridgeCommand {
    UserText { text: String },
    Interrupt,
    Close,
}

/// What a [`BridgeCommand`] holds.
#[verifier::ext_equal]
pub enum BridgeCommandModel {
    UserText { text: Seq<char> },
    Interrupt,
    Close,
}

impl DeepView for BridgeCommand {
    type V = BridgeCommandModel;

    open spec fn deep_view(&self) -> BridgeCommandModel {
        match self {
            BridgeCommand::UserText { text } => BridgeCommandModel::UserText {
                text: text.deep_view(),
            },
            BridgeCommand::Interrupt => BridgeCommandModel::Interrupt,
            BridgeCommand::Close => BridgeCommandModel::Close,
        }
    }
}

impl Clone for BridgeCommand {
    fn clone(&self) -> (copy: Self)
        ensures
            copy.deep_view() == self.deep_view(),
    {
        match self {
            BridgeCommand::UserText { text } => BridgeCommand::UserText {
                text: text.clone(),
            },
            BridgeCommand::Interrupt => BridgeCommand::Interrupt,
            BridgeCommand::Close => BridgeCommand::Close,
        }
    }
}

impl FaithfulClone for BridgeCommand {
    proof fn clone_keeps_model(original: Self, copy: Self) {
    }
}

impl BridgeCommandModel {
    /// The members of the command: its type first.
    pub open spec fn members(self) -> Seq<(Seq<char>, Seq<char>)> {
        match self {
            BridgeCommandModel::UserText { text } => seq![
                ("type"@, "user_text"@),
                ("text"@, text),
            ],
            BridgeCommandModel::Interrupt => seq![("type"@, "interrupt"@)],
            BridgeCommandModel::Close => seq![("type"@, "close"@)],
        }
    }

    /// The command as a line.
    pub open spec fn line(self) -> Seq<char> {
        json_members(self.members()) + "\n"@
    }
}

/// A command is exactly one line: it ends in a line break and holds no other.
pub proof fn command_is_one_line(command: BridgeCommandModel)
    ensures
        command.line().len() > 0,
        command.line().last() == '\n',
        is_one_line(command.line().drop_last()),
{
    json_members_are_one_line(command.members());
    reveal_strlit("\n");
    assert(command.line().drop_last() =~= json_members(command.members()));
}

impl BridgeCommand {
    /// The command as a line for the bridge process.
    pub fn to_line(&self) -> (line: String)
        ensures
            line@ == self.deep_view().line(),
    {
        let mut members: Vec<(String, String)> = Vec::new();
        match self {
            BridgeCommand::UserText { text } => {
                members.push(("type".to_string(), "user_text".to_string()));
                members.push(("text".to_string(), text.clone()));
            },
            BridgeCommand::Interrupt => {
                members.push(("type".to_string(), "interrupt".to_string()));
            },
            BridgeCommand::Close => {
                members.push(("type".to_string(), "close".to_string()));
            },
        }
        assert(members.deep_view() =~= self.deep_view().members());
        json_members_text(&members).concat("\n")
    }
}

/// What a bridge reports.
#[derive(Debug, PartialEq)]
pub enum CodexBridgeEvent {
    Ready,
    ThreadEvent { event: JsonValue },
    BridgeError { message: String },
    Stderr { line: String },
    Exited { code: Option<i32> },
}

/// What a [`CodexBridgeEvent`] holds.
#[verifier::ext_equal]
pub enum CodexBridgeEventModel {
    Ready,
    ThreadEvent { event: JsonModel },
    BridgeError { message: Seq<char> },
    Stderr { line: Seq<char> },
    Exited { code: Option<i32> },
}

impl DeepView for CodexBridgeEvent {
    type V = CodexBridgeEventModel;

    open spec fn deep_view(&self) -> CodexBridgeEventModel {
        match self {
            CodexBridgeEvent::Ready => CodexBridgeEventModel::Ready,
            CodexBridgeEvent::ThreadEvent { event } => CodexBridgeEventModel::ThreadEvent {
                event: event.deep_view(),
            },
            CodexBridgeEvent::BridgeError { message } => CodexBridgeEventModel::BridgeError {
                message: message.deep_view(),
            },
            CodexBridgeEvent::Stderr { line } => CodexBridgeEventModel::Stderr {
                line: line.deep_view(),
            },
            CodexBridgeEvent::Exited { code } => CodexBridgeEventModel::Exited {
                code: *code,
            },
        }
    }
}

impl Clone for CodexBridgeEvent {
    fn clone(&self) -> (copy: Self)
        ensures
            copy.deep_view() == self.deep_view(),
    {
        match self {
            CodexBridgeEvent::Ready => CodexBridgeEvent::Ready,
            CodexBridgeEvent::ThreadEvent { event } => CodexBridgeEvent::ThreadEvent {
                event: event.clone(),
            },
            CodexBridgeEvent::BridgeError { message } => CodexBridgeEvent::BridgeError {
                message: message.clone(),
            },
            CodexBridgeEvent::Stderr { line } => CodexBridgeEvent::Stderr {
                line: line.clone(),
            },
            CodexBridgeEvent::Exited { code } => CodexBridgeEvent::Exited {
                code: *code,
            },
        }
    }
}

impl FaithfulClone for CodexBridgeEvent {
    proof fn clone_keeps_model(original: Self, copy: Self) {
    }
}

/// What the bridge process says in one line.
#[derive(Debug, PartialEq)]
pub enum BridgeStdout {
    Ready,
    ThreadEvent { event: JsonValue },
    Error { message: String },
}

/// What a [`BridgeStdout`] holds.
#[verifier::ext_equal]
pub enum BridgeStdoutModel {
    Ready,
    ThreadEvent { event: JsonModel },
    Error { message: Seq<char> },
}

impl DeepView for BridgeStdout {
    type V = BridgeStdoutModel;

    open spec fn deep_view(&self) -> BridgeStdoutModel {
        match self {
            BridgeStdout::Ready => BridgeStdoutModel::Ready,
            BridgeStdout::ThreadEvent { event } => BridgeStdoutModel::ThreadEvent {
                event: event.deep_view(),
            },
            BridgeStdout::Error { message } => BridgeStdoutModel::Error {
                message: message.deep_view(),
            },
        }
    }
}

impl Clone for BridgeStdout {
    fn clone(&self) -> (copy: Self)
        ensures
            copy.deep_view() == self.deep_view(),
    {
        match self {
            BridgeStdout::Ready => BridgeStdout::Ready,
            BridgeStdout::ThreadEvent { event } => BridgeStdout::ThreadEvent {
                event: event.clone(),
            },
            BridgeStdout::Error { message } => BridgeStdout::Error {
                message: message.clone(),
            },
        }
    }
}

impl FaithfulClone for BridgeStdout {
    proof fn clone_keeps_model(original: Self, copy: Self) {
    }
}

/// What a bridge reports of a line that was read as `parsed`.
pub open spec fn event_of_line(
    parsed: Result<BridgeStdoutModel, Seq<char>>,
    line: Seq<char>,
) -> CodexBridgeEventModel {
    match parsed {
        Ok(BridgeStdoutModel::Ready) => CodexBridgeEventModel::Ready,
        Ok(BridgeStdoutModel::ThreadEvent { event }) => CodexBridgeEventModel::ThreadEvent {
            event,
        },
        Ok(BridgeStdoutModel::Error { message }) => CodexBridgeEventModel::BridgeError { message },
        Err(reason) => CodexBridgeEventModel::BridgeError { message: invalid_line(reason, line) },
    }
}

/// What a bridge reports of a line that was read as `parsed`, or could not be read.
pub fn handle_stdout_line(parsed: Result<BridgeStdout, String>, line: &str) -> (event:
    CodexBridgeEvent)
    ensures
        event.deep_view() == event_of_line(
            match parsed {
                Ok(said) => Ok(said.deep_view()),
                Err(reason) => Err(reason@),
            },
            line@,
        ),
{
    match parsed {
        Ok(BridgeStdout::Ready) => CodexBridgeEvent::Ready,
        Ok(BridgeStdout::ThreadEvent { event }) => CodexBridgeEvent::ThreadEvent { event },
        Ok(BridgeStdout::Error { message }) => CodexBridgeEvent::BridgeError { message },
        Err(reason) => CodexBridgeEvent::BridgeError {
            message: invalid_line_text(reason.as_str(), line),
        },
    }
}

}
