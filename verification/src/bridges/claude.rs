//! The bridge that speaks to a coding agent over its software development kit.

use crate::bridges::process::{
    flag_text, invalid_line, invalid_line_text, push_variable, with_variable, BridgeProcess,
};
use crate::json::{JsonModel, JsonValue};
use crate::json_text::{
    is_one_line, json_members, json_members_are_one_line, json_members_text, json_strings,
    json_strings_text,
};
use crate::model::FaithfulClone;
use vstd::prelude::*;
use vstd::std_specs::convert::FromSpecImpl;

verus! {

/// The tools that an agent may use.
#[derive(Debug, PartialEq)]
pub enum ClaudeToolChoice {
    Named(Vec<String>),
    Preset {
        kind: String,
        preset: String,
    },
}

/// What a [`ClaudeToolChoice`] holds.
#[verifier::ext_equal]
pub enum ClaudeToolChoiceModel {
    Named(Seq<Seq<char>>),
    Preset {
        kind: Seq<char>,
        preset: Seq<char>,
    },
}

impl DeepView for ClaudeToolChoice {
    type V = ClaudeToolChoiceModel;

    open spec fn deep_view(&self) -> ClaudeToolChoiceModel {
        match self {
            ClaudeToolChoice::Named(value) => ClaudeToolChoiceModel::Named(value.deep_view()),
            ClaudeToolChoice::Preset { kind, preset } => ClaudeToolChoiceModel::Preset {
                kind: kind.deep_view(),
                preset: preset.deep_view(),
            },
        }
    }
}

impl Clone for ClaudeToolChoice {
    fn clone(&self) -> (copy: Self)
        ensures
            copy.deep_view() == self.deep_view(),
    {
        match self {
            ClaudeToolChoice::Named(value) => {
                let copy = value.clone();
                assert(copy.deep_view() =~= value.deep_view());
                ClaudeToolChoice::Named(copy)
            },
            ClaudeToolChoice::Preset { kind, preset } => ClaudeToolChoice::Preset {
                kind: kind.clone(),
                preset: preset.clone(),
            },
        }
    }
}

impl FaithfulClone for ClaudeToolChoice {
    proof fn clone_keeps_model(original: Self, copy: Self) {
    }
}

impl From<Vec<String>> for ClaudeToolChoice {
    fn from(names: Vec<String>) -> (choice: Self) {
        ClaudeToolChoice::Named(names)
    }
}

impl FromSpecImpl<Vec<String>> for ClaudeToolChoice {
    open spec fn obeys_from_spec() -> bool {
        true
    }

    open spec fn from_spec(names: Vec<String>) -> Self {
        ClaudeToolChoice::Named(names)
    }
}

impl ClaudeToolChoice {
    /// The agent's own preset of tools.
    pub fn claude_code_preset() -> (choice: Self)
        ensures
            choice.deep_view() == (ClaudeToolChoiceModel::Preset {
                kind: "preset"@,
                preset: "claude_code"@,
            }),
    {
        ClaudeToolChoice::Preset { kind: "preset".to_string(), preset: "claude_code".to_string() }
    }

    /// The choice as JSON: the names in a list, or the preset as an object.
    pub fn to_json(&self) -> (written: String)
        ensures
            written@ == self.deep_view().written(),
    {
        match self {
            ClaudeToolChoice::Named(names) => json_strings_text(names),
            ClaudeToolChoice::Preset { kind, preset } => {
                let mut members: Vec<(String, String)> = Vec::new();
                members.push(("type".to_string(), kind.clone()));
                members.push(("preset".to_string(), preset.clone()));
                assert(members.deep_view() =~= seq![("type"@, kind@), ("preset"@, preset@)]);
                json_members_text(&members)
            },
        }
    }
}

impl ClaudeToolChoiceModel {
    /// The choice as JSON: the names in a list, or the preset as an object.
    pub open spec fn written(self) -> Seq<char> {
        match self {
            ClaudeToolChoiceModel::Named(names) => json_strings(names),
            ClaudeToolChoiceModel::Preset { kind, preset } => json_members(
                seq![("type"@, kind), ("preset"@, preset)],
            ),
        }
    }
}

/// Whether a session outlives its process.
#[derive(Debug, Clone, Copy, PartialEq, Eq, Structural)]
pub enum ClaudeSessionPersistence {
    Persistent,
    Ephemeral,
}

impl Default for ClaudeSessionPersistence {
    fn default() -> (mode: Self)
        ensures
            mode == ClaudeSessionPersistence::Persistent,
    {
        ClaudeSessionPersistence::Persistent
    }
}

impl ClaudeSessionPersistence {
    /// Whether the session is kept.
    pub open spec fn is_set(self) -> bool {
        self == ClaudeSessionPersistence::Persistent
    }

    /// The mode as the bridge reads it.
    pub fn as_env_value(self) -> (value: &'static str)
        ensures
            value@ == flag_text(self.is_set()),
    {
        match self {
            ClaudeSessionPersistence::Persistent => "true",
            ClaudeSessionPersistence::Ephemeral => "false",
        }
    }
}

/// Whether messages come in pieces.
#[derive(Debug, Clone, Copy, PartialEq, Eq, Structural)]
pub enum ClaudePartialMessageMode {
    Include,
    Exclude,
}

impl Default for ClaudePartialMessageMode {
    fn default() -> (mode: Self)
        ensures
            mode == ClaudePartialMessageMode::Include,
    {
        ClaudePartialMessageMode::Include
    }
}

impl ClaudePartialMessageMode {
    /// Whether pieces of messages are reported.
    pub open spec fn is_set(self) -> bool {
        self == ClaudePartialMessageMode::Include
    }

    /// The mode as the bridge reads it.
    pub fn as_env_value(self) -> (value: &'static str)
        ensures
            value@ == flag_text(self.is_set()),
    {
        match self {
            ClaudePartialMessageMode::Include => "true",
            ClaudePartialMessageMode::Exclude => "false",
        }
    }
}

/// Whether a turn follows on the one before.
#[derive(Debug, Clone, Copy, PartialEq, Eq, Structural)]
pub enum ClaudeTurnMode {
    Conversational,
    OneShot,
}

impl Default for ClaudeTurnMode {
    fn default() -> (mode: Self)
        ensures
            mode == ClaudeTurnMode::Conversational,
    {
        ClaudeTurnMode::Conversational
    }
}

impl ClaudeTurnMode {
    /// Whether each turn stands alone.
    pub open spec fn is_set(self) -> bool {
        self == ClaudeTurnMode::OneShot
    }

    /// The mode as the bridge reads it.
    pub fn as_env_value(self) -> (value: &'static str)
        ensures
            value@ == flag_text(self.is_set()),
    {
        match self {
            ClaudeTurnMode::Conversational => "false",
            ClaudeTurnMode::OneShot => "true",
        }
    }
}

/// Whether tool calls are reported.
#[derive(Debug, Clone, Copy, PartialEq, Eq, Structural)]
pub enum ClaudeToolUseHookMode {
    Disabled,
    Enabled,
}

impl Default for ClaudeToolUseHookMode {
    fn default() -> (mode: Self)
        ensures
            mode == ClaudeToolUseHookMode::Disabled,
    {
        ClaudeToolUseHookMode::Disabled
    }
}

impl ClaudeToolUseHookMode {
    /// Whether tool calls are reported.
    pub open spec fn is_set(self) -> bool {
        self == ClaudeToolUseHookMode::Enabled
    }

    /// The mode as the bridge reads it.
    pub fn as_env_value(self) -> (value: &'static str)
        ensures
            value@ == flag_text(self.is_set()),
    {
        match self {
            ClaudeToolUseHookMode::Disabled => "false",
            ClaudeToolUseHookMode::Enabled => "true",
        }
    }
}

/// A set of tools that the host offers.
#[derive(Debug, Clone, Copy, PartialEq, Eq, Structural)]
pub enum ClaudeMcpToolset {
    MangoCoding,
}

impl ClaudeMcpToolset {
    /// The toolset as JSON.
    pub fn to_json(self) -> (written: &'static str)
        ensures
            written@ == "\"mango_coding\""@,
    {
        match self {
            ClaudeMcpToolset::MangoCoding => "\"mango_coding\"",
        }
    }
}

/// How the bridged agent is run.
#[derive(Debug, Clone)]
pub struct ClaudeAgentConfig {
    pub cwd: String,
    pub session_id: String,
    pub claude_executable: String,
    pub model: Option<String>,
    pub tools: Option<ClaudeToolChoice>,
    pub system_prompt_append: Option<String>,
    pub session_persistence: ClaudeSessionPersistence,
    pub partial_message_mode: ClaudePartialMessageMode,
    pub turn_mode: ClaudeTurnMode,
    pub tool_use_hook_mode: ClaudeToolUseHookMode,
    pub mcp_toolset: Option<ClaudeMcpToolset>,
}

impl ClaudeAgentConfig {
    /// Run `claude_executable` in `cwd`, with everything else as it is by default.
    pub fn new(cwd: String, session_id: String, claude_executable: String) -> (config: Self)
        ensures
            config == (ClaudeAgentConfig {
                cwd,
                session_id,
                claude_executable,
                model: None,
                tools: None,
                system_prompt_append: None,
                session_persistence: ClaudeSessionPersistence::Persistent,
                partial_message_mode: ClaudePartialMessageMode::Include,
                turn_mode: ClaudeTurnMode::Conversational,
                tool_use_hook_mode: ClaudeToolUseHookMode::Disabled,
                mcp_toolset: None,
            }),
    {
        ClaudeAgentConfig {
            cwd,
            session_id,
            claude_executable,
            model: None,
            tools: None,
            system_prompt_append: None,
            session_persistence: ClaudeSessionPersistence::Persistent,
            partial_message_mode: ClaudePartialMessageMode::Include,
            turn_mode: ClaudeTurnMode::Conversational,
            tool_use_hook_mode: ClaudeToolUseHookMode::Disabled,
            mcp_toolset: None,
        }
    }

    /// Use this model.
    pub fn with_model(self, model: String) -> (config: Self)
        ensures
            config == (ClaudeAgentConfig { model: Some(model), ..self }),
    {
        ClaudeAgentConfig { model: Some(model), ..self }
    }

    /// Allow these tools.
    pub fn with_tools(self, tools: ClaudeToolChoice) -> (config: Self)
        ensures
            config == (ClaudeAgentConfig { tools: Some(tools), ..self }),
    {
        ClaudeAgentConfig { tools: Some(tools), ..self }
    }

    /// Allow the agent's own preset of tools.
    pub fn with_default_claude_code_tools(self) -> (config: Self)
        ensures
            config.tools matches Some(tools) && tools.deep_view() == (
            ClaudeToolChoiceModel::Preset { kind: "preset"@, preset: "claude_code"@ }),
            config == (ClaudeAgentConfig { tools: config.tools, ..self }),
    {
        ClaudeAgentConfig { tools: Some(ClaudeToolChoice::claude_code_preset()), ..self }
    }

    /// Say this after the system prompt.
    pub fn with_system_prompt_append(self, prompt: String) -> (config: Self)
        ensures
            config == (ClaudeAgentConfig { system_prompt_append: Some(prompt), ..self }),
    {
        ClaudeAgentConfig { system_prompt_append: Some(prompt), ..self }
    }

    /// Keep the session.
    pub fn with_persistent_session(self) -> (config: Self)
        ensures
            config == (ClaudeAgentConfig { session_persistence: ClaudeSessionPersistence::Persistent, ..self }),
    {
        ClaudeAgentConfig { session_persistence: ClaudeSessionPersistence::Persistent, ..self }
    }

    /// Forget the session.
    pub fn with_ephemeral_session(self) -> (config: Self)
        ensures
            config == (ClaudeAgentConfig { session_persistence: ClaudeSessionPersistence::Ephemeral, ..self }),
    {
        ClaudeAgentConfig { session_persistence: ClaudeSessionPersistence::Ephemeral, ..self }
    }

    /// Report pieces of messages.
    pub fn with_partial_messages(self) -> (config: Self)
        ensures
            config == (ClaudeAgentConfig { partial_message_mode: ClaudePartialMessageMode::Include, ..self }),
    {
        ClaudeAgentConfig { partial_message_mode: ClaudePartialMessageMode::Include, ..self }
    }

    /// Report whole messages only.
    pub fn without_partial_messages(self) -> (config: Self)
        ensures
            config == (ClaudeAgentConfig { partial_message_mode: ClaudePartialMessageMode::Exclude, ..self }),
    {
        ClaudeAgentConfig { partial_message_mode: ClaudePartialMessageMode::Exclude, ..self }
    }

    /// Let each turn stand alone.
    pub fn with_one_shot_turns(self) -> (config: Self)
        ensures
            config == (ClaudeAgentConfig { turn_mode: ClaudeTurnMode::OneShot, ..self }),
    {
        ClaudeAgentConfig { turn_mode: ClaudeTurnMode::OneShot, ..self }
    }

    /// Let each turn follow on the one before.
    pub fn with_conversational_turns(self) -> (config: Self)
        ensures
            config == (ClaudeAgentConfig { turn_mode: ClaudeTurnMode::Conversational, ..self }),
    {
        ClaudeAgentConfig { turn_mode: ClaudeTurnMode::Conversational, ..self }
    }

    /// Report tool calls.
    pub fn with_tool_use_hooks(self) -> (config: Self)
        ensures
            config == (ClaudeAgentConfig { tool_use_hook_mode: ClaudeToolUseHookMode::Enabled, ..self }),
    {
        ClaudeAgentConfig { tool_use_hook_mode: ClaudeToolUseHookMode::Enabled, ..self }
    }

    /// Do not report tool calls.
    pub fn without_tool_use_hooks(self) -> (config: Self)
        ensures
            config == (ClaudeAgentConfig { tool_use_hook_mode: ClaudeToolUseHookMode::Disabled, ..self }),
    {
        ClaudeAgentConfig { tool_use_hook_mode: ClaudeToolUseHookMode::Disabled, ..self }
    }

    /// Offer the coding tools of the host.
    pub fn with_mango_coding_tools(self) -> (config: Self)
        ensures
            config == (ClaudeAgentConfig { mcp_toolset: Some(ClaudeMcpToolset::MangoCoding), ..self }),
    {
        ClaudeAgentConfig { mcp_toolset: Some(ClaudeMcpToolset::MangoCoding), ..self }
    }

    /// The environment of the bridge process.
    pub open spec fn env(self) -> Seq<(Seq<char>, Seq<char>)> {
        let always = seq![
            ("MANGO_CWD"@, self.cwd@),
            ("MANGO_SESSION_ID"@, self.session_id@),
            ("MANGO_CLAUDE_PATH"@, self.claude_executable@),
            ("MANGO_PERSIST_SESSION"@, flag_text(self.session_persistence.is_set())),
            ("MANGO_INCLUDE_PARTIAL_MESSAGES"@, flag_text(self.partial_message_mode.is_set())),
            ("MANGO_ONESHOT_TURNS"@, flag_text(self.turn_mode.is_set())),
            ("MANGO_EMIT_TOOL_USE_HOOKS"@, flag_text(self.tool_use_hook_mode.is_set())),
        ];
        let modelled = with_variable(always, "MANGO_MODEL"@, self.model.deep_view());
        let prompted = with_variable(
            modelled,
            "MANGO_SYSTEM_PROMPT_APPEND"@,
            self.system_prompt_append.deep_view(),
        );
        let tooled = with_variable(
            prompted,
            "MANGO_TOOLS_JSON"@,
            match self.tools {
                Some(tools) => Some(tools.deep_view().written()),
                None => None,
            },
        );
        with_variable(
            tooled,
            "MANGO_MCP_TOOLSET"@,
            match self.mcp_toolset {
                Some(_) => Some("\"mango_coding\""@),
                None => None,
            },
        )
    }
}

/// How the bridge process of an agent is started.
pub fn build_command(config: ClaudeAgentConfig, js_dir: &str, script: &str) -> (process:
    BridgeProcess)
    ensures
        process.runs_script(js_dir@, script@, config.env()),
{
    let ghost whole = config;
    let ClaudeAgentConfig {
        cwd,
        session_id,
        claude_executable,
        model,
        tools,
        system_prompt_append,
        session_persistence,
        partial_message_mode,
        turn_mode,
        tool_use_hook_mode,
        mcp_toolset,
    } = config;
    let mut env: Vec<(String, String)> = Vec::new();
    env.push(("MANGO_CWD".to_string(), cwd));
    env.push(("MANGO_SESSION_ID".to_string(), session_id));
    env.push(("MANGO_CLAUDE_PATH".to_string(), claude_executable));
    env.push(
        ("MANGO_PERSIST_SESSION".to_string(), session_persistence.as_env_value().to_string()),
    );
    env.push(
        (
            "MANGO_INCLUDE_PARTIAL_MESSAGES".to_string(),
            partial_message_mode.as_env_value().to_string(),
        ),
    );
    env.push(("MANGO_ONESHOT_TURNS".to_string(), turn_mode.as_env_value().to_string()));
    env.push(
        ("MANGO_EMIT_TOOL_USE_HOOKS".to_string(), tool_use_hook_mode.as_env_value().to_string()),
    );
    assert(env.deep_view() =~= seq![
        ("MANGO_CWD"@, whole.cwd@),
        ("MANGO_SESSION_ID"@, whole.session_id@),
        ("MANGO_CLAUDE_PATH"@, whole.claude_executable@),
        ("MANGO_PERSIST_SESSION"@, flag_text(whole.session_persistence.is_set())),
        ("MANGO_INCLUDE_PARTIAL_MESSAGES"@, flag_text(whole.partial_message_mode.is_set())),
        ("MANGO_ONESHOT_TURNS"@, flag_text(whole.turn_mode.is_set())),
        ("MANGO_EMIT_TOOL_USE_HOOKS"@, flag_text(whole.tool_use_hook_mode.is_set())),
    ]);
    push_variable(&mut env, "MANGO_MODEL", model);
    push_variable(&mut env, "MANGO_SYSTEM_PROMPT_APPEND", system_prompt_append);
    let tools_json = match &tools {
        Some(tools) => Some(tools.to_json()),
        None => None,
    };
    push_variable(&mut env, "MANGO_TOOLS_JSON", tools_json);
    let toolset_json = match mcp_toolset {
        Some(toolset) => Some(toolset.to_json().to_string()),
        None => None,
    };
    push_variable(&mut env, "MANGO_MCP_TOOLSET", toolset_json);
    BridgeProcess::node(js_dir, script, env)
}

/// What the bridge process is told.
#[derive(Debug, PartialEq)]
pub enum BridgeCommand {
    UserText { text: String },
    ToolSuccess {
        request_id: String,
        output: String,
    },
    ToolFailure {
        request_id: String,
        message: String,
    },
    Interrupt,
    Close,
}

/// What a [`BridgeCommand`] holds.
#[verifier::ext_equal]
pub enum BridgeCommandModel {
    UserText { text: Seq<char> },
    ToolSuccess {
        request_id: Seq<char>,
        output: Seq<char>,
    },
    ToolFailure {
        request_id: Seq<char>,
        message: Seq<char>,
    },
    Interrupt,
    Close,
}

impl DeepView for BridgeCommand {
    type V = BridgeCommandModel;

    open spec fn deep_view(&self) -> BridgeCommandModel {
        match self {
            BridgeCommand::UserText { text } => BridgeCommandModel::UserText {
                text: text.deep_view(),
            },
            BridgeCommand::ToolSuccess { request_id, output } => BridgeCommandModel::ToolSuccess {
                request_id: request_id.deep_view(),
                output: output.deep_view(),
            },
            BridgeCommand::ToolFailure { request_id, message } => BridgeCommandModel::ToolFailure {
                request_id: request_id.deep_view(),
                message: message.deep_view(),
            },
            BridgeCommand::Interrupt => BridgeCommandModel::Interrupt,
            BridgeCommand::Close => BridgeCommandModel::Close,
        }
    }
}

impl Clone for BridgeCommand {
    fn clone(&self) -> (copy: Self)
        ensures
            copy.deep_view() == self.deep_view(),
    {
        match self {
            BridgeCommand::UserText { text } => BridgeCommand::UserText {
                text: text.clone(),
            },
            BridgeCommand::ToolSuccess { request_id, output } => BridgeCommand::ToolSuccess {
                request_id: request_id.clone(),
                output: output.clone(),
            },
            BridgeCommand::ToolFailure { request_id, message } => BridgeCommand::ToolFailure {
                request_id: request_id.clone(),
                message: message.clone(),
            },
            BridgeCommand::Interrupt => BridgeCommand::Interrupt,
            BridgeCommand::Close => BridgeCommand::Close,
        }
    }
}

impl FaithfulClone for BridgeCommand {
    proof fn clone_keeps_model(original: Self, copy: Self) {
    }
}

impl BridgeCommandModel {
    /// The members of the command: its type first.
    pub open spec fn members(self) -> Seq<(Seq<char>, Seq<char>)> {
        match self {
            BridgeCommandModel::UserText { text } => seq![
                ("type"@, "user_text"@),
                ("text"@, text),
            ],
            BridgeCommandModel::ToolSuccess { request_id, output } => seq![
                ("type"@, "tool_success"@),
                ("request_id"@, request_id),
                ("output"@, output),
            ],
            BridgeCommandModel::ToolFailure { request_id, message } => seq![
                ("type"@, "tool_failure"@),
                ("request_id"@, request_id),
                ("message"@, message),
            ],
            BridgeCommandModel::Interrupt => seq![("type"@, "interrupt"@)],
            BridgeCommandModel::Close => seq![("type"@, "close"@)],
        }
    }

    /// The command as a line.
    pub open spec fn line(self) -> Seq<char> {
        json_members(self.members()) + "\n"@
    }
}

/// A command is exactly one line: it ends in a line break and holds no other.
pub proof fn command_is_one_line(command: BridgeCommandModel)
    ensures
        command.line().len() > 0,
        command.line().last() == '\n',
        is_one_line(command.line().drop_last()),
{
    json_members_are_one_line(command.members());
    reveal_strlit("\n");
    assert(command.line().drop_last() =~= json_members(command.members()));
}

impl BridgeCommand {
    /// The command as a line for the bridge process.
    pub fn to_line(&self) -> (line: String)
        ensures
            line@ == self.deep_view().line(),
    {
        let mut members: Vec<(String, String)> = Vec::new();
        match self {
            BridgeCommand::UserText { text } => {
                members.push(("type".to_string(), "user_text".to_string()));
                members.push(("text".to_string(), text.clone()));
            },
            BridgeCommand::ToolSuccess { request_id, output } => {
                members.push(("type".to_string(), "tool_success".to_string()));
                members.push(("request_id".to_string(), request_id.clone()));
                members.push(("output".to_string(), output.clone()));
            },
            BridgeCommand::ToolFailure { request_id, message } => {
                members.push(("type".to_string(), "tool_failure".to_string()));
                members.push(("request_id".to_string(), request_id.clone()));
                members.push(("message".to_string(), message.clone()));
            },
            BridgeCommand::Interrupt => {
                members.push(("type".to_string(), "interrupt".to_string()));
            },
            BridgeCommand::Close => {
                members.push(("type".to_string(), "close".to_string()));
            },
        }
        assert(members.deep_view() =~= self.deep_view().members());
        json_members_text(&members).concat("\n")
    }
}

/// What a bridge reports.
#[derive(Debug, PartialEq)]
pub enum ClaudeBridgeEvent {
    Ready { session_id: String },
    ToolCallRequested {
        request_id: String,
        tool_name: String,
        input: JsonValue,
    },
    SdkMessage { message: JsonValue },
    BridgeError { message: String },
    Stderr { line: String },
    Exited { code: Option<i32> },
}

/// What a [`ClaudeBridgeEvent`] holds.
#[verifier::ext_equal]
pub enum ClaudeBridgeEventModel {
    Ready { session_id: Seq<char> },
    ToolCallRequested {
        request_id: Seq<char>,
        tool_name: Seq<char>,
        input: JsonModel,
    },
    SdkMessage { message: JsonModel },
    BridgeError { message: Seq<char> },
    Stderr { line: Seq<char> },
    Exited { code: Option<i32> },
}

impl DeepView for ClaudeBridgeEvent {
    type V = ClaudeBridgeEventModel;

    open spec fn deep_view(&self) -> ClaudeBridgeEventModel {
        match self {
            ClaudeBridgeEvent::Ready { session_id } => ClaudeBridgeEventModel::Ready {
                session_id: session_id.deep_view(),
            },
            ClaudeBridgeEvent::ToolCallRequested { request_id, tool_name, input } => ClaudeBridgeEventModel::ToolCallRequested {
                request_id: request_id.deep_view(),
                tool_name: tool_name.deep_view(),
                input: input.deep_view(),
            },
            ClaudeBridgeEvent::SdkMessage { message } => ClaudeBridgeEventModel::SdkMessage {
                message: message.deep_view(),
            },
            ClaudeBridgeEvent::BridgeError { message } => ClaudeBridgeEventModel::BridgeError {
                message: message.deep_view(),
            },
            ClaudeBridgeEvent::Stderr { line } => ClaudeBridgeEventModel::Stderr {
                line: line.deep_view(),
            },
            ClaudeBridgeEvent::Exited { code } => ClaudeBridgeEventModel::Exited {
                code: *code,
            },
        }
    }
}

impl Clone for ClaudeBridgeEvent {
    fn clone(&self) -> (copy: Self)
        ensures
            copy.deep_view() == self.deep_view(),
    {
        match self {
            ClaudeBridgeEvent::Ready { session_id } => ClaudeBridgeEvent::Ready {
                session_id: session_id.clone(),
            },
            ClaudeBridgeEvent::ToolCallRequested { request_id, tool_name, input } => ClaudeBridgeEvent::ToolCallRequested {
                request_id: request_id.clone(),
                tool_name: tool_name.clone(),
                input: input.clone(),
            },
            ClaudeBridgeEvent::SdkMessage { message } => ClaudeBridgeEvent::SdkMessage {
                message: message.clone(),
            },
            ClaudeBridgeEvent::BridgeError { message } => ClaudeBridgeEvent::BridgeError {
                message: message.clone(),
            },
            ClaudeBridgeEvent::Stderr { line } => ClaudeBridgeEvent::Stderr {
                line: line.clone(),
            },
            ClaudeBridgeEvent::Exited { code } => ClaudeBridgeEvent::Exited {
                code: *code,
            },
        }
    }
}

impl FaithfulClone for ClaudeBridgeEvent {
    proof fn clone_keeps_model(original: Self, copy: Self) {
    }
}

/// What the bridge process says in one line.
#[derive(Debug, PartialEq)]
pub enum BridgeStdout {
    Ready { session_id: String },
    ToolCallRequested {
        request_id: String,
        tool_name: String,
        input: JsonValue,
    },
    SdkMessage { message: JsonValue },
    Error { message: String },
}

/// What a [`BridgeStdout`] holds.
#[verifier::ext_equal]
pub enum BridgeStdoutModel {
    Ready { session_id: Seq<char> },
    ToolCallRequested {
        request_id: Seq<char>,
        tool_name: Seq<char>,
        input: JsonModel,
    },
    SdkMessage { message: JsonModel },
    Error { message: Seq<char> },
}

impl DeepView for BridgeStdout {
    type V = BridgeStdoutModel;

    open spec fn deep_view(&self) -> BridgeStdoutModel {
        match self {
            BridgeStdout::Ready { session_id } => BridgeStdoutModel::Ready {
                session_id: session_id.deep_view(),
            },
            BridgeStdout::ToolCallRequested { request_id, tool_name, input } => BridgeStdoutModel::ToolCallRequested {
                request_id: request_id.deep_view(),
                tool_name: tool_name.deep_view(),
                input: input.deep_view(),
            },
            BridgeStdout::SdkMessage { message } => BridgeStdoutModel::SdkMessage {
                message: message.deep_view(),
            },
            BridgeStdout::Error { message } => BridgeStdoutModel::Error {
                message: message.deep_view(),
            },
        }
    }
}

impl Clone for BridgeStdout {
    fn clone(&self) -> (copy: Self)
        ensures
            copy.deep_view() == self.deep_view(),
    {
        match self {
            BridgeStdout::Ready { session_id } => BridgeStdout::Ready {
                session_id: session_id.clone(),
            },
            BridgeStdout::ToolCallRequested { request_id, tool_name, input } => BridgeStdout::ToolCallRequested {
                request_id: request_id.clone(),
                tool_name: tool_name.clone(),
                input: input.clone(),
            },
            BridgeStdout::SdkMessage { message } => BridgeStdout::SdkMessage {
                message: message.clone(),
            },
            BridgeStdout::Error { message } => BridgeStdout::Error {
                message: message.clone(),
            },
        }
    }
}

impl FaithfulClone for BridgeStdout {
    proof fn clone_keeps_model(original: Self, copy: Self) {
    }
}

/// What a bridge reports of a line that was read as `parsed`.
pub open spec fn event_of_line(
    parsed: Result<BridgeStdoutModel, Seq<char>>,
    line: Seq<char>,
) -> ClaudeBridgeEventModel {
    match parsed {
        Ok(BridgeStdoutModel::Ready { session_id }) => ClaudeBridgeEventModel::Ready { session_id },
        Ok(BridgeStdoutModel::ToolCallRequested { request_id, tool_name, input }) => {
            ClaudeBridgeEventModel::ToolCallRequested { request_id, tool_name, input }
        },
        Ok(BridgeStdoutModel::SdkMessage { message }) => ClaudeBridgeEventModel::SdkMessage {
            message,
        },
        Ok(BridgeStdoutModel::Error { message }) => ClaudeBridgeEventModel::BridgeError { message },
        Err(reason) => ClaudeBridgeEventModel::BridgeError { message: invalid_line(reason, line) },
    }
}

/// What a bridge reports of a line that was read as `parsed`, or could not be read.
pub fn handle_stdout_line(parsed: Result<BridgeStdout, String>, line: &str) -> (event:
    ClaudeBridgeEvent)
    ensures
        event.deep_view() == event_of_line(
            match parsed {
                Ok(said) => Ok(said.deep_view()),
                Err(reason) => Err(reason@),
            },
            line@,
        ),
{
    match parsed {
        Ok(BridgeStdout::Ready { session_id }) => ClaudeBridgeEvent::Ready { session_id },
        Ok(BridgeStdout::ToolCallRequested { request_id, tool_name, input }) => {
            ClaudeBridgeEvent::ToolCallRequested { request_id, tool_name, input }
        },
        Ok(BridgeStdout::SdkMessage { message }) => ClaudeBridgeEvent::SdkMessage { message },
        Ok(BridgeStdout::Error { message }) => ClaudeBridgeEvent::BridgeError { message },
        Err(reason) => ClaudeBridgeEvent::BridgeError {
            message: invalid_line_text(reason.as_str(), line),
        },
    }
}

}
