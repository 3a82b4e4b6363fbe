//! What holds of what the bridges are run with, are told and answer.

use crate::bridges::claude::{
    self, ClaudeAgentConfig, ClaudeBridgeEventModel, ClaudePartialMessageMode,
    ClaudeSessionPersistence, ClaudeToolChoice, ClaudeToolChoiceModel, ClaudeToolUseHookMode,
    ClaudeTurnMode,
};
use crate::bridges::codex::{self, CodexAgentConfig, CodexBridgeEventModel};
use crate::bridges::process::{flag_text, is_blank_line, with_variable, BridgeProcess};
use crate::json::JsonModel;
use crate::json_text::{json_strings, json_string};
use crate::telegram::client::is_white_space;
use vstd::prelude::*;
use vstd::std_specs::convert::FromSpec;

verus! {

/// A bridge is its script run by `node`, with nothing else on its command line, in the
/// directory of its sources.
pub proof fn bridge_runs_its_script(
    process: BridgeProcess,
    js_dir: Seq<char>,
    script: Seq<char>,
    env: Seq<(Seq<char>, Seq<char>)>,
)
    requires
        process.runs_script(js_dir, script, env),
    ensures
        process.program@ == "node"@,
        process.args@.len() == 1,
        process.args@[0]@ == script,
        process.current_dir@ == js_dir,
        process.env@.len() == env.len(),
        forall|i: int|
            0 <= i < env.len() ==> (#[trigger] process.env@[i]).0@ == env[i].0
                && process.env@[i].1@ == env[i].1,
{
    assert(process.args.deep_view().len() == process.args@.len());
    assert(process.args.deep_view()[0] == process.args@[0]@);
    assert(process.env.deep_view().len() == process.env@.len());
    assert forall|i: int| 0 <= i < env.len() implies (#[trigger] process.env@[i]).0@ == env[i].0
        && process.env@[i].1@ == env[i].1 by {
        assert(process.env.deep_view()[i] == (process.env@[i].0@, process.env@[i].1@));
    }
}

proof fn lemma_variable_is_added(
    env: Seq<(Seq<char>, Seq<char>)>,
    name: Seq<char>,
    value: Option<Seq<char>>,
)
    ensures
        with_variable(env, name, value) == env + (match value {
            Some(value) => seq![(name, value)],
            None => Seq::empty(),
        }),
{
    assert(env + Seq::empty() =~= env);
    if let Some(value) = value {
        assert(env.push((name, value)) =~= env + seq![(name, value)]);
    }
}

/// The agent is told where it works, which session it goes on with, how it behaves, and
/// behind that exactly what was chosen for it.
pub proof fn claude_is_told_its_config(config: ClaudeAgentConfig)
    ensures
        config.env() == seq![
            ("MANGO_CWD"@, config.cwd@),
            ("MANGO_SESSION_ID"@, config.session_id@),
            ("MANGO_CLAUDE_PATH"@, config.claude_executable@),
            (
                "MANGO_PERSIST_SESSION"@,
                match config.session_persistence {
                    ClaudeSessionPersistence::Persistent => "true"@,
                    ClaudeSessionPersistence::Ephemeral => "false"@,
                },
            ),
            (
                "MANGO_INCLUDE_PARTIAL_MESSAGES"@,
                match config.partial_message_mode {
                    ClaudePartialMessageMode::Include => "true"@,
                    ClaudePartialMessageMode::Exclude => "false"@,
                },
            ),
            (
                "MANGO_ONESHOT_TURNS"@,
                match config.turn_mode {
                    ClaudeTurnMode::OneShot => "true"@,
                    ClaudeTurnMode::Conversational => "false"@,
                },
            ),
            (
                "MANGO_EMIT_TOOL_USE_HOOKS"@,
                match config.tool_use_hook_mode {
                    ClaudeToolUseHookMode::Enabled => "true"@,
                    ClaudeToolUseHookMode::Disabled => "false"@,
                },
            ),
        ] + (match config.model {
            Some(model) => seq![("MANGO_MODEL"@, model@)],
            None => Seq::empty(),
        }) + (match config.system_prompt_append {
            Some(prompt) => seq![("MANGO_SYSTEM_PROMPT_APPEND"@, prompt@)],
            None => Seq::empty(),
        }) + (match config.tools {
            Some(tools) => seq![("MANGO_TOOLS_JSON"@, tools.deep_view().written())],
            None => Seq::empty(),
        }) + (match config.mcp_toolset {
            Some(_) => seq![("MANGO_MCP_TOOLSET"@, "\"mango_coding\""@)],
            None => Seq::empty(),
        }),
{
    let always = config.env().take(7);
    let modelled = with_variable(always, "MANGO_MODEL"@, config.model.deep_view());
    let prompted = with_variable(
        modelled,
        "MANGO_SYSTEM_PROMPT_APPEND"@,
        config.system_prompt_append.deep_view(),
    );
    let tools = match config.tools {
        Some(tools) => Some(tools.deep_view().written()),
        None => None,
    };
    let tooled = with_variable(prompted, "MANGO_TOOLS_JSON"@, tools);
    let toolset = match config.mcp_toolset {
        Some(_) => Some("\"mango_coding\""@),
        None => None,
    };
    assert(always =~= seq![
        ("MANGO_CWD"@, config.cwd@),
        ("MANGO_SESSION_ID"@, config.session_id@),
        ("MANGO_CLAUDE_PATH"@, config.claude_executable@),
        ("MANGO_PERSIST_SESSION"@, flag_text(config.session_persistence.is_set())),
        ("MANGO_INCLUDE_PARTIAL_MESSAGES"@, flag_text(config.partial_message_mode.is_set())),
        ("MANGO_ONESHOT_TURNS"@, flag_text(config.turn_mode.is_set())),
        ("MANGO_EMIT_TOOL_USE_HOOKS"@, flag_text(config.tool_use_hook_mode.is_set())),
    ]);
    lemma_variable_is_added(always, "MANGO_MODEL"@, config.model.deep_view());
    lemma_variable_is_added(
        modelled,
        "MANGO_SYSTEM_PROMPT_APPEND"@,
        config.system_prompt_append.deep_view(),
    );
    lemma_variable_is_added(prompted, "MANGO_TOOLS_JSON"@, tools);
    lemma_variable_is_added(tooled, "MANGO_MCP_TOOLSET"@, toolset);
    assert(config.env() == with_variable(tooled, "MANGO_MCP_TOOLSET"@, toolset));
}

/// Tools that are named are written as a list of their names, and a preset as an object
/// of its kind and its name.
pub proof fn tools_are_written_as_json(
    names: Seq<Seq<char>>,
    name: Seq<char>,
    kind: Seq<char>,
    preset: Seq<char>,
)
    ensures
        ClaudeToolChoiceModel::Named(Seq::empty()).written() == "[]"@,
        ClaudeToolChoiceModel::Named(seq![name]).written() == "["@ + json_string(name) + "]"@,
        names.len() > 0 ==> ClaudeToolChoiceModel::Named(names.push(name)).written()
            == ClaudeToolChoiceModel::Named(names).written().drop_last() + ","@ + json_string(name)
            + "]"@,
        (ClaudeToolChoiceModel::Preset { kind, preset }).written() == "{"@ + json_string("type"@)
            + ":"@ + json_string(kind) + ","@ + json_string("preset"@) + ":"@ + json_string(preset)
            + "}"@,
{
    crate::json_text::lists_are_written_item_by_item(names, name);
    crate::json_text::objects_are_written_member_by_member(
        seq![("type"@, kind)],
        "preset"@,
        preset,
    );
    crate::json_text::objects_are_written_member_by_member(Seq::empty(), "type"@, kind);
    assert(seq![("type"@, kind)].push(("preset"@, preset)) =~= seq![
        ("type"@, kind),
        ("preset"@, preset),
    ]);
    reveal_strlit("}");
    let start = "{"@ + json_string("type"@) + ":"@ + json_string(kind);
    assert((start + "}"@).drop_last() =~= start);
}

/// Names become the choice of these tools.
pub proof fn names_become_their_choice(names: Vec<String>)
    ensures
        <ClaudeToolChoice as FromSpec<Vec<String>>>::obeys_from_spec(),
        <ClaudeToolChoice as FromSpec<Vec<String>>>::from_spec(names) == ClaudeToolChoice::Named(
            names,
        ),
{
}

/// The agent is told where it works, what it may do, and behind that exactly what was
/// chosen for it; directories only where there are some.
pub proof fn codex_is_told_its_config(config: CodexAgentConfig)
    ensures
        config.env() == seq![
            ("MANGO_CWD"@, config.cwd@),
            ("MANGO_CODEX_PATH"@, config.codex_executable@),
            (
                "MANGO_SKIP_GIT_REPO_CHECK"@,
                if config.skip_git_repo_check {
                    "true"@
                } else {
                    "false"@
                },
            ),
            (
                "MANGO_NETWORK_ACCESS_ENABLED"@,
                if config.network_access_enabled {
                    "true"@
                } else {
                    "false"@
                },
            ),
        ] + (match config.thread_id {
            Some(thread_id) => seq![("MANGO_THREAD_ID"@, thread_id@)],
            None => Seq::empty(),
        }) + (match config.model {
            Some(model) => seq![("MANGO_MODEL"@, model@)],
            None => Seq::empty(),
        }) + (match config.sandbox_mode {
            Some(sandbox_mode) => seq![("MANGO_SANDBOX_MODE"@, sandbox_mode@)],
            None => Seq::empty(),
        }) + (match config.approval_policy {
            Some(approval_policy) => seq![("MANGO_APPROVAL_POLICY"@, approval_policy@)],
            None => Seq::empty(),
        }) + (if config.additional_directories@.len() > 0 {
            seq![
                (
                    "MANGO_ADDITIONAL_DIRECTORIES_JSON"@,
                    json_strings(config.additional_directories.deep_view()),
                ),
            ]
        } else {
            Seq::empty()
        }),
{
}

/// Each command goes to the bridge as an object on a line of its own, with the kind of
/// the command first and what it is about behind it.
pub proof fn claude_commands_are_lines(
    text: Seq<char>,
    request_id: Seq<char>,
    output: Seq<char>,
    message: Seq<char>,
)
    ensures
        (claude::BridgeCommandModel::UserText { text }).line() == "{"@ + json_string("type"@) + ":"@
            + json_string("user_text"@) + ","@ + json_string("text"@) + ":"@ + json_string(text)
            + "}"@ + "\n"@,
        (claude::BridgeCommandModel::ToolSuccess { request_id, output }).line() == "{"@ + json_string(
            "type"@,
        ) + ":"@ + json_string("tool_success"@) + ","@ + json_string("request_id"@) + ":"@
            + json_string(request_id) + ","@ + json_string("output"@) + ":"@ + json_string(output)
            + "}"@ + "\n"@,
        (claude::BridgeCommandModel::ToolFailure { request_id, message }).line() == "{"@
            + json_string("type"@) + ":"@ + json_string("tool_failure"@) + ","@ + json_string(
            "request_id"@,
        ) + ":"@ + json_string(request_id) + ","@ + json_string("message"@) + ":"@ + json_string(
            message,
        ) + "}"@ + "\n"@,
        claude::BridgeCommandModel::Interrupt.line() == "{"@ + json_string("type"@) + ":"@
            + json_string("interrupt"@) + "}"@ + "\n"@,
        claude::BridgeCommandModel::Close.line() == "{"@ + json_string("type"@) + ":"@
            + json_string("close"@) + "}"@ + "\n"@,
{
    crate::json_text::lemma_one_member("type"@, "interrupt"@);
    crate::json_text::lemma_one_member("type"@, "close"@);
    crate::json_text::lemma_two_members("type"@, "user_text"@, "text"@, text);
    crate::json_text::lemma_three_members(
        "type"@,
        "tool_success"@,
        "request_id"@,
        request_id,
        "output"@,
        output,
    );
    crate::json_text::lemma_three_members(
        "type"@,
        "tool_failure"@,
        "request_id"@,
        request_id,
        "message"@,
        message,
    );
}

/// Each command goes to the bridge as an object on a line of its own, with the kind of
/// the command first and what it is about behind it.
pub proof fn codex_commands_are_lines(text: Seq<char>)
    ensures
        (codex::BridgeCommandModel::UserText { text }).line() == "{"@ + json_string("type"@) + ":"@
            + json_string("user_text"@) + ","@ + json_string("text"@) + ":"@ + json_string(text)
            + "}"@ + "\n"@,
        codex::BridgeCommandModel::Interrupt.line() == "{"@ + json_string("type"@) + ":"@
            + json_string("interrupt"@) + "}"@ + "\n"@,
        codex::BridgeCommandModel::Close.line() == "{"@ + json_string("type"@) + ":"@
            + json_string("close"@) + "}"@ + "\n"@,
{
    crate::json_text::lemma_one_member("type"@, "interrupt"@);
    crate::json_text::lemma_one_member("type"@, "close"@);
    crate::json_text::lemma_two_members("type"@, "user_text"@, "text"@, text);
}

/// A line that could be read is passed on with all that it says, and one that could not
/// is an error that says why and what the line was.
pub proof fn claude_lines_are_passed_on(
    session_id: Seq<char>,
    request_id: Seq<char>,
    tool_name: Seq<char>,
    value: JsonModel,
    message: Seq<char>,
    reason: Seq<char>,
    line: Seq<char>,
)
    ensures
        claude::event_of_line(Ok(claude::BridgeStdoutModel::Ready { session_id }), line) == (
        ClaudeBridgeEventModel::Ready { session_id }),
        claude::event_of_line(
            Ok(
                claude::BridgeStdoutModel::ToolCallRequested {
                    request_id,
                    tool_name,
                    input: value,
                },
            ),
            line,
        ) == (ClaudeBridgeEventModel::ToolCallRequested { request_id, tool_name, input: value }),
        claude::event_of_line(Ok(claude::BridgeStdoutModel::SdkMessage { message: value }), line)
            == (ClaudeBridgeEventModel::SdkMessage { message: value }),
        claude::event_of_line(Ok(claude::BridgeStdoutModel::Error { message }), line) == (
        ClaudeBridgeEventModel::BridgeError { message }),
        claude::event_of_line(Err(reason), line) == (ClaudeBridgeEventModel::BridgeError {
            message: "invalid bridge stdout: "@ + reason + ": "@ + line,
        }),
{
}

/// A line that could be read is passed on with all that it says, and one that could not
/// is an error that says why and what the line was.
pub proof fn codex_lines_are_passed_on(
    value: JsonModel,
    message: Seq<char>,
    reason: Seq<char>,
    line: Seq<char>,
)
    ensures
        codex::event_of_line(Ok(codex::BridgeStdoutModel::Ready), line)
            == CodexBridgeEventModel::Ready,
        codex::event_of_line(Ok(codex::BridgeStdoutModel::ThreadEvent { event: value }), line) == (
        CodexBridgeEventModel::ThreadEvent { event: value }),
        codex::event_of_line(Ok(codex::BridgeStdoutModel::Error { message }), line) == (
        CodexBridgeEventModel::BridgeError { message }),
        codex::event_of_line(Err(reason), line) == (CodexBridgeEventModel::BridgeError {
            message: "invalid bridge stdout: "@ + reason + ": "@ + line,
        }),
{
}

/// A line is passed over exactly where it holds white space alone: a line of nothing is,
/// and one character of another kind anywhere in it keeps it.
pub proof fn blank_lines_hold_white_space(before: Seq<char>, c: char, after: Seq<char>)
    ensures
        is_blank_line(Seq::empty()),
        is_blank_line(before + seq![c] + after) <==> is_blank_line(before) && is_white_space(c)
            && is_blank_line(after),
{
    let line = before + seq![c] + after;
    assert forall|i: int| 0 <= i < line.len() implies #[trigger] line[i] == if i < before.len() {
        before[i]
    } else if i == before.len() {
        c
    } else {
        after[i - before.len() - 1]
    } by {}
    if is_blank_line(line) {
        assert forall|i: int| 0 <= i < before.len() implies is_white_space(#[trigger] before[i]) by {
            assert(line[i] == before[i]);
        }
        assert(line[before.len() as int] == c);
        assert forall|i: int| 0 <= i < after.len() implies is_white_space(#[trigger] after[i]) by {
            assert(line[i + before.len() + 1] == after[i]);
        }
    }
}

/// A choice of tools is modelled with all that it holds.
pub proof fn claude_tool_choice_is_told_by_its_model(kept: &claude::ClaudeToolChoice)
    ensures
        match kept {
            claude::ClaudeToolChoice::Named(value) => kept.deep_view()
                == claude::ClaudeToolChoiceModel::Named(value.deep_view()),
            claude::ClaudeToolChoice::Preset { kind, preset } => kept.deep_view() == (
            claude::ClaudeToolChoiceModel::Preset {
                kind: kind.deep_view(),
                preset: preset.deep_view(),
            }),
        },
{
}

/// A command to the bridge is modelled with all that it holds.
pub proof fn claude_bridge_command_is_told_by_its_model(kept: &claude::BridgeCommand)
    ensures
        match kept {
            claude::BridgeCommand::UserText { text } => kept.deep_view() == (
            claude::BridgeCommandModel::UserText {
                text: text.deep_view(),
            }),
            claude::BridgeCommand::ToolSuccess { request_id, output } => kept.deep_view() == (
            claude::BridgeCommandModel::ToolSuccess {
                request_id: request_id.deep_view(),
                output: output.deep_view(),
            }),
            claude::BridgeCommand::ToolFailure { request_id, message } => kept.deep_view() == (
            claude::BridgeCommandModel::ToolFailure {
                request_id: request_id.deep_view(),
                message: message.deep_view(),
            }),
            claude::BridgeCommand::Interrupt => kept.deep_view()
                == claude::BridgeCommandModel::Interrupt,
            claude::BridgeCommand::Close => kept.deep_view()
                == claude::BridgeCommandModel::Close,
        },
{
}

/// An event of the bridge is modelled with all that it holds.
pub proof fn claude_bridge_event_is_told_by_its_model(kept: &claude::ClaudeBridgeEvent)
    ensures
        match kept {
            claude::ClaudeBridgeEvent::Ready { session_id } => kept.deep_view() == (
            claude::ClaudeBridgeEventModel::Ready {
                session_id: session_id.deep_view(),
            }),
            claude::ClaudeBridgeEvent::ToolCallRequested {
                request_id,
                tool_name,
                input,
            } => kept.deep_view() == (claude::ClaudeBridgeEventModel::ToolCallRequested {
                request_id: request_id.deep_view(),
                tool_name: tool_name.deep_view(),
                input: input.deep_view(),
            }),
            claude::ClaudeBridgeEvent::SdkMessage { message } => kept.deep_view() == (
            claude::ClaudeBridgeEventModel::SdkMessage {
                message: message.deep_view(),
            }),
            claude::ClaudeBridgeEvent::BridgeError { message } => kept.deep_view() == (
            claude::ClaudeBridgeEventModel::BridgeError {
                message: message.deep_view(),
            }),
            claude::ClaudeBridgeEvent::Stderr { line } => kept.deep_view() == (
            claude::ClaudeBridgeEventModel::Stderr {
                line: line.deep_view(),
            }),
            claude::ClaudeBridgeEvent::Exited { code } => kept.deep_view() == (
            claude::ClaudeBridgeEventModel::Exited {
                code: *code,
            }),
        },
{
}

/// A line of the bridge is modelled with all that it holds.
pub proof fn claude_bridge_stdout_is_told_by_its_model(kept: &claude::BridgeStdout)
    ensures
        match kept {
            claude::BridgeStdout::Ready { session_id } => kept.deep_view() == (
            claude::BridgeStdoutModel::Ready {
                session_id: session_id.deep_view(),
            }),
            claude::BridgeStdout::ToolCallRequested {
                request_id,
                tool_name,
                input,
            } => kept.deep_view() == (claude::BridgeStdoutModel::ToolCallRequested {
                request_id: request_id.deep_view(),
                tool_name: tool_name.deep_view(),
                input: input.deep_view(),
            }),
            claude::BridgeStdout::SdkMessage { message } => kept.deep_view() == (
            claude::BridgeStdoutModel::SdkMessage {
                message: message.deep_view(),
            }),
            claude::BridgeStdout::Error { message } => kept.deep_view() == (
            claude::BridgeStdoutModel::Error {
                message: message.deep_view(),
            }),
        },
{
}

/// The model of a [`BridgeCommand`](codex::BridgeCommand) holds all that it holds itself.
pub proof fn codex_bridge_command_is_told_by_its_model(kept: &codex::BridgeCommand)
    ensures
        match kept {
            codex::BridgeCommand::UserText { text } => kept.deep_view() == (
            codex::BridgeCommandModel::UserText {
                text: text.deep_view(),
            }),
            codex::BridgeCommand::Interrupt => kept.deep_view()
                == codex::BridgeCommandModel::Interrupt,
            codex::BridgeCommand::Close => kept.deep_view() == codex::BridgeCommandModel::Close,
        },
{
}

/// The model of a [`CodexBridgeEvent`](codex::CodexBridgeEvent) holds all that it holds itself.
pub proof fn codex_bridge_event_is_told_by_its_model(kept: &codex::CodexBridgeEvent)
    ensures
        match kept {
            codex::CodexBridgeEvent::Ready => kept.deep_view()
                == codex::CodexBridgeEventModel::Ready,
            codex::CodexBridgeEvent::ThreadEvent { event } => kept.deep_view() == (
            codex::CodexBridgeEventModel::ThreadEvent {
                event: event.deep_view(),
            }),
            codex::CodexBridgeEvent::BridgeError { message } => kept.deep_view() == (
            codex::CodexBridgeEventModel::BridgeError {
                message: message.deep_view(),
            }),
            codex::CodexBridgeEvent::Stderr { line } => kept.deep_view() == (
            codex::CodexBridgeEventModel::Stderr {
                line: line.deep_view(),
            }),
            codex::CodexBridgeEvent::Exited { code } => kept.deep_view() == (
            codex::CodexBridgeEventModel::Exited {
                code: *code,
            }),
        },
{
}

/// The model of a [`BridgeStdout`](codex::BridgeStdout) holds all that it holds itself.
pub proof fn codex_bridge_stdout_is_told_by_its_model(kept: &codex::BridgeStdout)
    ensures
        match kept {
            codex::BridgeStdout::Ready => kept.deep_view() == codex::BridgeStdoutModel::Ready,
            codex::BridgeStdout::ThreadEvent { event } => kept.deep_view() == (
            codex::BridgeStdoutModel::ThreadEvent {
                event: event.deep_view(),
            }),
            codex::BridgeStdout::Error { message } => kept.deep_view() == (
            codex::BridgeStdoutModel::Error {
                message: message.deep_view(),
            }),
        },
{
}

}
