use mango::bridges::claude;
use mango::bridges::claude::{
    ClaudeAgentConfig, ClaudeBridgeEvent, ClaudeMcpToolset, ClaudePartialMessageMode,
    ClaudeSessionPersistence, ClaudeToolChoice, ClaudeToolUseHookMode, ClaudeTurnMode,
};
use mango::bridges::codex;
use mango::bridges::codex::{CodexAgentConfig, CodexBridgeEvent};
use mango::bridges::process::is_blank;
use mango::json::JsonValue;
use mango::json_text::{json_members_text, json_strings_text};

fn text(value: &str) -> String {
    value.to_string()
}

fn variables(env: &[(&str, &str)]) -> Vec<(String, String)> {
    env.iter()
        .map(|(name, value)| (text(name), text(value)))
        .collect()
}

fn agent() -> ClaudeAgentConfig {
    ClaudeAgentConfig::new(text("/work"), text("session"), text("agent"))
}

#[test]
fn agents_are_started_with_their_defaults() {
    let process = claude::build_command(agent(), "/js", "/js/bridge.mjs");
    assert_eq!(process.program, "node");
    assert_eq!(process.args, ["/js/bridge.mjs"]);
    assert_eq!(process.current_dir, "/js");
    assert_eq!(
        process.env,
        variables(&[
            ("MANGO_CWD", "/work"),
            ("MANGO_SESSION_ID", "session"),
            ("MANGO_CLAUDE_PATH", "agent"),
            ("MANGO_PERSIST_SESSION", "true"),
            ("MANGO_INCLUDE_PARTIAL_MESSAGES", "true"),
            ("MANGO_ONESHOT_TURNS", "false"),
            ("MANGO_EMIT_TOOL_USE_HOOKS", "false"),
        ])
    );
}

#[test]
fn agents_are_started_as_configured() {
    let config = agent()
        .with_model(text("model"))
        .with_tools(ClaudeToolChoice::from(vec![text("Read"), text("a\"b")]))
        .with_system_prompt_append(text("be brief"))
        .with_ephemeral_session()
        .without_partial_messages()
        .with_one_shot_turns()
        .with_tool_use_hooks()
        .with_mango_coding_tools();
    let process = claude::build_command(config, "/js", "/js/bridge.mjs");
    assert_eq!(
        process.env[3..],
        variables(&[
            ("MANGO_PERSIST_SESSION", "false"),
            ("MANGO_INCLUDE_PARTIAL_MESSAGES", "false"),
            ("MANGO_ONESHOT_TURNS", "true"),
            ("MANGO_EMIT_TOOL_USE_HOOKS", "true"),
            ("MANGO_MODEL", "model"),
            ("MANGO_SYSTEM_PROMPT_APPEND", "be brief"),
            ("MANGO_TOOLS_JSON", r#"["Read","a\"b"]"#),
            ("MANGO_MCP_TOOLSET", r#""mango_coding""#),
        ])[..]
    );
}

#[test]
fn settings_can_be_taken_back() {
    let config = agent()
        .with_ephemeral_session()
        .with_persistent_session()
        .without_partial_messages()
        .with_partial_messages()
        .with_one_shot_turns()
        .with_conversational_turns()
        .with_tool_use_hooks()
        .without_tool_use_hooks();
    assert_eq!(config.session_persistence, ClaudeSessionPersistence::Persistent);
    assert_eq!(config.partial_message_mode, ClaudePartialMessageMode::Include);
    assert_eq!(config.turn_mode, ClaudeTurnMode::Conversational);
    assert_eq!(config.tool_use_hook_mode, ClaudeToolUseHookMode::Disabled);
    assert_eq!(config.session_persistence, ClaudeSessionPersistence::default());
    assert_eq!(config.partial_message_mode, ClaudePartialMessageMode::default());
    assert_eq!(config.turn_mode, ClaudeTurnMode::default());
    assert_eq!(config.tool_use_hook_mode, ClaudeToolUseHookMode::default());
}

#[test]
fn presets_are_written_as_objects() {
    let config = agent().with_default_claude_code_tools();
    assert_eq!(config.tools, Some(ClaudeToolChoice::claude_code_preset()));
    assert_eq!(
        ClaudeToolChoice::claude_code_preset().to_json(),
        r#"{"type":"preset","preset":"claude_code"}"#
    );
    assert_eq!(ClaudeToolChoice::Named(Vec::new()).to_json(), "[]");
    assert_eq!(ClaudeMcpToolset::MangoCoding.to_json(), r#""mango_coding""#);
}

#[test]
fn commands_are_single_lines() {
    for (command, line) in [
        (
            claude::BridgeCommand::UserText {
                text: text("two\nlines"),
            },
            "{\"type\":\"user_text\",\"text\":\"two\\nlines\"}\n",
        ),
        (
            claude::BridgeCommand::ToolSuccess {
                request_id: text("1"),
                output: text("\u{1}"),
            },
            "{\"type\":\"tool_success\",\"request_id\":\"1\",\"output\":\"\\u0001\"}\n",
        ),
        (
            claude::BridgeCommand::ToolFailure {
                request_id: text("1"),
                message: text("no"),
            },
            "{\"type\":\"tool_failure\",\"request_id\":\"1\",\"message\":\"no\"}\n",
        ),
        (claude::BridgeCommand::Interrupt, "{\"type\":\"interrupt\"}\n"),
        (claude::BridgeCommand::Close, "{\"type\":\"close\"}\n"),
    ] {
        assert_eq!(command.to_line(), line);
        assert_eq!(command.to_line().matches('\n').count(), 1);
    }
    for (command, line) in [
        (
            codex::BridgeCommand::UserText { text: text("hi") },
            "{\"type\":\"user_text\",\"text\":\"hi\"}\n",
        ),
        (codex::BridgeCommand::Interrupt, "{\"type\":\"interrupt\"}\n"),
        (codex::BridgeCommand::Close, "{\"type\":\"close\"}\n"),
    ] {
        assert_eq!(command.to_line(), line);
    }
}

#[test]
fn strings_are_escaped() {
    assert_eq!(
        json_strings_text(&vec![text("\"\\/\u{8}\t\n\u{c}\r\u{1f}\u{7f}é\u{2028}")]),
        "[\"\\\"\\\\/\\b\\t\\n\\f\\r\\u001f\u{7f}é\u{2028}\"]"
    );
    assert_eq!(
        json_members_text(&vec![(text("a"), text("")), (text("b"), text("\u{1a}"))]),
        r#"{"a":"","b":"\u001a"}"#
    );
    assert_eq!(json_members_text(&Vec::new()), "{}");
}

#[test]
fn lines_of_the_bridge_become_events() {
    let ready = claude::BridgeStdout::Ready {
        session_id: text("s"),
    };
    assert_eq!(
        claude::handle_stdout_line(Ok(ready), ""),
        ClaudeBridgeEvent::Ready {
            session_id: text("s"),
        }
    );
    let call = claude::BridgeStdout::ToolCallRequested {
        request_id: text("1"),
        tool_name: text("tool"),
        input: JsonValue::Bool(true),
    };
    assert_eq!(
        claude::handle_stdout_line(Ok(call), ""),
        ClaudeBridgeEvent::ToolCallRequested {
            request_id: text("1"),
            tool_name: text("tool"),
            input: JsonValue::Bool(true),
        }
    );
    let message = claude::BridgeStdout::SdkMessage {
        message: JsonValue::Null,
    };
    assert_eq!(
        claude::handle_stdout_line(Ok(message), ""),
        ClaudeBridgeEvent::SdkMessage {
            message: JsonValue::Null,
        }
    );
    let error = claude::BridgeStdout::Error {
        message: text("broken"),
    };
    assert_eq!(
        claude::handle_stdout_line(Ok(error), ""),
        ClaudeBridgeEvent::BridgeError {
            message: text("broken"),
        }
    );
    assert_eq!(
        claude::handle_stdout_line(Err(text("expected value")), "noise"),
        ClaudeBridgeEvent::BridgeError {
            message: text("invalid bridge stdout: expected value: noise"),
        }
    );
    assert_eq!(
        codex::handle_stdout_line(Ok(codex::BridgeStdout::Ready), ""),
        CodexBridgeEvent::Ready
    );
    let event = codex::BridgeStdout::ThreadEvent {
        event: JsonValue::Null,
    };
    assert_eq!(
        codex::handle_stdout_line(Ok(event), ""),
        CodexBridgeEvent::ThreadEvent {
            event: JsonValue::Null,
        }
    );
    assert_eq!(
        codex::handle_stdout_line(Err(text("expected value")), "noise"),
        CodexBridgeEvent::BridgeError {
            message: text("invalid bridge stdout: expected value: noise"),
        }
    );
}

#[test]
fn blank_lines_say_nothing() {
    assert!(is_blank(""));
    assert!(is_blank(" \t\u{a0}\u{2003}"));
    assert!(!is_blank(" x "));
    assert!(!is_blank("\u{200b}"));
}

#[test]
fn threads_are_started_as_configured() {
    let config = || CodexAgentConfig::new(text("/work"), text("codex"));
    let process = codex::build_command(config(), "/js", "/js/bridge.mjs");
    assert_eq!(process.program, "node");
    assert_eq!(
        process.env,
        variables(&[
            ("MANGO_CWD", "/work"),
            ("MANGO_CODEX_PATH", "codex"),
            ("MANGO_SKIP_GIT_REPO_CHECK", "false"),
            ("MANGO_NETWORK_ACCESS_ENABLED", "false"),
        ])
    );
    let config = config()
        .with_thread_id(text("thread"))
        .with_model(text("model"))
        .with_sandbox_mode(text("read-only"))
        .with_approval_policy(text("never"))
        .with_skip_git_repo_check(true)
        .with_network_access(true)
        .with_additional_directories(vec![text("/a"), text("/b")]);
    assert_eq!(
        codex::build_command(config, "/js", "/js/bridge.mjs").env[2..],
        variables(&[
            ("MANGO_SKIP_GIT_REPO_CHECK", "true"),
            ("MANGO_NETWORK_ACCESS_ENABLED", "true"),
            ("MANGO_THREAD_ID", "thread"),
            ("MANGO_MODEL", "model"),
            ("MANGO_SANDBOX_MODE", "read-only"),
            ("MANGO_APPROVAL_POLICY", "never"),
            ("MANGO_ADDITIONAL_DIRECTORIES_JSON", r#"["/a","/b"]"#),
        ])[..]
    );
}
