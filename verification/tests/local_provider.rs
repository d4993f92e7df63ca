use warp_local_ai::local_provider::run_shell_command_from_members;
use warp_local_ai::agent_api::{
    AIAgentInput, ActionResult, FinishReason, Message, MessageBody, RequestParams,
    ResponseEvent, RiskCategory, RunShellCommand, RunShellCommandOutcome, RunShellCommandResult,
    Task, Timestamp, Tool, ToolCall, ToolCallOutcome, ToolCallResult,
};
use warp_local_ai::local_provider::{
    build_chat_messages, chat_tool_call_from_api, chat_tools, extract_user_query,
    format_run_shell_command_result, tool_call_message_from_chat, tool_result_content_from_api,
    ChatMessage, ChatToolCall, ChatToolCallDelta, ChatToolCallFunction,
    ChatToolCallFunctionDelta, PendingToolCall, AGENT_OUTPUT_APPEND_MASK_PATH,
    LOCAL_AGENT_SYSTEM_PROMPT, RUN_SHELL_COMMAND_TOOL_NAME,
};

fn to_message(call: ChatToolCall, task_id: &str, request_id: &str) -> Option<Message> {
    tool_call_message_from_chat(
        call,
        task_id,
        request_id,
        "message_1".to_string(),
        Timestamp { seconds: 1, nanos: 2 },
    )
}

fn make_test_params(query: &str) -> RequestParams {
    RequestParams {
        input: vec![AIAgentInput::UserQuery {
            query: query.to_string(),
        }],
        tasks: vec![],
        conversation_token: None,
        root_task_id: None,
    }
}

fn message(id: &str, body: MessageBody) -> Message {
    Message {
        id: id.to_string(),
        task_id: "task_1".to_string(),
        request_id: "request_1".to_string(),
        timestamp: None,
        server_message_data: String::new(),
        message: Some(body),
    }
}

fn task(messages: Vec<Message>) -> Task {
    Task {
        id: "task_1".to_string(),
        description: String::new(),
        messages,
        summary: String::new(),
        server_data: String::new(),
    }
}

fn shell_tool_call(id: &str, command: &str, is_read_only: bool) -> ToolCall {
    ToolCall {
        tool_call_id: id.to_string(),
        tool: Some(Tool::RunShellCommand(RunShellCommand {
            command: command.to_string(),
            is_read_only,
            uses_pager: false,
            is_risky: !is_read_only,
            risk_category: RiskCategory::Unspecified,
        })),
    }
}

fn chat_call(id: &str, name: &str, arguments: &str) -> ChatToolCall {
    ChatToolCall {
        id: id.to_string(),
        call_type: "function".to_string(),
        function: ChatToolCallFunction {
            name: name.to_string(),
            arguments: arguments.to_string(),
        },
    }
}

#[test]
fn extract_user_query_from_user_query_input() {
    let params = make_test_params("hello world");
    assert_eq!(extract_user_query(&params), "hello world");
}

#[test]
fn extract_user_query_empty_when_no_user_query() {
    let mut params = make_test_params("");
    params.input = vec![];
    assert_eq!(extract_user_query(&params), "");
}

#[test]
fn extract_user_query_takes_the_first_query() {
    let mut params = make_test_params("second");
    params.input.insert(0, AIAgentInput::Other);
    params.input.insert(
        0,
        AIAgentInput::ActionResult {
            result: ActionResult {
                id: "a".to_string(),
                result: "r".to_string(),
            },
        },
    );
    params.input.push(AIAgentInput::UserQuery {
        query: "third".to_string(),
    });
    assert_eq!(extract_user_query(&params), "second");
}

#[test]
fn response_event_stream_init_has_conversation_id() {
    let event = ResponseEvent::Init {
        conversation_id: "test-conv-id".to_string(),
        request_id: "test-req-id".to_string(),
        run_id: "test-run-id".to_string(),
    };
    match &event {
        ResponseEvent::Init {
            conversation_id, ..
        } => {
            assert_eq!(conversation_id, "test-conv-id");
        }
        _ => panic!("Expected Init event"),
    }
}

#[test]
fn response_event_finished_done_has_done_reason() {
    let event = ResponseEvent::Finished {
        reason: Some(FinishReason::Done),
    };
    match &event {
        ResponseEvent::Finished { reason } => {
            assert!(matches!(reason, Some(FinishReason::Done)));
        }
        _ => panic!("Expected Finished event"),
    }
}

#[test]
fn run_shell_command_tool_call_converts_to_warp_tool_call_message() {
    let tool_call = chat_call(
        "call_1",
        RUN_SHELL_COMMAND_TOOL_NAME,
        r#"{"command":"pwd","is_read_only":true,"is_risky":false,"uses_pager":false}"#,
    );

    let message = to_message(tool_call, "task_1", "request_1")
        .expect("tool call should convert");

    let Some(MessageBody::ToolCall(tool_call)) = message.message else {
        panic!("expected ToolCall message");
    };
    let Some(Tool::RunShellCommand(command)) = tool_call.tool else {
        panic!("expected RunShellCommand tool");
    };

    assert_eq!(tool_call.tool_call_id, "call_1");
    assert_eq!(command.command, "pwd");
    assert!(command.is_read_only);
    assert!(!command.is_risky);
    assert_eq!(command.risk_category, RiskCategory::ReadOnly);
    assert_eq!(message.task_id, "task_1");
    assert_eq!(message.request_id, "request_1");
    assert_eq!(message.id, "message_1");
    assert_eq!(message.timestamp, Some(Timestamp { seconds: 1, nanos: 2 }));
}

#[test]
fn tool_call_defaults_and_trimming() {
    let message = to_message(
        chat_call("c", RUN_SHELL_COMMAND_TOOL_NAME, r#"{"command":"  ls -la \n"}"#),
        "t",
        "r",
    )
    .expect("tool call should convert");
    let Some(MessageBody::ToolCall(tool_call)) = message.message else {
        panic!("expected ToolCall message");
    };
    let Some(Tool::RunShellCommand(command)) = tool_call.tool else {
        panic!("expected RunShellCommand tool");
    };
    assert_eq!(command.command, "ls -la");
    assert!(!command.is_read_only);
    assert!(command.is_risky);
    assert!(!command.uses_pager);
    assert_eq!(command.risk_category, RiskCategory::Risky);

    let message = to_message(
        chat_call(
            "c",
            RUN_SHELL_COMMAND_TOOL_NAME,
            r#"{"command":"make","is_risky":false}"#,
        ),
        "t",
        "r",
    )
    .expect("tool call should convert");
    let Some(MessageBody::ToolCall(tool_call)) = message.message else {
        panic!("expected ToolCall message");
    };
    let Some(Tool::RunShellCommand(command)) = tool_call.tool else {
        panic!("expected RunShellCommand tool");
    };
    assert_eq!(command.risk_category, RiskCategory::NontrivialLocalChange);
}

#[test]
fn tool_call_rejections() {
    assert!(to_message(
        chat_call("c", "other_tool", r#"{"command":"pwd"}"#),
        "t",
        "r"
    )
    .is_none());
    assert!(to_message(
        chat_call("c", RUN_SHELL_COMMAND_TOOL_NAME, r#"{"command":"   "}"#),
        "t",
        "r"
    )
    .is_none());
    assert!(to_message(
        chat_call("c", RUN_SHELL_COMMAND_TOOL_NAME, "not json"),
        "t",
        "r"
    )
    .is_none());
    assert!(to_message(
        chat_call("c", RUN_SHELL_COMMAND_TOOL_NAME, r#"{"command":42}"#),
        "t",
        "r"
    )
    .is_none());
}

#[test]
fn build_chat_messages_attaches_reasoning_to_following_tool_call() {
    let mut params = make_test_params("");
    let tool_message = to_message(
        chat_call("call_1", RUN_SHELL_COMMAND_TOOL_NAME, r#"{"command":"pwd"}"#),
        "task_1",
        "request_1",
    )
    .expect("tool call should convert");
    params.input = vec![];
    params.tasks = vec![task(vec![
        message(
            "reasoning_1",
            MessageBody::AgentReasoning {
                reasoning: "I should inspect the directory.".to_string(),
            },
        ),
        tool_message,
    ])];

    let messages = build_chat_messages(&params);
    let assistant_tool_call = messages
        .iter()
        .find(|message| !message.tool_calls.is_empty())
        .expect("tool call should be present");

    assert_eq!(
        assistant_tool_call.reasoning_content.as_deref(),
        Some("I should inspect the directory.")
    );
}

#[test]
fn system_prompt_tells_model_not_to_run_commands_for_greetings() {
    let params = make_test_params("你好");
    let messages = build_chat_messages(&params);
    let system_message = messages
        .first()
        .and_then(|message| message.content.as_deref())
        .expect("system message should be present");

    assert!(system_message.contains("For greetings"));
    assert!(system_message.contains("answer directly without calling tools"));
    assert!(system_message.contains("Do not run commands just to prove you are working"));
}

#[test]
fn local_provider_uses_agent_output_append_mask_path() {
    assert_eq!(AGENT_OUTPUT_APPEND_MASK_PATH, "agent_output.text");
}

fn roles(messages: &[ChatMessage]) -> Vec<&str> {
    messages.iter().map(|m| m.role.as_str()).collect()
}

#[test]
fn build_chat_messages_full_conversation() {
    let params = RequestParams {
        input: vec![
            AIAgentInput::ActionResult {
                result: ActionResult {
                    id: "call_9".to_string(),
                    result: "done".to_string(),
                },
            },
            AIAgentInput::UserQuery {
                query: String::new(),
            },
            AIAgentInput::UserQuery {
                query: "next".to_string(),
            },
        ],
        tasks: vec![task(vec![
            message(
                "1",
                MessageBody::UserQuery {
                    query: "hi".to_string(),
                },
            ),
            message(
                "2",
                MessageBody::AgentReasoning {
                    reasoning: "think ".to_string(),
                },
            ),
            message(
                "3",
                MessageBody::AgentReasoning {
                    reasoning: "more".to_string(),
                },
            ),
            message(
                "4",
                MessageBody::AgentOutput {
                    text: "hello".to_string(),
                },
            ),
            message(
                "5",
                MessageBody::AgentOutput {
                    text: String::new(),
                },
            ),
            message("6", MessageBody::ToolCall(shell_tool_call("call_1", "ls", true))),
            message(
                "7",
                MessageBody::ToolCallResult(ToolCallResult {
                    tool_call_id: "call_1".to_string(),
                    result: Some(ToolCallOutcome::RunShellCommand(RunShellCommandResult {
                        command: "ls".to_string(),
                        result: Some(RunShellCommandOutcome::CommandFinished {
                            exit_code: 0,
                            output: "a b".to_string(),
                        }),
                    })),
                }),
            ),
            message(
                "8",
                MessageBody::AgentReasoning {
                    reasoning: "left over".to_string(),
                },
            ),
            message("9", MessageBody::Other),
        ])],
        conversation_token: None,
        root_task_id: None,
    };
    let messages = build_chat_messages(&params);
    assert_eq!(
        roles(&messages),
        vec!["system", "user", "assistant", "assistant", "tool", "assistant", "tool", "user"]
    );
    assert_eq!(messages[0].content.as_deref(), Some(LOCAL_AGENT_SYSTEM_PROMPT));
    assert_eq!(messages[1].content.as_deref(), Some("hi"));
    assert_eq!(messages[2].content.as_deref(), Some("hello"));
    assert_eq!(messages[2].reasoning_content.as_deref(), Some("think more"));
    assert_eq!(messages[3].content, None);
    assert_eq!(messages[3].reasoning_content, None);
    assert_eq!(messages[3].tool_calls.len(), 1);
    assert_eq!(messages[3].tool_calls[0].id, "call_1");
    assert_eq!(messages[3].tool_calls[0].call_type, "function");
    assert_eq!(messages[3].tool_calls[0].function.name, "run_shell_command");
    assert_eq!(
        messages[4].content.as_deref(),
        Some("Command `ls` finished with exit code 0.\n\na b")
    );
    assert_eq!(messages[4].tool_call_id.as_deref(), Some("call_1"));
    assert_eq!(messages[5].content.as_deref(), Some(""));
    assert_eq!(messages[5].reasoning_content.as_deref(), Some("left over"));
    assert_eq!(messages[6].tool_call_id.as_deref(), Some("call_9"));
    assert_eq!(messages[6].content.as_deref(), Some("done"));
    assert_eq!(messages[7].content.as_deref(), Some("next"));
}

#[test]
fn chat_arguments_read_back_through_the_tool_call_message() {
    let api_call = shell_tool_call("call_7", "echo \"hi\" && ls", false);
    let chat = chat_tool_call_from_api(&api_call).expect("shell calls convert");
    let value: serde_json::Value =
        serde_json::from_str(&chat.function.arguments).expect("arguments are JSON");
    assert_eq!(value["command"], "echo \"hi\" && ls");
    assert_eq!(value["is_read_only"], false);
    assert_eq!(value["is_risky"], true);
    assert_eq!(value["uses_pager"], false);
    let back = to_message(chat, "t", "r").expect("converts back");
    let Some(MessageBody::ToolCall(tool_call)) = back.message else {
        panic!("expected ToolCall message");
    };
    let Some(Tool::RunShellCommand(command)) = tool_call.tool else {
        panic!("expected RunShellCommand tool");
    };
    assert_eq!(tool_call.tool_call_id, "call_7");
    assert_eq!(command.command, "echo \"hi\" && ls");
    assert!(command.is_risky);
    assert!(!command.is_read_only);
    assert_eq!(command.risk_category, RiskCategory::Risky);

    let other = ToolCall {
        tool_call_id: "x".to_string(),
        tool: Some(Tool::Other),
    };
    assert!(chat_tool_call_from_api(&other).is_none());
}

#[test]
fn shell_command_results_are_reported() {
    let finished = |exit_code| RunShellCommandResult {
        command: "make".to_string(),
        result: Some(RunShellCommandOutcome::CommandFinished {
            exit_code,
            output: "out".to_string(),
        }),
    };
    assert_eq!(
        format_run_shell_command_result(&finished(127)),
        "Command `make` finished with exit code 127.\n\nout"
    );
    assert_eq!(
        format_run_shell_command_result(&finished(-1)),
        "Command `make` finished with exit code -1.\n\nout"
    );
    assert_eq!(
        format_run_shell_command_result(&finished(i32::MIN)),
        "Command `make` finished with exit code -2147483648.\n\nout"
    );
    assert_eq!(
        format_run_shell_command_result(&RunShellCommandResult {
            command: "top".to_string(),
            result: Some(RunShellCommandOutcome::LongRunningCommandSnapshot {
                output: "cpu".to_string(),
            }),
        }),
        "Command `top` is still running. Current output:\n\ncpu"
    );
    assert_eq!(
        format_run_shell_command_result(&RunShellCommandResult {
            command: "rm".to_string(),
            result: Some(RunShellCommandOutcome::PermissionDenied),
        }),
        "Command `rm` was denied permission to run."
    );
    assert_eq!(
        format_run_shell_command_result(&RunShellCommandResult {
            command: "x".to_string(),
            result: None,
        }),
        "Command `x` returned no result."
    );
    assert_eq!(
        tool_result_content_from_api(&ToolCallResult {
            tool_call_id: "y".to_string(),
            result: Some(ToolCallOutcome::Other),
        }),
        None
    );
}

#[test]
fn pending_tool_calls_assemble_from_fragments() {
    let mut pending = PendingToolCall::default();
    pending.append_delta(ChatToolCallDelta {
        index: 0,
        id: Some("call_a".to_string()),
        call_type: None,
        function: Some(ChatToolCallFunctionDelta {
            name: Some("run_shell".to_string()),
            arguments: Some("{\"comm".to_string()),
        }),
    });
    pending.append_delta(ChatToolCallDelta {
        index: 0,
        id: None,
        call_type: None,
        function: Some(ChatToolCallFunctionDelta {
            name: Some("_command".to_string()),
            arguments: Some("and\":\"ls\"}".to_string()),
        }),
    });
    let call = pending.into_chat_tool_call("fresh".to_string()).expect("named calls convert");
    assert_eq!(call.id, "call_a");
    assert_eq!(call.call_type, "function");
    assert_eq!(call.function.name, "run_shell_command");
    assert_eq!(call.function.arguments, "{\"command\":\"ls\"}");

    let mut unnamed = PendingToolCall::default();
    unnamed.append_delta(ChatToolCallDelta {
        index: 0,
        id: Some("x".to_string()),
        call_type: Some("custom".to_string()),
        function: None,
    });
    assert!(unnamed.into_chat_tool_call("fresh".to_string()).is_none());

    let mut no_id = PendingToolCall::default();
    no_id.append_delta(ChatToolCallDelta {
        index: 0,
        id: None,
        call_type: Some("custom".to_string()),
        function: Some(ChatToolCallFunctionDelta {
            name: Some("f".to_string()),
            arguments: None,
        }),
    });
    let call = no_id.into_chat_tool_call("fresh".to_string()).expect("named calls convert");
    assert_eq!(call.id, "fresh");
    assert_eq!(call.call_type, "custom");
}

#[test]
fn chat_tools_offer_the_shell_command_tool() {
    let tools = chat_tools();
    assert_eq!(tools.len(), 1);
    assert_eq!(tools[0].tool_type, "function");
    assert_eq!(tools[0].function.name, "run_shell_command");
    let schema: serde_json::Value =
        serde_json::from_str(&tools[0].function.parameters).expect("schema is JSON");
    assert_eq!(schema["required"][0], "command");
    assert_eq!(schema["properties"]["is_risky"]["type"], "boolean");
}

#[test]
fn chat_message_constructors() {
    let m = ChatMessage::assistant_reasoning("why".to_string());
    assert_eq!(m.role, "assistant");
    assert_eq!(m.content.as_deref(), Some(""));
    assert_eq!(m.reasoning_content.as_deref(), Some("why"));
    let m = ChatMessage::tool("id".to_string(), "out".to_string());
    assert_eq!(m.role, "tool");
    assert_eq!(m.tool_call_id.as_deref(), Some("id"));
    let m = ChatMessage::system("s".to_string());
    assert_eq!(m.role, "system");
    assert!(m.tool_calls.is_empty());
}

#[test]
fn shell_commands_from_argument_members() {
    let c = run_shell_command_from_members(Some(" git status ".to_string()), Some(true), None, None)
        .expect("a command is present");
    assert_eq!(c.command, "git status");
    assert!(c.is_read_only);
    assert!(!c.is_risky);
    assert!(!c.uses_pager);
    assert_eq!(c.risk_category, RiskCategory::ReadOnly);
    let c = run_shell_command_from_members(Some("rm x".to_string()), None, None, Some(true))
        .expect("a command is present");
    assert!(c.is_risky);
    assert!(c.uses_pager);
    assert_eq!(c.risk_category, RiskCategory::Risky);
    let c = run_shell_command_from_members(Some("touch x".to_string()), Some(false), Some(false), None)
        .expect("a command is present");
    assert_eq!(c.risk_category, RiskCategory::NontrivialLocalChange);
    assert!(run_shell_command_from_members(None, Some(true), None, None).is_none());
    assert!(run_shell_command_from_members(Some(" \t".to_string()), None, None, None).is_none());
}
