use warp_local_ai::local_stream::tool_call_indices_fit;
use warp_local_ai::agent_api::{
    AIAgentInput, ClientAction, FinishReason, MessageBody, RequestParams, ResponseEvent,
    Timestamp, Tool,
};
use warp_local_ai::local_provider::{
    ChatToolCallDelta, ChatToolCallFunctionDelta, LocalProviderConfig,
    AGENT_OUTPUT_APPEND_MASK_PATH,
};
use warp_local_ai::local_stream::{
    classify_sse_line, init_event, prepare_local_request, trim_end_slashes, ChatChunkChoice,
    ChatCompletionChunk, ChatDelta, FreshRequestIds, LocalProviderError, LocalRequest, LocalStream, SseLine,
};

fn config(base_url: &str) -> LocalProviderConfig {
    LocalProviderConfig {
        base_url: base_url.to_string(),
        model: "qwen".to_string(),
        api_key: "secret".to_string(),
    }
}

fn params(query: &str) -> RequestParams {
    RequestParams {
        input: vec![AIAgentInput::UserQuery {
            query: query.to_string(),
        }],
        tasks: vec![],
        conversation_token: Some("conv".to_string()),
        root_task_id: Some("root".to_string()),
    }
}

fn fresh() -> FreshRequestIds {
    FreshRequestIds {
        conversation_id: "fresh-conv".to_string(),
        request_id: "req-1".to_string(),
        run_id: "run-1".to_string(),
        task_id: "fresh-task".to_string(),
    }
}

fn at(seconds: i64) -> Timestamp {
    Timestamp { seconds, nanos: 5 }
}

fn ids(n: usize) -> Vec<String> {
    (0..n).map(|i| format!("id-{}", i)).collect()
}

fn start(r: &LocalRequest) -> LocalStream {
    LocalStream::start(r, "msg-1".to_string(), at(100)).0
}

fn finish(stream: LocalStream) -> Vec<ResponseEvent> {
    let n = stream.fresh_ids_needed();
    stream.finish(ids(n), at(200))
}

fn request() -> LocalRequest {
    prepare_local_request(&config("http://localhost:11434/v1/"), &params("hi"), fresh())
        .expect("a user query is enough to send")
}

fn chunk(
    content: Option<&str>,
    reasoning: Option<&str>,
    tool_calls: Option<Vec<ChatToolCallDelta>>,
) -> ChatCompletionChunk {
    ChatCompletionChunk {
        choices: vec![ChatChunkChoice {
            delta: ChatDelta {
                content: content.map(|c| c.to_string()),
                reasoning_content: reasoning.map(|r| r.to_string()),
                tool_calls,
            },
            finish_reason: None,
        }],
    }
}

fn tool_delta(index: usize, id: Option<&str>, name: Option<&str>, args: Option<&str>) -> ChatToolCallDelta {
    ChatToolCallDelta {
        index,
        id: id.map(|s| s.to_string()),
        call_type: None,
        function: Some(ChatToolCallFunctionDelta {
            name: name.map(|s| s.to_string()),
            arguments: args.map(|s| s.to_string()),
        }),
    }
}

fn appended_text(event: &ResponseEvent) -> String {
    match event {
        ResponseEvent::ClientActions { actions } => match &actions[0] {
            ClientAction::AppendToMessageContent { message, mask, .. } => {
                assert_eq!(mask.paths, vec![AGENT_OUTPUT_APPEND_MASK_PATH.to_string()]);
                match &message.message {
                    Some(MessageBody::AgentOutput { text }) => text.clone(),
                    other => panic!("unexpected body {:?}", other),
                }
            }
            other => panic!("unexpected action {:?}", other),
        },
        other => panic!("unexpected event {:?}", other),
    }
}

#[test]
fn trailing_slashes_are_trimmed() {
    assert_eq!(trim_end_slashes("http://x/v1///"), "http://x/v1");
    assert_eq!(trim_end_slashes("http://x/v1"), "http://x/v1");
    assert_eq!(trim_end_slashes("///"), "");
    assert_eq!(trim_end_slashes(""), "");
}

#[test]
fn prepared_request_targets_chat_completions() {
    let r = request();
    assert_eq!(r.url, "http://localhost:11434/v1/chat/completions");
    assert_eq!(r.authorization, "Bearer secret");
    assert_eq!(r.body.model, "qwen");
    assert!(r.body.stream);
    assert_eq!(r.body.messages.len(), 2);
    assert_eq!(r.body.messages[0].role, "system");
    assert_eq!(r.body.messages[1].role, "user");
    assert_eq!(r.body.messages[1].content.as_deref(), Some("hi"));
    assert_eq!(r.body.tools.len(), 1);
    assert_eq!(r.conversation_id, "conv");
    assert_eq!(r.task_id, "root");
    assert_eq!(r.request_id, "req-1");
    assert_eq!(r.run_id, "run-1");
    assert_eq!(r.body.tools[0].tool_type, "function");
}

#[test]
fn prepared_request_fills_missing_ids() {
    let mut p = params("hi");
    p.conversation_token = None;
    p.root_task_id = None;
    let r = prepare_local_request(&config("http://h"), &p, fresh()).expect("query present");
    assert_eq!(r.url, "http://h/chat/completions");
    assert_eq!(r.conversation_id, "fresh-conv");
    assert_eq!(r.task_id, "fresh-task");
}

#[test]
fn request_without_messages_is_refused() {
    let p = RequestParams {
        input: vec![AIAgentInput::Other],
        tasks: vec![],
        conversation_token: None,
        root_task_id: None,
    };
    let err = prepare_local_request(&config("http://h"), &p, fresh()).unwrap_err();
    assert_eq!(err, LocalProviderError::NoChatMessages);
    assert_eq!(err.message(), "No local provider chat messages found in request");
}

#[test]
fn init_event_carries_the_request_ids() {
    let r = request();
    match init_event(&r) {
        ResponseEvent::Init {
            conversation_id,
            request_id,
            run_id,
        } => {
            assert_eq!(conversation_id, "conv");
            assert_eq!(request_id, r.request_id);
            assert_eq!(run_id, r.run_id);
        }
        other => panic!("expected Init, got {:?}", other),
    }
}

#[test]
fn sse_lines_are_classified() {
    assert!(matches!(classify_sse_line(""), SseLine::Skip));
    assert!(matches!(classify_sse_line("   "), SseLine::Skip));
    assert!(matches!(classify_sse_line(": keep-alive"), SseLine::Skip));
    assert!(matches!(classify_sse_line("event: message"), SseLine::Skip));
    assert!(matches!(classify_sse_line("data: [DONE]"), SseLine::Done));
    assert!(matches!(classify_sse_line("  data:  [DONE]  \r"), SseLine::Done));
    match classify_sse_line("data: {\"a\":1}  \r") {
        SseLine::Data(d) => assert_eq!(d, "{\"a\":1}"),
        other => panic!("expected data, got {:?}", other),
    }
    assert!(matches!(classify_sse_line("data:{\"a\":1}"), SseLine::Skip));
}

#[test]
fn start_creates_the_task_and_an_empty_message() {
    let r = request();
    let (stream, events) = LocalStream::start(&r, "msg-1".to_string(), at(100));
    assert_eq!(stream.task_id, "root");
    assert_eq!(stream.request_id, r.request_id);
    assert_eq!(stream.message_id, "msg-1");
    assert_eq!(events.len(), 2);
    match &events[0] {
        ResponseEvent::ClientActions { actions } => match &actions[0] {
            ClientAction::CreateTask { task } => {
                assert_eq!(task.id, "root");
                assert!(task.messages.is_empty());
            }
            other => panic!("unexpected action {:?}", other),
        },
        other => panic!("unexpected event {:?}", other),
    }
    match &events[1] {
        ResponseEvent::ClientActions { actions } => match &actions[0] {
            ClientAction::AddMessagesToTask { task_id, messages } => {
                assert_eq!(task_id, "root");
                assert_eq!(messages.len(), 1);
                assert_eq!(messages[0].id, stream.message_id);
                assert_eq!(messages[0].timestamp, Some(at(100)));
                assert!(matches!(
                    &messages[0].message,
                    Some(MessageBody::AgentOutput { text }) if text.is_empty()
                ));
            }
            other => panic!("unexpected action {:?}", other),
        },
        other => panic!("unexpected event {:?}", other),
    }
}

#[test]
fn lines_come_out_of_the_buffer_one_at_a_time() {
    let mut stream = start(&request());
    assert!(stream.next_line().is_none());
    stream.receive_text("data: {\"x\"");
    assert!(stream.next_line().is_none());
    stream.receive_text(":1}\n\n: ping\ndata: [DONE]\ndata: rest");
    match stream.next_line() {
        Some(SseLine::Data(d)) => assert_eq!(d, "{\"x\":1}"),
        other => panic!("expected data, got {:?}", other),
    }
    assert!(matches!(stream.next_line(), Some(SseLine::Skip)));
    assert!(matches!(stream.next_line(), Some(SseLine::Skip)));
    assert!(matches!(stream.next_line(), Some(SseLine::Done)));
    assert!(stream.next_line().is_none());
}

#[test]
fn text_chunks_are_streamed_to_the_message() {
    let mut stream = start(&request());
    let event = stream
        .apply_chunk(chunk(Some("Hello"), None, None))
        .expect("text is streamed");
    assert_eq!(appended_text(&event), "Hello");
    match &event {
        ResponseEvent::ClientActions { actions } => match &actions[0] {
            ClientAction::AppendToMessageContent { task_id, message, .. } => {
                assert_eq!(task_id, "root");
                assert_eq!(message.id, stream.message_id);
                assert!(message.timestamp.is_none());
            }
            _ => unreachable!(),
        },
        _ => unreachable!(),
    }
    assert!(stream.apply_chunk(chunk(None, None, None)).is_none());
    assert!(stream
        .apply_chunk(ChatCompletionChunk { choices: vec![] })
        .is_none());
    let events = finish(stream);
    assert_eq!(events.len(), 1);
    assert!(matches!(
        events[0],
        ResponseEvent::Finished {
            reason: Some(FinishReason::Done)
        }
    ));
}

#[test]
fn reasoning_and_tool_calls_become_follow_up_messages() {
    let mut stream = start(&request());
    assert!(stream.apply_chunk(chunk(None, Some("I should "), None)).is_none());
    assert!(stream
        .apply_chunk(chunk(None, Some("look."), None))
        .is_none());
    stream.apply_chunk(chunk(
        None,
        None,
        Some(vec![tool_delta(
            0,
            Some("call_1"),
            Some("run_shell_command"),
            Some("{\"command\":"),
        )]),
    ));
    stream.apply_chunk(chunk(
        None,
        None,
        Some(vec![tool_delta(0, None, None, Some("\"ls -la\"}"))]),
    ));
    let events = finish(stream);
    assert_eq!(events.len(), 2);
    match &events[0] {
        ResponseEvent::ClientActions { actions } => match &actions[0] {
            ClientAction::AddMessagesToTask { task_id, messages } => {
                assert_eq!(task_id, "root");
                assert_eq!(messages.len(), 2);
                assert!(matches!(
                    &messages[0].message,
                    Some(MessageBody::AgentReasoning { reasoning }) if reasoning == "I should look."
                ));
                match &messages[1].message {
                    Some(MessageBody::ToolCall(tc)) => {
                        assert_eq!(tc.tool_call_id, "call_1");
                        match &tc.tool {
                            Some(Tool::RunShellCommand(c)) => assert_eq!(c.command, "ls -la"),
                            other => panic!("unexpected tool {:?}", other),
                        }
                    }
                    other => panic!("unexpected body {:?}", other),
                }
                assert_eq!(messages[0].id, "id-0");
                assert_eq!(messages[1].id, "id-2");
                assert_eq!(messages[1].timestamp, Some(at(200)));
            }
            other => panic!("unexpected action {:?}", other),
        },
        other => panic!("unexpected event {:?}", other),
    }
    assert!(matches!(
        events[1],
        ResponseEvent::Finished {
            reason: Some(FinishReason::Done)
        }
    ));
}

#[test]
fn tool_calls_fill_in_by_index() {
    let mut stream = start(&request());
    stream.apply_chunk(chunk(
        None,
        None,
        Some(vec![
            tool_delta(1, Some("b"), Some("run_shell_command"), Some("{\"command\":\"pwd\"}")),
            tool_delta(0, Some("a"), Some("other_tool"), Some("{}")),
        ]),
    ));
    let events = finish(stream);
    assert_eq!(events.len(), 2);
    match &events[0] {
        ResponseEvent::ClientActions { actions } => match &actions[0] {
            ClientAction::AddMessagesToTask { messages, .. } => {
                assert_eq!(messages.len(), 1);
                match &messages[0].message {
                    Some(MessageBody::ToolCall(tc)) => assert_eq!(tc.tool_call_id, "b"),
                    other => panic!("unexpected body {:?}", other),
                }
            }
            other => panic!("unexpected action {:?}", other),
        },
        other => panic!("unexpected event {:?}", other),
    }
}

#[test]
fn a_chunk_with_empty_text_keeps_its_tool_call_fragments() {
    let mut stream = start(&request());
    let event = stream.apply_chunk(chunk(
        Some(""),
        Some("why"),
        Some(vec![tool_delta(
            0,
            Some("c"),
            Some("run_shell_command"),
            Some("{\"command\":\"ls\"}"),
        )]),
    ));
    assert!(event.is_none());
    let events = finish(stream);
    assert_eq!(events.len(), 2);
    match &events[0] {
        ResponseEvent::ClientActions { actions } => match &actions[0] {
            ClientAction::AddMessagesToTask { messages, .. } => {
                assert_eq!(messages.len(), 2);
                assert!(matches!(
                    &messages[0].message,
                    Some(MessageBody::AgentReasoning { reasoning }) if reasoning == "why"
                ));
                match &messages[1].message {
                    Some(MessageBody::ToolCall(tc)) => {
                        assert_eq!(tc.tool_call_id, "c");
                        match &tc.tool {
                            Some(Tool::RunShellCommand(c)) => assert_eq!(c.command, "ls"),
                            other => panic!("unexpected tool {:?}", other),
                        }
                    }
                    other => panic!("unexpected body {:?}", other),
                }
            }
            other => panic!("unexpected action {:?}", other),
        },
        other => panic!("unexpected event {:?}", other),
    }
}

#[test]
fn chunks_with_room_for_their_tool_calls_fit() {
    assert!(tool_call_indices_fit(&ChatCompletionChunk { choices: vec![] }));
    assert!(tool_call_indices_fit(&chunk(Some("x"), None, None)));
    assert!(tool_call_indices_fit(&chunk(
        None,
        None,
        Some(vec![tool_delta(3, None, None, None)])
    )));
    assert!(!tool_call_indices_fit(&chunk(
        None,
        None,
        Some(vec![tool_delta(0, None, None, None), tool_delta(usize::MAX, None, None, None)])
    )));
    assert!(!tool_call_indices_fit(&chunk(
        Some(""),
        None,
        Some(vec![tool_delta(usize::MAX, None, None, None)])
    )));
}

#[test]
fn calls_without_an_id_take_fresh_ids_by_position() {
    let mut stream = start(&request());
    stream.apply_chunk(chunk(
        None,
        None,
        Some(vec![
            tool_delta(0, Some("a"), Some("run_shell_command"), Some("{\"command\":\"pwd\"}")),
            tool_delta(1, None, Some("run_shell_command"), Some("{\"command\":\"ls\"}")),
        ]),
    ));
    assert_eq!(stream.fresh_ids_needed(), 5);
    let events = stream.finish(ids(5), at(7));
    match &events[0] {
        ResponseEvent::ClientActions { actions } => match &actions[0] {
            ClientAction::AddMessagesToTask { messages, .. } => {
                assert_eq!(messages.len(), 2);
                assert_eq!(messages[0].id, "id-2");
                assert_eq!(messages[1].id, "id-4");
                assert_eq!(messages[1].timestamp, Some(at(7)));
                match (&messages[0].message, &messages[1].message) {
                    (Some(MessageBody::ToolCall(a)), Some(MessageBody::ToolCall(b))) => {
                        assert_eq!(a.tool_call_id, "a");
                        assert_eq!(b.tool_call_id, "id-3");
                    }
                    other => panic!("unexpected bodies {:?}", other),
                }
            }
            other => panic!("unexpected action {:?}", other),
        },
        other => panic!("unexpected event {:?}", other),
    }
}
