use vstd::prelude::*;

use crate::agent_api::{
    AIAgentInput, Message, MessageBody, RequestParams, RiskCategory, RunShellCommand,
    RunShellCommandOutcome, RunShellCommandResult, Task, Timestamp, Tool, ToolCall,
    ToolCallOutcome, ToolCallResult,
};
use crate::json::{
    json_member_bool, json_member_str, opt_string_view, read_json_member_bool,
    read_json_member_str, run_shell_command_arguments, shell_command_arguments_json,
};
use crate::text::{append_i32_decimal, int_decimal, trim, trim_seq};

verus! {

/// The field path under which streamed agent output is appended to a message.
pub const AGENT_OUTPUT_APPEND_MASK_PATH: &'static str = "agent_output.text";

/// The name of the one tool that the local provider offers the model.
pub const RUN_SHELL_COMMAND_TOOL_NAME: &'static str = "run_shell_command";

/// The instructions that open every conversation with the model.
pub const LOCAL_AGENT_SYSTEM_PROMPT: &'static str = "You are Warp Agent running inside a local Warp terminal. For greetings, simple chat, and questions that do not require terminal state, answer directly without calling tools. Do not run commands just to prove you are working or to demonstrate the terminal. Use the run_shell_command tool only when you need to inspect the environment, run terminal commands, or verify work for the user's request. When the user asks you to run a specific command, call run_shell_command with that exact command first. Do not replace a direct run request with environment checks, summaries, tutorials, or alternative commands unless the command fails or is ambiguous. For example, if the user says \"run htop\" or \"帮我运行htop\", run `htop`. If the user asks in Chinese, answer in Chinese. Prefer read-only commands unless the user asks you to make changes.";

/// Configuration for the local AI agent provider.
#[derive(Debug)]
pub struct LocalProviderConfig {
    pub base_url: String,
    pub model: String,
    pub api_key: String,
}

/// The function that a chat tool call invokes.
#[derive(Debug)]
pub struct ChatToolCallFunction {
    pub name: String,
    pub arguments: String,
}

/// A tool call in the OpenAI-compatible chat format.
#[derive(Debug)]
pub struct ChatToolCall {
    pub id: String,
    /// The call's `type` member.
    pub call_type: String,
    pub function: ChatToolCallFunction,
}

/// A message in the OpenAI-compatible chat format.
#[derive(Debug)]
pub struct ChatMessage {
    pub role: String,
    pub content: Option<String>,
    pub reasoning_content: Option<String>,
    pub tool_call_id: Option<String>,
    pub tool_calls: Vec<ChatToolCall>,
}

/// The contents of a chat tool call.
pub struct ChatToolCallView {
    pub id: Seq<char>,
    pub call_type: Seq<char>,
    pub name: Seq<char>,
    pub arguments: Seq<char>,
}

/// The contents of a chat message.
pub struct ChatMessageView {
    pub role: Seq<char>,
    pub content: Option<Seq<char>>,
    pub reasoning_content: Option<Seq<char>>,
    pub tool_call_id: Option<Seq<char>>,
    pub tool_calls: Seq<ChatToolCallView>,
}

impl View for ChatToolCall {
    type V = ChatToolCallView;

    open spec fn view(&self) -> ChatToolCallView {
        ChatToolCallView {
            id: self.id@,
            call_type: self.call_type@,
            name: self.function.name@,
            arguments: self.function.arguments@,
        }
    }
}

impl View for ChatMessage {
    type V = ChatMessageView;

    open spec fn view(&self) -> ChatMessageView {
        ChatMessageView {
            role: self.role@,
            content: opt_string_view(self.content),
            reasoning_content: opt_string_view(self.reasoning_content),
            tool_call_id: opt_string_view(self.tool_call_id),
            tool_calls: self.tool_calls@.map_values(|c: ChatToolCall| c@),
        }
    }
}

/// The contents of a sequence of chat messages.
pub open spec fn chat_views(messages: Seq<ChatMessage>) -> Seq<ChatMessageView> {
    messages.map_values(|m: ChatMessage| m@)
}

/// A system message.
pub open spec fn chat_system(content: Seq<char>) -> ChatMessageView {
    ChatMessageView {
        role: "system"@,
        content: Some(content),
        reasoning_content: None,
        tool_call_id: None,
        tool_calls: seq![],
    }
}

/// A user message.
pub open spec fn chat_user(content: Seq<char>) -> ChatMessageView {
    ChatMessageView {
        role: "user"@,
        content: Some(content),
        reasoning_content: None,
        tool_call_id: None,
        tool_calls: seq![],
    }
}

/// An assistant message that carries only reasoning.
pub open spec fn chat_assistant_reasoning(reasoning: Seq<char>) -> ChatMessageView {
    ChatMessageView {
        role: "assistant"@,
        content: Some(Seq::empty()),
        reasoning_content: Some(reasoning),
        tool_call_id: None,
        tool_calls: seq![],
    }
}

/// An assistant message with text and the reasoning that led to it.
pub open spec fn chat_assistant(content: Seq<char>, reasoning: Option<Seq<char>>) -> ChatMessageView {
    ChatMessageView {
        role: "assistant"@,
        content: Some(content),
        reasoning_content: reasoning,
        tool_call_id: None,
        tool_calls: seq![],
    }
}

/// An assistant message that makes one tool call.
pub open spec fn chat_assistant_tool_call(
    call: ChatToolCallView,
    reasoning: Option<Seq<char>>,
) -> ChatMessageView {
    ChatMessageView {
        role: "assistant"@,
        content: None,
        reasoning_content: reasoning,
        tool_call_id: None,
        tool_calls: seq![call],
    }
}

/// A tool message: the result of the tool call `tool_call_id`.
pub open spec fn chat_tool(tool_call_id: Seq<char>, content: Seq<char>) -> ChatMessageView {
    ChatMessageView {
        role: "tool"@,
        content: Some(content),
        reasoning_content: None,
        tool_call_id: Some(tool_call_id),
        tool_calls: seq![],
    }
}

impl ChatMessage {
    pub fn system(content: String) -> (message: Self)
        ensures
            message@ == chat_system(content@),
    {
        let message = ChatMessage {
            role: "system".to_owned(),
            content: Some(content),
            reasoning_content: None,
            tool_call_id: None,
            tool_calls: Vec::new(),
        };
        assert(message@.tool_calls =~= Seq::<ChatToolCallView>::empty());
        message
    }

    pub fn user(content: String) -> (message: Self)
        ensures
            message@ == chat_user(content@),
    {
        let message = ChatMessage {
            role: "user".to_owned(),
            content: Some(content),
            reasoning_content: None,
            tool_call_id: None,
            tool_calls: Vec::new(),
        };
        assert(message@.tool_calls =~= Seq::<ChatToolCallView>::empty());
        message
    }

    pub fn assistant_reasoning(reasoning_content: String) -> (message: Self)
        ensures
            message@ == chat_assistant_reasoning(reasoning_content@),
    {
        let message = ChatMessage {
            role: "assistant".to_owned(),
            content: Some(String::new()),
            reasoning_content: Some(reasoning_content),
            tool_call_id: None,
            tool_calls: Vec::new(),
        };
        assert(message@.tool_calls =~= Seq::<ChatToolCallView>::empty());
        message
    }

    pub fn assistant_with_reasoning(content: String, reasoning_content: Option<String>) -> (message: Self)
        ensures
            message@ == chat_assistant(content@, opt_string_view(reasoning_content)),
    {
        let message = ChatMessage {
            role: "assistant".to_owned(),
            content: Some(content),
            reasoning_content,
            tool_call_id: None,
            tool_calls: Vec::new(),
        };
        assert(message@.tool_calls =~= Seq::<ChatToolCallView>::empty());
        message
    }

    pub fn assistant_tool_call(tool_call: ChatToolCall, reasoning_content: Option<String>) -> (message: Self)
        ensures
            message@ == chat_assistant_tool_call(tool_call@, opt_string_view(reasoning_content)),
    {
        let ghost call = tool_call@;
        let mut tool_calls = Vec::new();
        tool_calls.push(tool_call);
        let message = ChatMessage {
            role: "assistant".to_owned(),
            content: None,
            reasoning_content,
            tool_call_id: None,
            tool_calls,
        };
        assert(message@.tool_calls =~= seq![call]);
        message
    }

    pub fn tool(tool_call_id: String, content: String) -> (message: Self)
        ensures
            message@ == chat_tool(tool_call_id@, content@),
    {
        let message = ChatMessage {
            role: "tool".to_owned(),
            content: Some(content),
            reasoning_content: None,
            tool_call_id: Some(tool_call_id),
            tool_calls: Vec::new(),
        };
        assert(message@.tool_calls =~= Seq::<ChatToolCallView>::empty());
        message
    }
}


/// The chat form of a tool call of the agent, for the tools that the local provider handles.
pub open spec fn chat_tool_call_of(tool_call: ToolCall) -> Option<ChatToolCallView> {
    match tool_call.tool {
        Some(Tool::RunShellCommand(command)) => Some(
            ChatToolCallView {
                id: tool_call.tool_call_id@,
                call_type: "function"@,
                name: RUN_SHELL_COMMAND_TOOL_NAME@,
                arguments: shell_command_arguments_json(
                    command.command@,
                    command.is_read_only,
                    command.is_risky,
                    command.uses_pager,
                ),
            },
        ),
        _ => None,
    }
}

/// The text that reports the result of a shell command to the model.
pub open spec fn run_shell_command_result_text(result: RunShellCommandResult) -> Seq<char> {
    let command = result.command@;
    match result.result {
        Some(RunShellCommandOutcome::CommandFinished { exit_code, output }) => "Command `"@ + command
            + "` finished with exit code "@ + int_decimal(exit_code as int) + ".\n\n"@ + output@,
        Some(RunShellCommandOutcome::LongRunningCommandSnapshot { output }) => "Command `"@ + command
            + "` is still running. Current output:\n\n"@ + output@,
        Some(RunShellCommandOutcome::PermissionDenied) => "Command `"@ + command
            + "` was denied permission to run."@,
        None => "Command `"@ + command + "` returned no result."@,
    }
}

/// The report of a shell command's result names the command first, between backquotes, and
/// ends with the command's output when there is output to report.
pub proof fn lemma_result_text_names_command(r: RunShellCommandResult)
    ensures
        ({
            let t = run_shell_command_result_text(r);
            let head = "Command `"@ + r.command@ + "`"@;
            &&& head.len() <= t.len()
            &&& t.subrange(0, head.len() as int) == head
            &&& match r.result {
                Some(RunShellCommandOutcome::CommandFinished { output, .. }) => t.subrange(
                    t.len() - output@.len(),
                    t.len() as int,
                ) == output@,
                Some(RunShellCommandOutcome::LongRunningCommandSnapshot { output }) => t.subrange(
                    t.len() - output@.len(),
                    t.len() as int,
                ) == output@,
                _ => true,
            }
        }),
{
    reveal_strlit("Command `");
    reveal_strlit("`");
    reveal_strlit("` finished with exit code ");
    reveal_strlit("` is still running. Current output:\n\n");
    reveal_strlit("` was denied permission to run.");
    reveal_strlit("` returned no result.");
    let t = run_shell_command_result_text(r);
    let head = "Command `"@ + r.command@ + "`"@;
    let c = r.command@;
    match r.result {
        Some(RunShellCommandOutcome::CommandFinished { exit_code, output }) => {
            let tail = "` finished with exit code "@ + int_decimal(exit_code as int) + ".\n\n"@ + output@;
            assert(t =~= "Command `"@ + c + tail);
            assert(t.subrange(0, head.len() as int) =~= head);
            assert(t.subrange(t.len() - output@.len(), t.len() as int) =~= output@);
        },
        Some(RunShellCommandOutcome::LongRunningCommandSnapshot { output }) => {
            assert(t.subrange(0, head.len() as int) =~= head);
            assert(t.subrange(t.len() - output@.len(), t.len() as int) =~= output@);
        },
        _ => {
            assert(t.subrange(0, head.len() as int) =~= head);
        },
    }
}

/// The text that reports a tool call's result to the model, for the tools that the local
/// provider handles.
pub open spec fn tool_result_content_of(result: ToolCallResult) -> Option<Seq<char>> {
    match result.result {
        Some(ToolCallOutcome::RunShellCommand(r)) => Some(run_shell_command_result_text(r)),
        _ => None,
    }
}

/// The chat message that a message of a task becomes, if any, given the reasoning that is
/// waiting for the next assistant message.
pub open spec fn chat_of_api_message(
    body: Option<MessageBody>,
    pending: Option<Seq<char>>,
) -> Option<ChatMessageView> {
    match body {
        Some(MessageBody::UserQuery { query }) => if query@.len() > 0 {
            Some(chat_user(query@))
        } else {
            None
        },
        Some(MessageBody::AgentOutput { text }) => if text@.len() > 0 {
            Some(chat_assistant(text@, pending))
        } else {
            None
        },
        Some(MessageBody::ToolCall(tool_call)) => match chat_tool_call_of(tool_call) {
            Some(call) => Some(chat_assistant_tool_call(call, pending)),
            None => None,
        },
        Some(MessageBody::ToolCallResult(result)) => match tool_result_content_of(result) {
            Some(content) => Some(chat_tool(result.tool_call_id@, content)),
            None => None,
        },
        _ => None,
    }
}

/// The reasoning that waits for the next assistant message after a message of a task: the
/// message's reasoning is added to it; an assistant message takes it.
pub open spec fn pending_after_api_message(
    body: Option<MessageBody>,
    pending: Option<Seq<char>>,
) -> Option<Seq<char>> {
    match body {
        Some(MessageBody::AgentReasoning { reasoning }) => if reasoning@.len() > 0 {
            match pending {
                Some(existing) => Some(existing + reasoning@),
                None => Some(reasoning@),
            }
        } else {
            pending
        },
        Some(MessageBody::AgentOutput { text }) => if text@.len() > 0 {
            None
        } else {
            pending
        },
        Some(MessageBody::ToolCall(tool_call)) => if chat_tool_call_of(tool_call) is Some {
            None
        } else {
            pending
        },
        _ => pending,
    }
}

/// The chat messages that a task's messages become, and the reasoning left waiting after them.
pub open spec fn chat_of_task_messages(messages: Seq<Message>) -> (Seq<ChatMessageView>, Option<Seq<char>>)
    decreases messages.len(),
{
    if messages.len() == 0 {
        (seq![], None)
    } else {
        let (chat, pending) = chat_of_task_messages(messages.drop_last());
        let body = messages.last().message;
        let chat = match chat_of_api_message(body, pending) {
            Some(c) => chat.push(c),
            None => chat,
        };
        (chat, pending_after_api_message(body, pending))
    }
}

/// The chat messages that a task becomes: those of its messages, then an assistant message with
/// any reasoning left waiting.
pub open spec fn chat_of_task(task: Task) -> Seq<ChatMessageView> {
    let (chat, pending) = chat_of_task_messages(task.messages@);
    match pending {
        Some(reasoning) => chat.push(chat_assistant_reasoning(reasoning)),
        None => chat,
    }
}

/// The chat messages that a sequence of tasks becomes.
pub open spec fn chat_of_tasks(tasks: Seq<Task>) -> Seq<ChatMessageView>
    decreases tasks.len(),
{
    if tasks.len() == 0 {
        seq![]
    } else {
        chat_of_tasks(tasks.drop_last()) + chat_of_task(tasks.last())
    }
}

/// The chat message that an input of the request becomes, if any.
pub open spec fn chat_of_input(input: AIAgentInput) -> Option<ChatMessageView> {
    match input {
        AIAgentInput::UserQuery { query } => if query@.len() > 0 {
            Some(chat_user(query@))
        } else {
            None
        },
        AIAgentInput::ActionResult { result } => Some(chat_tool(result.id@, result.result@)),
        AIAgentInput::Other => None,
    }
}

/// The chat messages that a sequence of inputs becomes.
pub open spec fn chat_of_inputs(inputs: Seq<AIAgentInput>) -> Seq<ChatMessageView>
    decreases inputs.len(),
{
    if inputs.len() == 0 {
        seq![]
    } else {
        match chat_of_input(inputs.last()) {
            Some(c) => chat_of_inputs(inputs.drop_last()).push(c),
            None => chat_of_inputs(inputs.drop_last()),
        }
    }
}

/// The conversation sent to the model for a request: the system prompt, the chat form of the
/// tasks' messages, then the chat form of the inputs.
pub open spec fn chat_messages_of(params: RequestParams) -> Seq<ChatMessageView> {
    seq![chat_system(LOCAL_AGENT_SYSTEM_PROMPT@)] + chat_of_tasks(params.tasks@) + chat_of_inputs(
        params.input@,
    )
}

/// The query of the first user-query input, or the empty string when there is none.
pub open spec fn first_user_query(inputs: Seq<AIAgentInput>) -> Seq<char>
    decreases inputs.len(),
{
    if inputs.len() == 0 {
        Seq::empty()
    } else {
        match inputs[0] {
            AIAgentInput::UserQuery { query } => query@,
            _ => first_user_query(inputs.drop_first()),
        }
    }
}

/// The extracted query is the query of the first user-query input: no earlier input is a user
/// query, and without any user-query input the query is empty.
pub proof fn lemma_first_user_query(inputs: Seq<AIAgentInput>)
    ensures
        (forall|j: int| 0 <= j < inputs.len() ==> !(#[trigger] inputs[j] is UserQuery))
            ==> first_user_query(inputs).len() == 0,
        forall|i: int|
            0 <= i < inputs.len() && (#[trigger] inputs[i] is UserQuery) && (forall|j: int|
                0 <= j < i ==> !(#[trigger] inputs[j] is UserQuery)) ==> first_user_query(inputs)
                == inputs[i]->UserQuery_query@,
    decreases inputs.len(),
{
    if inputs.len() > 0 {
        let rest = inputs.drop_first();
        lemma_first_user_query(rest);
        assert forall|j: int| 0 <= j < rest.len() implies rest[j] == inputs[j + 1] by {}
        assert forall|i: int|
            0 <= i < inputs.len() && (#[trigger] inputs[i] is UserQuery) && (forall|j: int|
                0 <= j < i ==> !(#[trigger] inputs[j] is UserQuery)) implies first_user_query(inputs)
                == inputs[i]->UserQuery_query@ by {
            if i > 0 {
                assert(!(inputs[0] is UserQuery));
                assert(rest[i - 1] == inputs[i]);
                assert forall|j: int| 0 <= j < i - 1 implies !(#[trigger] rest[j] is UserQuery) by {
                    assert(rest[j] == inputs[j + 1]);
                }
            }
        }
        if forall|j: int| 0 <= j < inputs.len() ==> !(#[trigger] inputs[j] is UserQuery) {
            assert(!(inputs[0] is UserQuery));
            assert forall|j: int| 0 <= j < rest.len() implies !(#[trigger] rest[j] is UserQuery) by {
                assert(rest[j] == inputs[j + 1]);
            }
        }
    }
}

proof fn lemma_chat_views_push(messages: Seq<ChatMessage>, m: ChatMessage)
    ensures
        chat_views(messages.push(m)) == chat_views(messages).push(m@),
{
    assert(chat_views(messages.push(m)) =~= chat_views(messages).push(m@));
}

fn push_chat(messages: &mut Vec<ChatMessage>, m: ChatMessage)
    ensures
        chat_views(final(messages)@) == chat_views(old(messages)@).push(m@),
{
    proof {
        lemma_chat_views_push(messages@, m);
    }
    messages.push(m);
}

/// Extracts the user query text from a request.
pub fn extract_user_query(params: &RequestParams) -> (query: String)
    ensures
        query@ == first_user_query(params.input@),
{
    let n = params.input.len();
    let mut i: usize = 0;
    assert(params.input@.skip(0) =~= params.input@);
    while i < n
        invariant
            n == params.input@.len(),
            i <= n,
            first_user_query(params.input@) == first_user_query(params.input@.skip(i as int)),
        decreases n - i,
    {
        let ghost rest = params.input@.skip(i as int);
        assert(rest[0] == params.input@[i as int]);
        if let AIAgentInput::UserQuery { query } = &params.input[i] {
            return query.clone();
        }
        assert(rest.drop_first() =~= params.input@.skip(i + 1));
        i = i + 1;
    }
    String::new()
}

/// The chat form of a tool call of the agent, for the tools that the local provider handles.
pub fn chat_tool_call_from_api(tool_call: &ToolCall) -> (call: Option<ChatToolCall>)
    ensures
        match call {
            Some(c) => chat_tool_call_of(*tool_call) == Some(c@),
            None => chat_tool_call_of(*tool_call) is None,
        },
        call matches Some(c) ==> shell_arguments_read_back(c@.arguments, *tool_call),
{
    match &tool_call.tool {
        Some(Tool::RunShellCommand(command)) => Some(
            ChatToolCall {
                id: tool_call.tool_call_id.clone(),
                call_type: "function".to_owned(),
                function: ChatToolCallFunction {
                    name: RUN_SHELL_COMMAND_TOOL_NAME.to_owned(),
                    arguments: run_shell_command_arguments(
                        command.command.as_str(),
                        command.is_read_only,
                        command.is_risky,
                        command.uses_pager,
                    ),
                },
            },
        ),
        _ => None,
    }
}

/// The text that reports the result of a shell command to the model.
pub fn format_run_shell_command_result(result: &RunShellCommandResult) -> (text: String)
    ensures
        text@ == run_shell_command_result_text(*result),
{
    let mut text = "Command `".to_owned();
    text.append(result.command.as_str());
    match &result.result {
        Some(RunShellCommandOutcome::CommandFinished { exit_code, output }) => {
            text.append("` finished with exit code ");
            append_i32_decimal(&mut text, *exit_code);
            text.append(".\n\n");
            text.append(output.as_str());
        },
        Some(RunShellCommandOutcome::LongRunningCommandSnapshot { output }) => {
            text.append("` is still running. Current output:\n\n");
            text.append(output.as_str());
        },
        Some(RunShellCommandOutcome::PermissionDenied) => {
            text.append("` was denied permission to run.");
        },
        None => {
            text.append("` returned no result.");
        },
    }
    text
}

/// The text that reports a tool call's result to the model, for the tools that the local
/// provider handles.
pub fn tool_result_content_from_api(result: &ToolCallResult) -> (content: Option<String>)
    ensures
        opt_string_view(content) == tool_result_content_of(*result),
{
    match &result.result {
        Some(ToolCallOutcome::RunShellCommand(r)) => Some(format_run_shell_command_result(r)),
        _ => None,
    }
}

/// Appends the chat form of a message of a task, attaching the reasoning that waits for the
/// next assistant message to it.
pub fn append_api_message_as_chat(
    message: &Message,
    messages: &mut Vec<ChatMessage>,
    pending_reasoning: &mut Option<String>,
)
    ensures
        chat_views(final(messages)@) == match chat_of_api_message(
            message.message,
            opt_string_view(*old(pending_reasoning)),
        ) {
            Some(c) => chat_views(old(messages)@).push(c),
            None => chat_views(old(messages)@),
        },
        opt_string_view(*final(pending_reasoning)) == pending_after_api_message(
            message.message,
            opt_string_view(*old(pending_reasoning)),
        ),
{
    let body = match &message.message {
        Some(body) => body,
        None => return,
    };
    match body {
        MessageBody::UserQuery { query } => {
            if !query.as_str().is_empty() {
                push_chat(messages, ChatMessage::user(query.clone()));
            }
        },
        MessageBody::AgentOutput { text } => {
            if !text.as_str().is_empty() {
                let reasoning = pending_reasoning.take();
                push_chat(messages, ChatMessage::assistant_with_reasoning(text.clone(), reasoning));
            }
        },
        MessageBody::AgentReasoning { reasoning } => {
            if !reasoning.as_str().is_empty() {
                let previous = pending_reasoning.take();
                match previous {
                    Some(mut existing) => {
                        existing.append(reasoning.as_str());
                        *pending_reasoning = Some(existing);
                    },
                    None => {
                        *pending_reasoning = Some(reasoning.clone());
                    },
                }
            }
        },
        MessageBody::ToolCall(tool_call) => {
            if let Some(chat_tool_call) = chat_tool_call_from_api(tool_call) {
                let reasoning = pending_reasoning.take();
                push_chat(messages, ChatMessage::assistant_tool_call(chat_tool_call, reasoning));
            }
        },
        MessageBody::ToolCallResult(tool_call_result) => {
            if let Some(content) = tool_result_content_from_api(tool_call_result) {
                push_chat(
                    messages,
                    ChatMessage::tool(tool_call_result.tool_call_id.clone(), content),
                );
            }
        },
        MessageBody::Other => {},
    }
}

/// Appends the chat form of an input of the request.
pub fn append_input_as_chat(input: &AIAgentInput, messages: &mut Vec<ChatMessage>)
    ensures
        chat_views(final(messages)@) == match chat_of_input(*input) {
            Some(c) => chat_views(old(messages)@).push(c),
            None => chat_views(old(messages)@),
        },
{
    match input {
        AIAgentInput::UserQuery { query } => {
            if !query.as_str().is_empty() {
                push_chat(messages, ChatMessage::user(query.clone()));
            }
        },
        AIAgentInput::ActionResult { result } => {
            push_chat(messages, ChatMessage::tool(result.id.clone(), result.result.clone()));
        },
        AIAgentInput::Other => {},
    }
}

/// Appends the chat form of a task.
fn append_task_as_chat(task: &Task, messages: &mut Vec<ChatMessage>)
    ensures
        chat_views(final(messages)@) == chat_views(old(messages)@) + chat_of_task(*task),
{
    let mut pending_reasoning: Option<String> = None;
    let n = task.messages.len();
    let ghost start = chat_views(messages@);
    for i in 0..n
        invariant
            n == task.messages@.len(),
            chat_views(messages@) == start + chat_of_task_messages(task.messages@.take(i as int)).0,
            opt_string_view(pending_reasoning) == chat_of_task_messages(
                task.messages@.take(i as int),
            ).1,
    {
        proof {
            assert(task.messages@.take(i + 1).drop_last() =~= task.messages@.take(i as int));
            assert(task.messages@.take(i + 1).last() == task.messages@[i as int]);
        }
        append_api_message_as_chat(&task.messages[i], messages, &mut pending_reasoning);
        proof {
            let prev = chat_of_task_messages(task.messages@.take(i as int));
            let body = task.messages@[i as int].message;
            match chat_of_api_message(body, prev.1) {
                Some(c) => {
                    assert(start + prev.0.push(c) =~= (start + prev.0).push(c));
                },
                None => {},
            }
        }
    }
    proof {
        assert(task.messages@.take(n as int) =~= task.messages@);
    }
    let ghost before = chat_views(messages@);
    if let Some(reasoning) = pending_reasoning {
        push_chat(messages, ChatMessage::assistant_reasoning(reasoning));
    }
    proof {
        let (chat, pending) = chat_of_task_messages(task.messages@);
        match pending {
            Some(r) => {
                assert(start + chat.push(chat_assistant_reasoning(r)) =~= before.push(
                    chat_assistant_reasoning(r),
                ));
            },
            None => {},
        }
    }
}

/// Builds the conversation sent to the model for a request.
pub fn build_chat_messages(params: &RequestParams) -> (messages: Vec<ChatMessage>)
    ensures
        chat_views(messages@) == chat_messages_of(*params),
{
    let mut messages: Vec<ChatMessage> = Vec::new();
    push_chat(&mut messages, ChatMessage::system(LOCAL_AGENT_SYSTEM_PROMPT.to_owned()));
    let ghost head = chat_views(messages@);
    proof {
        assert(head =~= seq![chat_system(LOCAL_AGENT_SYSTEM_PROMPT@)]);
    }
    let n = params.tasks.len();
    for i in 0..n
        invariant
            n == params.tasks@.len(),
            chat_views(messages@) == head + chat_of_tasks(params.tasks@.take(i as int)),
    {
        proof {
            assert(params.tasks@.take(i + 1).drop_last() =~= params.tasks@.take(i as int));
        }
        append_task_as_chat(&params.tasks[i], &mut messages);
        proof {
            assert(head + chat_of_tasks(params.tasks@.take(i as int)) + chat_of_task(
                params.tasks@[i as int],
            ) =~= head + chat_of_tasks(params.tasks@.take(i + 1)));
        }
    }
    proof {
        assert(params.tasks@.take(n as int) =~= params.tasks@);
    }
    let ghost middle = chat_views(messages@);
    let m = params.input.len();
    for i in 0..m
        invariant
            m == params.input@.len(),
            chat_views(messages@) == middle + chat_of_inputs(params.input@.take(i as int)),
    {
        proof {
            assert(params.input@.take(i + 1).drop_last() =~= params.input@.take(i as int));
        }
        append_input_as_chat(&params.input[i], &mut messages);
        proof {
            match chat_of_input(params.input@[i as int]) {
                Some(c) => {
                    assert(middle + chat_of_inputs(params.input@.take(i as int)).push(c) =~= (middle
                        + chat_of_inputs(params.input@.take(i as int))).push(c));
                },
                None => {},
            }
        }
    }
    proof {
        assert(params.input@.take(m as int) =~= params.input@);
    }
    messages
}


/// The reasoning that a sequence of chat messages carries, in order.
pub open spec fn chat_reasoning(chat: Seq<ChatMessageView>) -> Seq<char>
    decreases chat.len(),
{
    if chat.len() == 0 {
        Seq::empty()
    } else {
        chat_reasoning(chat.drop_last()) + match chat.last().reasoning_content {
            Some(r) => r,
            None => Seq::empty(),
        }
    }
}

/// The reasoning that a task's messages carry, in order.
pub open spec fn task_reasoning(messages: Seq<Message>) -> Seq<char>
    decreases messages.len(),
{
    if messages.len() == 0 {
        Seq::empty()
    } else {
        task_reasoning(messages.drop_last()) + match messages.last().message {
            Some(MessageBody::AgentReasoning { reasoning }) => reasoning@,
            _ => Seq::empty(),
        }
    }
}

/// The characters of an optional string, or none.
pub open spec fn or_empty(s: Option<Seq<char>>) -> Seq<char> {
    match s {
        Some(r) => r,
        None => Seq::empty(),
    }
}

proof fn lemma_task_messages_keep_reasoning(messages: Seq<Message>)
    ensures
        chat_reasoning(chat_of_task_messages(messages).0) + or_empty(
            chat_of_task_messages(messages).1,
        ) == task_reasoning(messages),
    decreases messages.len(),
{
    if messages.len() > 0 {
        lemma_task_messages_keep_reasoning(messages.drop_last());
        let (chat, pending) = chat_of_task_messages(messages.drop_last());
        let body = messages.last().message;
        match chat_of_api_message(body, pending) {
            Some(c) => {
                assert(chat.push(c).drop_last() =~= chat);
            },
            None => {},
        }
        match body {
            Some(MessageBody::AgentReasoning { reasoning }) => {
                assert(chat_reasoning(chat) + or_empty(pending) + reasoning@ =~= chat_reasoning(chat)
                    + or_empty(pending_after_api_message(body, pending)));
            },
            _ => {
                assert(chat_reasoning(chat) + or_empty(pending) =~= chat_reasoning(chat) + or_empty(
                    pending,
                ) + Seq::<char>::empty());
            },
        }
    }
}

/// No reasoning of a task is lost or reordered on the way to the model: the chat messages of a
/// task carry, in order, exactly the reasoning of the task's messages.
pub proof fn lemma_task_chat_keeps_reasoning(task: Task)
    ensures
        chat_reasoning(chat_of_task(task)) == task_reasoning(task.messages@),
{
    lemma_task_messages_keep_reasoning(task.messages@);
    let (chat, pending) = chat_of_task_messages(task.messages@);
    match pending {
        Some(r) => {
            assert(chat.push(chat_assistant_reasoning(r)).drop_last() =~= chat);
        },
        None => {
            assert(chat_reasoning(chat) + Seq::<char>::empty() =~= chat_reasoning(chat));
        },
    }
}

/// A task's messages are sent in the order they come: the chat messages of the first `k`
/// messages of a task open the chat messages of all of them, and each message adds at most one.
pub proof fn lemma_task_messages_in_order(messages: Seq<Message>, k: int)
    requires
        0 <= k <= messages.len(),
    ensures
        chat_of_task_messages(messages.take(k)).0.len() <= chat_of_task_messages(messages).0.len(),
        chat_of_task_messages(messages).0.len() <= chat_of_task_messages(messages.take(k)).0.len()
            + (messages.len() - k),
        chat_of_task_messages(messages).0.take(chat_of_task_messages(messages.take(k)).0.len() as int)
            == chat_of_task_messages(messages.take(k)).0,
    decreases messages.len() - k,
{
    if k == messages.len() {
        assert(messages.take(k) =~= messages);
        assert(chat_of_task_messages(messages).0.take(chat_of_task_messages(messages).0.len() as int)
            =~= chat_of_task_messages(messages).0);
    } else {
        let shorter = messages.drop_last();
        lemma_task_messages_in_order(shorter, k);
        assert(shorter.take(k) =~= messages.take(k));
        let prev = chat_of_task_messages(shorter).0;
        let cur = chat_of_task_messages(messages).0;
        let n = chat_of_task_messages(messages.take(k)).0.len() as int;
        assert(cur == prev || cur == prev.push(cur.last()));
        if cur != prev {
            assert(cur.take(n) =~= prev.take(n));
        }
    }
}

/// Tasks are sent in the order they come: the conversation of a sequence of tasks is that of
/// its first part followed by that of the rest, and a single task contributes its own chat
/// messages.
pub proof fn lemma_tasks_in_order(a: Seq<Task>, b: Seq<Task>, t: Task)
    ensures
        chat_of_tasks(a + b) == chat_of_tasks(a) + chat_of_tasks(b),
        chat_of_tasks(seq![t]) == chat_of_task(t),
    decreases b.len(),
{
    if b.len() == 0 {
        assert(a + b =~= a);
        assert(chat_of_tasks(a) + Seq::<ChatMessageView>::empty() =~= chat_of_tasks(a));
    } else {
        lemma_tasks_in_order(a, b.drop_last(), t);
        assert((a + b).drop_last() =~= a + b.drop_last());
        assert((a + b).last() == b.last());
        assert(chat_of_tasks(a) + chat_of_tasks(b.drop_last()) + chat_of_task(b.last()) =~= chat_of_tasks(a)
            + (chat_of_tasks(b.drop_last()) + chat_of_task(b.last())));
    }
    assert(seq![t].drop_last() =~= Seq::<Task>::empty());
    assert(seq![t].last() == t);
    assert(chat_of_tasks(Seq::<Task>::empty()) == Seq::<ChatMessageView>::empty());
    assert(chat_of_tasks(seq![t]) == chat_of_tasks(seq![t].drop_last()) + chat_of_task(t));
    assert(Seq::<ChatMessageView>::empty() + chat_of_task(t) =~= chat_of_task(t));
}

/// Inputs are sent in the order they come: the chat messages of a sequence of inputs are those
/// of its first part followed by those of the rest, and a single input contributes its own
/// chat message, if any.
pub proof fn lemma_inputs_in_order(a: Seq<AIAgentInput>, b: Seq<AIAgentInput>, x: AIAgentInput)
    ensures
        chat_of_inputs(a + b) == chat_of_inputs(a) + chat_of_inputs(b),
        chat_of_inputs(seq![x]) == match chat_of_input(x) {
            Some(c) => seq![c],
            None => Seq::<ChatMessageView>::empty(),
        },
    decreases b.len(),
{
    if b.len() == 0 {
        assert(a + b =~= a);
        assert(chat_of_inputs(a) + Seq::<ChatMessageView>::empty() =~= chat_of_inputs(a));
    } else {
        lemma_inputs_in_order(a, b.drop_last(), x);
        assert((a + b).drop_last() =~= a + b.drop_last());
        assert((a + b).last() == b.last());
        match chat_of_input(b.last()) {
            Some(c) => {
                assert((chat_of_inputs(a) + chat_of_inputs(b.drop_last())).push(c) =~= chat_of_inputs(a)
                    + chat_of_inputs(b.drop_last()).push(c));
            },
            None => {},
        }
    }
    assert(seq![x].drop_last() =~= Seq::<AIAgentInput>::empty());
    assert(seq![x].last() == x);
    assert(chat_of_inputs(Seq::<AIAgentInput>::empty()) == Seq::<ChatMessageView>::empty());
    match chat_of_input(x) {
        Some(c) => {
            assert(Seq::<ChatMessageView>::empty().push(c) =~= seq![c]);
        },
        None => {},
    }
}

/// The conversation sent to the model always opens with the system prompt.
pub proof fn lemma_chat_opens_with_system_prompt(params: RequestParams)
    ensures
        chat_messages_of(params).len() >= 1,
        chat_messages_of(params)[0] == chat_system(LOCAL_AGENT_SYSTEM_PROMPT@),
{
}


/// The JSON schema of the shell command tool's parameters.
pub const RUN_SHELL_COMMAND_PARAMETERS_SCHEMA: &'static str = "{\"type\":\"object\",\"properties\":{\"command\":{\"type\":\"string\",\"description\":\"The shell command to run.\"},\"is_read_only\":{\"type\":\"boolean\",\"description\":\"Whether the command only reads state and does not modify local files, services, or external systems.\"},\"is_risky\":{\"type\":\"boolean\",\"description\":\"Whether the command may be risky and should require user approval.\"},\"uses_pager\":{\"type\":\"boolean\",\"description\":\"Whether the command may open an interactive pager.\"}},\"required\":[\"command\"]}";

/// What the shell command tool is for, as the model is told.
pub const RUN_SHELL_COMMAND_DESCRIPTION: &'static str = "Run a shell command in the active Warp terminal and return its output. Use this only when the user explicitly asks to run a command or when terminal state is required to answer the request. Do not use it for greetings or general conversation.";

/// A function that the model may call.
#[derive(Debug)]
pub struct ChatToolFunction {
    pub name: String,
    pub description: String,
    /// The JSON schema of the function's parameters, as JSON text.
    pub parameters: String,
}

/// A tool that the model may use.
#[derive(Debug)]
pub struct ChatTool {
    /// The tool's `type` member.
    pub tool_type: String,
    pub function: ChatToolFunction,
}

/// The tools offered to the model: the shell command tool alone.
pub fn chat_tools() -> (tools: Vec<ChatTool>)
    ensures
        tools@.len() == 1,
        tools@[0].tool_type@ == "function"@,
        tools@[0].function.name@ == RUN_SHELL_COMMAND_TOOL_NAME@,
        tools@[0].function.description@ == RUN_SHELL_COMMAND_DESCRIPTION@,
        tools@[0].function.parameters@ == RUN_SHELL_COMMAND_PARAMETERS_SCHEMA@,
{
    let mut tools = Vec::new();
    tools.push(
        ChatTool {
            tool_type: "function".to_owned(),
            function: ChatToolFunction {
                name: RUN_SHELL_COMMAND_TOOL_NAME.to_owned(),
                description: RUN_SHELL_COMMAND_DESCRIPTION.to_owned(),
                parameters: RUN_SHELL_COMMAND_PARAMETERS_SCHEMA.to_owned(),
            },
        },
    );
    tools
}

/// A streamed fragment of a function call.
#[derive(Debug)]
pub struct ChatToolCallFunctionDelta {
    pub name: Option<String>,
    pub arguments: Option<String>,
}

/// A streamed fragment of a tool call; fragments with the same index build one call.
#[derive(Debug)]
pub struct ChatToolCallDelta {
    pub index: usize,
    pub id: Option<String>,
    pub call_type: Option<String>,
    pub function: Option<ChatToolCallFunctionDelta>,
}

/// A tool call being assembled from streamed fragments.
#[derive(Debug)]
pub struct PendingToolCall {
    pub id: String,
    pub call_type: String,
    pub name: String,
    pub arguments: String,
}

/// The contents of a tool call being assembled.
pub struct PendingToolCallView {
    pub id: Seq<char>,
    pub call_type: Seq<char>,
    pub name: Seq<char>,
    pub arguments: Seq<char>,
}

impl View for PendingToolCall {
    type V = PendingToolCallView;

    open spec fn view(&self) -> PendingToolCallView {
        PendingToolCallView {
            id: self.id@,
            call_type: self.call_type@,
            name: self.name@,
            arguments: self.arguments@,
        }
    }
}

/// A tool call being assembled after one more fragment: a given id or type replaces the one
/// held; given name and argument text are appended.
pub open spec fn pending_after_delta(p: PendingToolCallView, delta: ChatToolCallDelta) -> PendingToolCallView {
    PendingToolCallView {
        id: match delta.id {
            Some(id) => id@,
            None => p.id,
        },
        call_type: match delta.call_type {
            Some(t) => t@,
            None => p.call_type,
        },
        name: match delta.function {
            Some(f) => match f.name {
                Some(n) => p.name + n@,
                None => p.name,
            },
            None => p.name,
        },
        arguments: match delta.function {
            Some(f) => match f.arguments {
                Some(a) => p.arguments + a@,
                None => p.arguments,
            },
            None => p.arguments,
        },
    }
}

/// Fragments build a tool call in the order they arrive: a fragment's name and argument text
/// go after what was assembled before, which stays in front; its id and type replace the held
/// ones only when it carries them.
pub proof fn lemma_fragments_extend_the_call(p: PendingToolCallView, delta: ChatToolCallDelta)
    ensures
        pending_after_delta(p, delta).name.len() >= p.name.len(),
        pending_after_delta(p, delta).name.take(p.name.len() as int) == p.name,
        pending_after_delta(p, delta).arguments.len() >= p.arguments.len(),
        pending_after_delta(p, delta).arguments.take(p.arguments.len() as int) == p.arguments,
        delta.id is None ==> pending_after_delta(p, delta).id == p.id,
        delta.call_type is None ==> pending_after_delta(p, delta).call_type == p.call_type,
        delta.function is None ==> pending_after_delta(p, delta).name == p.name
            && pending_after_delta(p, delta).arguments == p.arguments,
{
    let q = pending_after_delta(p, delta);
    assert(q.name.take(p.name.len() as int) =~= p.name);
    assert(q.arguments.take(p.arguments.len() as int) =~= p.arguments);
}

impl Default for PendingToolCall {
    fn default() -> (p: Self)
        ensures
            p@.id.len() == 0,
            p@.call_type.len() == 0,
            p@.name.len() == 0,
            p@.arguments.len() == 0,
    {
        PendingToolCall {
            id: String::new(),
            call_type: String::new(),
            name: String::new(),
            arguments: String::new(),
        }
    }
}

impl PendingToolCall {
    /// Adds one streamed fragment.
    pub fn append_delta(&mut self, delta: ChatToolCallDelta)
        ensures
            final(self)@ == pending_after_delta(old(self)@, delta),
    {
        let ghost d = delta;
        let ChatToolCallDelta { index: _, id, call_type, function } = delta;
        if let Some(id) = id {
            self.id = id;
        }
        if let Some(call_type) = call_type {
            self.call_type = call_type;
        }
        if let Some(function) = function {
            if let Some(name) = function.name {
                self.name.append(name.as_str());
            }
            if let Some(arguments) = function.arguments {
                self.arguments.append(arguments.as_str());
            }
        }
    }

    /// The assembled tool call, if it has a name. A missing id is replaced by `fresh_id`, a
    /// missing type by `function`.
    pub fn into_chat_tool_call(self, fresh_id: String) -> (call: Option<ChatToolCall>)
        ensures
            call is None <==> self@.name.len() == 0,
            call matches Some(c) ==> {
                &&& c@.name == self@.name
                &&& c@.arguments == self@.arguments
                &&& c@.call_type == (if self@.call_type.len() == 0 {
                    "function"@
                } else {
                    self@.call_type
                })
                &&& c@.id == (if self@.id.len() == 0 {
                    fresh_id@
                } else {
                    self@.id
                })
            },
    {
        if self.name.as_str().is_empty() {
            return None;
        }
        let id = if self.id.as_str().is_empty() {
            fresh_id
        } else {
            self.id
        };
        let call_type = if self.call_type.as_str().is_empty() {
            "function".to_owned()
        } else {
            self.call_type
        };
        Some(
            ChatToolCall {
                id,
                call_type,
                function: ChatToolCallFunction { name: self.name, arguments: self.arguments },
            },
        )
    }
}

/// A shell command as the agent protocol describes it.
pub struct RunShellCommandView {
    pub command: Seq<char>,
    pub is_read_only: bool,
    pub uses_pager: bool,
    pub is_risky: bool,
    pub risk_category: RiskCategory,
}

/// The risk category of a command: read-only commands are read-only, else risky ones risky,
/// else a nontrivial local change.
pub open spec fn risk_category_of(is_read_only: bool, is_risky: bool) -> RiskCategory {
    if is_read_only {
        RiskCategory::ReadOnly
    } else if is_risky {
        RiskCategory::Risky
    } else {
        RiskCategory::NontrivialLocalChange
    }
}

/// The shell command that the members read from a tool call's arguments ask for, if the
/// command is not blank. The command is trimmed; a missing `is_read_only` or `uses_pager` is
/// false, a missing `is_risky` is the negation of `is_read_only`.
pub open spec fn shell_command_from_members(
    command: Option<Seq<char>>,
    is_read_only: Option<bool>,
    is_risky: Option<bool>,
    uses_pager: Option<bool>,
) -> Option<RunShellCommandView> {
    let command = trim_seq(
        match command {
            Some(c) => c,
            None => Seq::empty(),
        },
    );
    let is_read_only = match is_read_only {
        Some(b) => b,
        None => false,
    };
    let is_risky = match is_risky {
        Some(b) => b,
        None => !is_read_only,
    };
    let uses_pager = match uses_pager {
        Some(b) => b,
        None => false,
    };
    if command.len() == 0 {
        None
    } else {
        Some(
            RunShellCommandView {
                command,
                is_read_only,
                uses_pager,
                is_risky,
                risk_category: risk_category_of(is_read_only, is_risky),
            },
        )
    }
}

/// The shell command that a chat tool call asks for, if it calls the shell command tool with a
/// command that is not blank, from the members of its JSON arguments.
pub open spec fn run_shell_command_of(call: ChatToolCallView) -> Option<RunShellCommandView> {
    if call.name != RUN_SHELL_COMMAND_TOOL_NAME@ {
        None
    } else {
        shell_command_from_members(
            json_member_str(call.arguments, "command"@),
            json_member_bool(call.arguments, "is_read_only"@),
            json_member_bool(call.arguments, "is_risky"@),
            json_member_bool(call.arguments, "uses_pager"@),
        )
    }
}

/// The contents of a shell command of the agent protocol.
pub open spec fn run_shell_command_view(c: RunShellCommand) -> RunShellCommandView {
    RunShellCommandView {
        command: c.command@,
        is_read_only: c.is_read_only,
        uses_pager: c.uses_pager,
        is_risky: c.is_risky,
        risk_category: c.risk_category,
    }
}

/// The shell command that the members read from a tool call's arguments ask for, or `None`
/// when the command is missing or blank.
pub fn run_shell_command_from_members(
    command: Option<String>,
    is_read_only: Option<bool>,
    is_risky: Option<bool>,
    uses_pager: Option<bool>,
) -> (res: Option<RunShellCommand>)
    ensures
        match res {
            Some(c) => shell_command_from_members(
                opt_string_view(command),
                is_read_only,
                is_risky,
                uses_pager,
            ) == Some(run_shell_command_view(c)),
            None => shell_command_from_members(
                opt_string_view(command),
                is_read_only,
                is_risky,
                uses_pager,
            ) is None,
        },
        res is Some <==> trim_seq(or_empty(opt_string_view(command))).len() > 0,
        res matches Some(c) ==> {
            &&& c.command@ == trim_seq(or_empty(opt_string_view(command)))
            &&& c.is_read_only == (is_read_only == Some(true))
            &&& c.is_risky == match is_risky {
                Some(b) => b,
                None => !c.is_read_only,
            }
            &&& c.uses_pager == (uses_pager == Some(true))
            &&& (c.is_read_only ==> c.risk_category == RiskCategory::ReadOnly)
            &&& (!c.is_read_only && c.is_risky ==> c.risk_category == RiskCategory::Risky)
            &&& (!c.is_read_only && !c.is_risky ==> c.risk_category
                == RiskCategory::NontrivialLocalChange)
        },
{
    let raw_command = match command {
        Some(c) => c,
        None => String::new(),
    };
    let command = trim(raw_command.as_str()).to_owned();
    if command.as_str().is_empty() {
        return None;
    }
    let is_read_only = match is_read_only {
        Some(b) => b,
        None => false,
    };
    let is_risky = match is_risky {
        Some(b) => b,
        None => !is_read_only,
    };
    let uses_pager = match uses_pager {
        Some(b) => b,
        None => false,
    };
    let risk_category = if is_read_only {
        RiskCategory::ReadOnly
    } else if is_risky {
        RiskCategory::Risky
    } else {
        RiskCategory::NontrivialLocalChange
    };
    Some(RunShellCommand { command, is_read_only, uses_pager, is_risky, risk_category })
}

/// A shell command read from a tool call is judged read-only whenever it says it only reads,
/// whatever it says of its risk; otherwise risky when it says so (or says nothing), else a
/// nontrivial local change. A missing read-only or pager flag counts as false.
pub proof fn lemma_shell_command_risk(call: ChatToolCallView)
    ensures
        run_shell_command_of(call) matches Some(c) ==> {
            &&& c.is_read_only == (json_member_bool(call.arguments, "is_read_only"@) == Some(true))
            &&& c.uses_pager == (json_member_bool(call.arguments, "uses_pager"@) == Some(true))
            &&& (c.is_read_only ==> c.risk_category == RiskCategory::ReadOnly)
            &&& (!c.is_read_only && c.is_risky ==> c.risk_category == RiskCategory::Risky)
            &&& (!c.is_read_only && !c.is_risky ==> c.risk_category
                == RiskCategory::NontrivialLocalChange)
            &&& (json_member_bool(call.arguments, "is_risky"@) is None ==> c.is_risky == !c.is_read_only)
        },
{
}

/// Whether a message of a task is the tool call `call_id` for the shell command `command`.
pub open spec fn is_shell_tool_call_message(
    body: Option<MessageBody>,
    call_id: Seq<char>,
    command: RunShellCommandView,
) -> bool {
    match body {
        Some(MessageBody::ToolCall(tc)) => {
            &&& tc.tool_call_id@ == call_id
            &&& match tc.tool {
                Some(Tool::RunShellCommand(c)) => {
                    &&& c.command@ == command.command
                    &&& c.is_read_only == command.is_read_only
                    &&& c.uses_pager == command.uses_pager
                    &&& c.is_risky == command.is_risky
                    &&& c.risk_category == command.risk_category
                },
                _ => false,
            }
        },
        _ => false,
    }
}

/// The message of the agent protocol for a chat tool call, with the given message id and
/// time: a tool call message for the shell command that the call asks for, or nothing when it
/// asks for none.
pub fn tool_call_message_from_chat(
    tool_call: ChatToolCall,
    task_id: &str,
    request_id: &str,
    message_id: String,
    timestamp: Timestamp,
) -> (message: Option<Message>)
    ensures
        message is Some <==> run_shell_command_of(tool_call@) is Some,
        message matches Some(m) ==> {
            &&& m.id@ == message_id@
            &&& m.task_id@ == task_id@
            &&& m.request_id@ == request_id@
            &&& m.timestamp == Some(timestamp)
            &&& m.server_message_data@.len() == 0
            &&& is_shell_tool_call_message(
                m.message,
                tool_call@.id,
                run_shell_command_of(tool_call@).unwrap(),
            )
        },
{
    if !crate::text::str_eq(tool_call.function.name.as_str(), RUN_SHELL_COMMAND_TOOL_NAME) {
        return None;
    }
    let arguments = tool_call.function.arguments.as_str();
    let command = read_json_member_str(arguments, "command");
    let is_read_only = read_json_member_bool(arguments, "is_read_only");
    let is_risky = read_json_member_bool(arguments, "is_risky");
    let uses_pager = read_json_member_bool(arguments, "uses_pager");
    match run_shell_command_from_members(command, is_read_only, is_risky, uses_pager) {
        None => None,
        Some(shell_command) => Some(
            Message {
                id: message_id,
                task_id: task_id.to_owned(),
                request_id: request_id.to_owned(),
                timestamp: Some(timestamp),
                server_message_data: String::new(),
                message: Some(
                    MessageBody::ToolCall(
                        ToolCall {
                            tool_call_id: tool_call.id,
                            tool: Some(Tool::RunShellCommand(shell_command)),
                        },
                    ),
                ),
            },
        ),
    }
}


/// Whether reading the members of `arguments` gives back the command and flags of the shell
/// command that `tool_call` asks for.
pub open spec fn shell_arguments_read_back(arguments: Seq<char>, tool_call: ToolCall) -> bool {
    match tool_call.tool {
        Some(Tool::RunShellCommand(cmd)) => {
            &&& json_member_str(arguments, "command"@) == Some(cmd.command@)
            &&& json_member_bool(arguments, "is_read_only"@) == Some(cmd.is_read_only)
            &&& json_member_bool(arguments, "is_risky"@) == Some(cmd.is_risky)
            &&& json_member_bool(arguments, "uses_pager"@) == Some(cmd.uses_pager)
        },
        _ => true,
    }
}

/// A shell command tool call of the agent, sent to the model in the chat form and read back
/// from it, asks for the same command with the same flags, when its command is not blank and
/// has no surrounding whitespace; the risk category is recomputed from the flags.
/// (`chat_tool_call_from_api` guarantees the read-back of the arguments it writes.)
pub proof fn lemma_shell_tool_call_round_trip(tool_call: ToolCall, call: ChatToolCallView)
    requires
        chat_tool_call_of(tool_call) == Some(call),
        shell_arguments_read_back(call.arguments, tool_call),
        tool_call.tool matches Some(Tool::RunShellCommand(cmd)) && cmd.command@.len() > 0
            && trim_seq(cmd.command@) == cmd.command@,
    ensures
        tool_call.tool matches Some(Tool::RunShellCommand(cmd)) && run_shell_command_of(call)
            == Some(
            RunShellCommandView {
                command: cmd.command@,
                is_read_only: cmd.is_read_only,
                uses_pager: cmd.uses_pager,
                is_risky: cmd.is_risky,
                risk_category: risk_category_of(cmd.is_read_only, cmd.is_risky),
            },
        ),
{
}

} // verus!
