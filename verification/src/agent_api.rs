use vstd::prelude::*;

verus! {

// The parts of the multi-agent wire protocol that the local provider reads and writes.

/// A point in time: whole seconds since the Unix epoch and the nanoseconds past them.
#[derive(Clone, Copy, Debug, PartialEq, Eq, Structural)]
pub struct Timestamp {
    pub seconds: i64,
    pub nanos: i32,
}

/// The field paths that an update touches.
#[derive(Debug)]
pub struct FieldMask {
    pub paths: Vec<String>,
}

/// How risky a shell command is judged to be.
#[derive(Clone, Copy, Debug, PartialEq, Eq, Structural)]
pub enum RiskCategory {
    Unspecified,
    ReadOnly,
    NontrivialLocalChange,
    Risky,
}

/// A request to run a shell command.
#[derive(Debug)]
pub struct RunShellCommand {
    pub command: String,
    pub is_read_only: bool,
    pub uses_pager: bool,
    pub is_risky: bool,
    pub risk_category: RiskCategory,
}

/// The tool that a tool call invokes.
#[derive(Debug)]
pub enum Tool {
    RunShellCommand(RunShellCommand),
    /// Any tool that the local provider does not handle.
    Other,
}

/// A tool call made by the agent.
#[derive(Debug)]
pub struct ToolCall {
    pub tool_call_id: String,
    pub tool: Option<Tool>,
}

/// How a shell command ended, or where it stands.
#[derive(Debug)]
pub enum RunShellCommandOutcome {
    CommandFinished { exit_code: i32, output: String },
    LongRunningCommandSnapshot { output: String },
    PermissionDenied,
}

/// The result of a shell command tool call.
#[derive(Debug)]
pub struct RunShellCommandResult {
    pub command: String,
    pub result: Option<RunShellCommandOutcome>,
}

/// The result that a tool call produced.
#[derive(Debug)]
pub enum ToolCallOutcome {
    RunShellCommand(RunShellCommandResult),
    /// The result of any tool that the local provider does not handle.
    Other,
}

/// The result of a tool call.
#[derive(Debug)]
pub struct ToolCallResult {
    pub tool_call_id: String,
    pub result: Option<ToolCallOutcome>,
}

/// What a message of a task carries.
#[derive(Debug)]
pub enum MessageBody {
    UserQuery { query: String },
    AgentOutput { text: String },
    AgentReasoning { reasoning: String },
    ToolCall(ToolCall),
    ToolCallResult(ToolCallResult),
    /// Any other kind of message.
    Other,
}

/// A message of a task.
#[derive(Debug)]
pub struct Message {
    pub id: String,
    pub task_id: String,
    pub request_id: String,
    pub timestamp: Option<Timestamp>,
    pub server_message_data: String,
    pub message: Option<MessageBody>,
}

/// A task of a conversation, with its messages in order.
#[derive(Debug)]
pub struct Task {
    pub id: String,
    pub description: String,
    pub messages: Vec<Message>,
    pub summary: String,
    pub server_data: String,
}

/// An action that the client applies to its conversation state.
#[derive(Debug)]
pub enum ClientAction {
    CreateTask { task: Task },
    AddMessagesToTask { task_id: String, messages: Vec<Message> },
    AppendToMessageContent { task_id: String, message: Message, mask: FieldMask },
}

/// Why a response stream finished.
#[derive(Clone, Copy, Debug, PartialEq, Eq, Structural)]
pub enum FinishReason {
    Done,
}

/// An event of a response stream.
#[derive(Debug)]
pub enum ResponseEvent {
    Init { conversation_id: String, request_id: String, run_id: String },
    ClientActions { actions: Vec<ClientAction> },
    Finished { reason: Option<FinishReason> },
}

/// The result of an action that the client ran for the agent, as text.
#[derive(Debug)]
pub struct ActionResult {
    pub id: String,
    pub result: String,
}

/// An input of an agent request.
#[derive(Debug)]
pub enum AIAgentInput {
    UserQuery { query: String },
    ActionResult { result: ActionResult },
    /// Any other kind of input.
    Other,
}

/// The parts of an agent request that the local provider reads.
#[derive(Debug)]
pub struct RequestParams {
    pub input: Vec<AIAgentInput>,
    pub tasks: Vec<Task>,
    pub conversation_token: Option<String>,
    pub root_task_id: Option<String>,
}

} // verus!
