use vstd::prelude::*;

use crate::agent_api::{
    ClientAction, FieldMask, FinishReason, Message, MessageBody, RequestParams, ResponseEvent,
    Task, Timestamp,
};
use crate::local_provider::{
    build_chat_messages, chat_messages_of, chat_tools, chat_views, is_shell_tool_call_message,
    pending_after_delta, run_shell_command_of, tool_call_message_from_chat,
    ChatMessage, ChatTool, ChatToolCallDelta, ChatToolCallView, LocalProviderConfig,
    PendingToolCall, PendingToolCallView, RunShellCommandView, AGENT_OUTPUT_APPEND_MASK_PATH,
    RUN_SHELL_COMMAND_DESCRIPTION, RUN_SHELL_COMMAND_PARAMETERS_SCHEMA,
    RUN_SHELL_COMMAND_TOOL_NAME,
};
use crate::text::{
    chars_of, is_whitespace, lemma_trim_keeps_trimmed_text,
    lemma_trim_removes_only_surrounding_whitespace, seq_strip_prefix, str_eq, strip_prefix, trim,
    trim_seq,
};

verus! {

/// The change that one streamed chunk carries.
#[derive(Debug)]
pub struct ChatDelta {
    pub content: Option<String>,
    pub reasoning_content: Option<String>,
    pub tool_calls: Option<Vec<ChatToolCallDelta>>,
}

/// One choice of a streamed chunk.
#[derive(Debug)]
pub struct ChatChunkChoice {
    pub delta: ChatDelta,
    pub finish_reason: Option<String>,
}

/// One chunk of an OpenAI-compatible streaming chat completion.
#[derive(Debug)]
pub struct ChatCompletionChunk {
    pub choices: Vec<ChatChunkChoice>,
}

/// An OpenAI-compatible chat completion request.
#[derive(Debug)]
pub struct ChatCompletionRequest {
    pub model: String,
    pub messages: Vec<ChatMessage>,
    pub stream: bool,
    pub tools: Vec<ChatTool>,
}

/// Why a request cannot be sent to the local provider.
#[derive(Debug, Clone, Copy, PartialEq, Eq, Structural)]
pub enum LocalProviderError {
    /// The request holds nothing to send beyond the system prompt.
    NoChatMessages,
}

impl LocalProviderError {
    /// The error's message.
    pub fn message(&self) -> (text: &'static str)
        ensures
            text@ == "No local provider chat messages found in request"@,
    {
        "No local provider chat messages found in request"
    }
}

/// Everything needed to send a request to the local provider and to label its response.
#[derive(Debug)]
pub struct LocalRequest {
    pub url: String,
    pub authorization: String,
    pub body: ChatCompletionRequest,
    pub conversation_id: String,
    pub request_id: String,
    pub run_id: String,
    pub task_id: String,
}

/// The number of trailing `/` of `s`.
pub open spec fn trailing_slashes(s: Seq<char>) -> nat
    decreases s.len(),
{
    if s.len() > 0 && s.last() == '/' {
        1 + trailing_slashes(s.drop_last())
    } else {
        0
    }
}

/// `s` without its trailing `/`.
pub open spec fn trim_trailing_slashes(s: Seq<char>) -> Seq<char> {
    s.subrange(0, s.len() - trailing_slashes(s))
}

proof fn lemma_trailing_slashes(s: Seq<char>, k: int)
    requires
        0 <= k <= s.len(),
        forall|j: int| k <= j < s.len() ==> #[trigger] s[j] == '/',
        k == 0 || s[k - 1] != '/',
    ensures
        trailing_slashes(s) == s.len() - k,
    decreases s.len() - k,
{
    if k < s.len() {
        assert forall|j: int| k <= j < s.drop_last().len() implies #[trigger] s.drop_last()[j] == '/' by {
            assert(s.drop_last()[j] == s[j]);
        }
        if k > 0 {
            assert(s.drop_last()[k - 1] == s[k - 1]);
        }
        lemma_trailing_slashes(s.drop_last(), k);
    }
}

proof fn lemma_trailing_slashes_bounds(s: Seq<char>)
    ensures
        trailing_slashes(s) <= s.len(),
        forall|j: int| s.len() - trailing_slashes(s) <= j < s.len() ==> #[trigger] s[j] == '/',
        trailing_slashes(s) == s.len() || s[s.len() - trailing_slashes(s) - 1] != '/',
    decreases s.len(),
{
    if s.len() > 0 && s.last() == '/' {
        let t = s.drop_last();
        lemma_trailing_slashes_bounds(t);
        assert forall|j: int| s.len() - trailing_slashes(s) <= j < s.len() implies #[trigger] s[j] == '/' by {
            if j < s.len() - 1 {
                assert(s[j] == t[j]);
            }
        }
        if trailing_slashes(s) < s.len() {
            assert(s[s.len() - trailing_slashes(s) - 1] == t[t.len() - trailing_slashes(t) - 1]);
        }
    }
}

/// Trimming the slashes keeps the text up to its last character that is not `/`: what is cut
/// off is all `/`, and what is kept does not end in `/`.
pub proof fn lemma_only_trailing_slashes_removed(s: Seq<char>)
    ensures
        trim_trailing_slashes(s).len() <= s.len(),
        s.subrange(0, trim_trailing_slashes(s).len() as int) == trim_trailing_slashes(s),
        forall|j: int| trim_trailing_slashes(s).len() <= j < s.len() ==> #[trigger] s[j] == '/',
        trim_trailing_slashes(s).len() == 0 || trim_trailing_slashes(s).last() != '/',
{
    lemma_trailing_slashes_bounds(s);
}

/// `s` without its trailing `/`, as `str::trim_end_matches('/')` gives it.
pub fn trim_end_slashes(s: &str) -> (res: &str)
    ensures
        res@ == trim_trailing_slashes(s@),
{
    let cs = chars_of(s);
    let n = cs.len();
    let mut end = n;
    while end > 0 && cs[end - 1] == '/'
        invariant
            n == cs@.len(),
            end <= n,
            forall|j: int| end <= j < n ==> #[trigger] cs@[j] == '/',
        decreases end,
    {
        end = end - 1;
    }
    proof {
        lemma_trailing_slashes(cs@, end as int);
    }
    s.substring_char(0, end)
}

/// The endpoint that chat completions are posted to.
pub open spec fn chat_completions_url(base_url: Seq<char>) -> Seq<char> {
    trim_trailing_slashes(base_url) + "/chat/completions"@
}

/// The value of the `Authorization` header for an API key.
pub open spec fn bearer_authorization(api_key: Seq<char>) -> Seq<char> {
    "Bearer "@ + api_key
}

/// Freshly drawn identifiers for a request: the caller draws each as a random UUID.
#[derive(Debug)]
pub struct FreshRequestIds {
    /// Used when the request has no conversation token.
    pub conversation_id: String,
    pub request_id: String,
    pub run_id: String,
    /// Used when the request has no root task id.
    pub task_id: String,
}

/// Prepares a request to the local provider: the conversation for the model, the endpoint, the
/// credentials, and the identifiers that label the response. The conversation token and root
/// task id of the request are kept; missing ones, and the request and run ids, are taken from
/// `fresh`.
pub fn prepare_local_request(
    config: &LocalProviderConfig,
    params: &RequestParams,
    fresh: FreshRequestIds,
) -> (res: Result<LocalRequest, LocalProviderError>)
    ensures
        res is Err <==> chat_messages_of(*params).len() <= 1,
        res matches Err(e) ==> e == LocalProviderError::NoChatMessages,
        res matches Ok(r) ==> {
            &&& r.url@ == chat_completions_url(config.base_url@)
            &&& r.authorization@ == bearer_authorization(config.api_key@)
            &&& r.body.model@ == config.model@
            &&& chat_views(r.body.messages@) == chat_messages_of(*params)
            &&& r.body.stream
            &&& r.body.tools@.len() == 1
            &&& r.body.tools@[0].tool_type@ == "function"@
            &&& r.body.tools@[0].function.name@ == RUN_SHELL_COMMAND_TOOL_NAME@
            &&& r.body.tools@[0].function.description@ == RUN_SHELL_COMMAND_DESCRIPTION@
            &&& r.body.tools@[0].function.parameters@ == RUN_SHELL_COMMAND_PARAMETERS_SCHEMA@
            &&& r.conversation_id@ == match params.conversation_token {
                Some(t) => t@,
                None => fresh.conversation_id@,
            }
            &&& r.request_id@ == fresh.request_id@
            &&& r.run_id@ == fresh.run_id@
            &&& r.task_id@ == match params.root_task_id {
                Some(t) => t@,
                None => fresh.task_id@,
            }
        },
{
    let messages = build_chat_messages(params);
    if messages.len() <= 1 {
        return Err(LocalProviderError::NoChatMessages);
    }
    let FreshRequestIds { conversation_id: fresh_conversation_id, request_id, run_id, task_id: fresh_task_id } = fresh;
    let conversation_id = match &params.conversation_token {
        Some(token) => token.clone(),
        None => fresh_conversation_id,
    };
    let task_id = match &params.root_task_id {
        Some(id) => id.clone(),
        None => fresh_task_id,
    };
    let mut url = trim_end_slashes(config.base_url.as_str()).to_owned();
    url.append("/chat/completions");
    let mut authorization = "Bearer ".to_owned();
    authorization.append(config.api_key.as_str());
    Ok(
        LocalRequest {
            url,
            authorization,
            body: ChatCompletionRequest {
                model: config.model.clone(),
                messages,
                stream: true,
                tools: chat_tools(),
            },
            conversation_id,
            request_id,
            run_id,
            task_id,
        },
    )
}

/// The event that opens the response stream.
pub fn init_event(request: &LocalRequest) -> (event: ResponseEvent)
    ensures
        event matches ResponseEvent::Init { conversation_id, request_id, run_id } && conversation_id@
            == request.conversation_id@ && request_id@ == request.request_id@ && run_id@
            == request.run_id@,
{
    ResponseEvent::Init {
        conversation_id: request.conversation_id.clone(),
        request_id: request.request_id.clone(),
        run_id: request.run_id.clone(),
    }
}

/// One event with one client action.
fn single_action_event(action: ClientAction) -> (event: ResponseEvent)
    ensures
        event matches ResponseEvent::ClientActions { actions } && actions@ == seq![action],
{
    let mut actions = Vec::new();
    actions.push(action);
    ResponseEvent::ClientActions { actions }
}

/// How far a line of the server-sent event stream takes the response.
#[derive(Debug)]
pub enum SseLine {
    /// A blank line, a comment, or a field other than `data`.
    Skip,
    /// The `[DONE]` marker: the response is complete.
    Done,
    /// A data payload, trimmed.
    Data(String),
}

/// What a line of the server-sent event stream means, given the line trimmed.
pub open spec fn sse_line_kind(line: Seq<char>) -> Option<Option<Seq<char>>> {
    let line = trim_seq(line);
    if line.len() == 0 || line[0] == ':' {
        None
    } else {
        match seq_strip_prefix(line, "data: "@) {
            Some(data) => if trim_seq(data) == "[DONE]"@ {
                Some(None)
            } else {
                Some(Some(trim_seq(data)))
            },
            None => None,
        }
    }
}

/// Classifies a line of the server-sent event stream: `None` to skip it, `Some(None)` for the
/// end marker, `Some(Some(data))` for a data payload.
pub fn classify_sse_line(line: &str) -> (kind: SseLine)
    ensures
        match kind {
            SseLine::Skip => sse_line_kind(line@) is None,
            SseLine::Done => sse_line_kind(line@) == Some(None::<Seq<char>>),
            SseLine::Data(d) => sse_line_kind(line@) == Some(Some(d@)),
        },
{
    let line = trim(line);
    if line.is_empty() {
        return SseLine::Skip;
    }
    if line.get_char(0) == ':' {
        return SseLine::Skip;
    }
    match strip_prefix(line, "data: ") {
        Some(data) => {
            let data = trim(data);
            if str_eq(data, "[DONE]") {
                SseLine::Done
            } else {
                SseLine::Data(data.to_owned())
            }
        },
        None => SseLine::Skip,
    }
}

/// Whether a byte continues a UTF-8 sequence (`10xxxxxx`).
pub open spec fn is_utf8_continuation(b: u8) -> bool {
    0x80 <= b && b < 0xC0
}

/// The length of the UTF-8 sequence that a byte starts, by its leading bits, or 0 for a byte
/// that starts none.
pub open spec fn utf8_sequence_len(b: u8) -> int {
    if b < 0x80 {
        1
    } else if 0xC0 <= b && b < 0xE0 {
        2
    } else if 0xE0 <= b && b < 0xF0 {
        3
    } else if 0xF0 <= b && b < 0xF8 {
        4
    } else {
        0
    }
}

/// How many leading bytes of `bytes` can be decoded now: all of them, unless they end in the
/// start of a UTF-8 sequence that the bytes received so far do not complete (a leading byte
/// followed only by continuation bytes, fewer than the sequence needs), which is held back
/// until the rest arrives.
pub open spec fn utf8_complete_prefix_len(bytes: Seq<u8>) -> int {
    let n = bytes.len() as int;
    if n >= 1 && !is_utf8_continuation(bytes[n - 1]) {
        if utf8_sequence_len(bytes[n - 1]) > 1 { n - 1 } else { n }
    } else if n >= 2 && !is_utf8_continuation(bytes[n - 2]) {
        if utf8_sequence_len(bytes[n - 2]) > 2 { n - 2 } else { n }
    } else if n >= 3 && !is_utf8_continuation(bytes[n - 3]) {
        if utf8_sequence_len(bytes[n - 3]) > 3 { n - 3 } else { n }
    } else {
        n
    }
}

/// Only an incomplete start of a UTF-8 sequence is held back: at most three bytes, a leading
/// byte whose sequence is longer than what follows it, then continuation bytes only.
pub proof fn lemma_only_incomplete_sequences_wait(bytes: Seq<u8>)
    ensures
        0 <= bytes.len() - utf8_complete_prefix_len(bytes) <= 3,
        utf8_complete_prefix_len(bytes) <= bytes.len(),
        utf8_complete_prefix_len(bytes) < bytes.len() ==> {
            let k = utf8_complete_prefix_len(bytes);
            &&& 0 <= k
            &&& utf8_sequence_len(bytes[k]) > bytes.len() - k
            &&& forall|j: int| k < j < bytes.len() ==> is_utf8_continuation(#[trigger] bytes[j])
        },
{
}

fn sequence_len(b: u8) -> (len: usize)
    ensures
        len == utf8_sequence_len(b),
{
    if b < 0x80 {
        1
    } else if 0xC0 <= b && b < 0xE0 {
        2
    } else if 0xE0 <= b && b < 0xF0 {
        3
    } else if 0xF0 <= b && b < 0xF8 {
        4
    } else {
        0
    }
}

/// How many leading bytes of `bytes` can be decoded now; the rest, the incomplete start of a
/// UTF-8 sequence, waits for the next bytes to arrive.
pub fn utf8_complete_prefix(bytes: &[u8]) -> (k: usize)
    ensures
        k == utf8_complete_prefix_len(bytes@),
{
    let n = bytes.len();
    if n >= 1 && !(0x80 <= bytes[n - 1] && bytes[n - 1] < 0xC0) {
        if sequence_len(bytes[n - 1]) > 1 { n - 1 } else { n }
    } else if n >= 2 && !(0x80 <= bytes[n - 2] && bytes[n - 2] < 0xC0) {
        if sequence_len(bytes[n - 2]) > 2 { n - 2 } else { n }
    } else if n >= 3 && !(0x80 <= bytes[n - 3] && bytes[n - 3] < 0xC0) {
        if sequence_len(bytes[n - 3]) > 3 { n - 3 } else { n }
    } else {
        n
    }
}

/// A `data: ` line carries its payload as it is, when the payload has no surrounding
/// whitespace; the payload `[DONE]` ends the response instead.
pub proof fn lemma_data_lines_carry_their_payload(payload: Seq<char>)
    requires
        payload.len() > 0,
        !is_whitespace(payload[0]),
        !is_whitespace(payload.last()),
    ensures
        sse_line_kind("data: "@ + payload) == if payload == "[DONE]"@ {
            Some(None::<Seq<char>>)
        } else {
            Some(Some(payload))
        },
{
    reveal_strlit("data: ");
    let line = "data: "@ + payload;
    assert(line[0] == 'd');
    assert(line.last() == payload.last());
    lemma_trim_keeps_trimmed_text(line);
    lemma_trim_keeps_trimmed_text(payload);
    assert(line.subrange(0, 6) =~= "data: "@);
    assert(line.subrange(6, line.len() as int) =~= payload);
}

/// A line whose first character is `:` is a comment and is skipped.
pub proof fn lemma_comment_lines_are_skipped(rest: Seq<char>)
    ensures
        sse_line_kind(seq![':'] + rest) is None,
{
    let line = seq![':'] + rest;
    assert(line[0] == ':');
    lemma_trim_removes_only_surrounding_whitespace(line);
    let (a, b) = choose|a: int, b: int|
        {
            &&& 0 <= a <= b <= line.len()
            &&& trim_seq(line) == line.subrange(a, b)
            &&& forall|j: int| 0 <= j < a ==> is_whitespace(#[trigger] line[j])
            &&& forall|j: int| b <= j < line.len() ==> is_whitespace(#[trigger] line[j])
            &&& (a < b ==> !is_whitespace(line[a]) && !is_whitespace(line[b - 1]))
        };
    assert(!is_whitespace(line[0]));
    if a > 0 {
        assert(is_whitespace(line[0]));
    }
    if b == 0 {
        assert(is_whitespace(line[0]));
    }
    assert(trim_seq(line)[0] == ':');
}

/// The index of the first line feed of `s`, or its length when it has none.
pub open spec fn line_feed_index(s: Seq<char>) -> int
    decreases s.len(),
{
    if s.len() == 0 {
        0
    } else if s[0] == '\n' {
        0
    } else {
        1 + line_feed_index(s.drop_first())
    }
}

proof fn lemma_line_feed_index(s: Seq<char>, k: int)
    requires
        0 <= k <= s.len(),
        forall|j: int| 0 <= j < k ==> #[trigger] s[j] != '\n',
        k == s.len() || s[k] == '\n',
    ensures
        line_feed_index(s) == k,
    decreases k,
{
    if k > 0 {
        assert forall|j: int| 0 <= j < k - 1 implies #[trigger] s.drop_first()[j] != '\n' by {
            assert(s.drop_first()[j] == s[j + 1]);
        }
        if k < s.len() {
            assert(s.drop_first()[k - 1] == s[k]);
        }
        lemma_line_feed_index(s.drop_first(), k - 1);
    }
}

proof fn lemma_line_feed_index_bounds(s: Seq<char>)
    ensures
        0 <= line_feed_index(s) <= s.len(),
        forall|j: int| 0 <= j < line_feed_index(s) ==> #[trigger] s[j] != '\n',
        line_feed_index(s) < s.len() ==> s[line_feed_index(s)] == '\n',
    decreases s.len(),
{
    if s.len() > 0 && s[0] != '\n' {
        let t = s.drop_first();
        lemma_line_feed_index_bounds(t);
        assert forall|j: int| 0 <= j < line_feed_index(s) implies #[trigger] s[j] != '\n' by {
            if j > 0 {
                assert(s[j] == t[j - 1]);
            }
        }
        if line_feed_index(s) < s.len() {
            assert(s[line_feed_index(s)] == t[line_feed_index(t)]);
        }
    }
}

/// The buffer is split at its first line feed and nothing is lost: a buffer with a line feed is
/// the line taken from it, the line feed, and the rest left in it; the line holds no line feed.
pub proof fn lemma_lines_split_at_first_line_feed(buffer: Seq<char>)
    requires
        line_feed_index(buffer) < buffer.len(),
    ensures
        buffer == buffer.subrange(0, line_feed_index(buffer)) + seq!['\n'] + buffer.subrange(
            line_feed_index(buffer) + 1,
            buffer.len() as int,
        ),
        !buffer.subrange(0, line_feed_index(buffer)).contains('\n'),
{
    lemma_line_feed_index_bounds(buffer);
    let k = line_feed_index(buffer);
    assert(buffer =~= buffer.subrange(0, k) + seq!['\n'] + buffer.subrange(k + 1, buffer.len() as int));
    assert forall|j: int| 0 <= j < k implies #[trigger] buffer.subrange(0, k)[j] != '\n' by {
        assert(buffer.subrange(0, k)[j] == buffer[j]);
    }
}

/// Where the network splits the text makes no difference: receiving two pieces one after the
/// other leaves the stream as receiving them at once does.
pub proof fn lemma_receiving_in_pieces(s: LocalStreamView, first: Seq<char>, second: Seq<char>)
    ensures
        stream_with_buffer(stream_with_buffer(s, s.buffer + first), s.buffer + first + second)
            == stream_with_buffer(s, s.buffer + (first + second)),
{
    assert(s.buffer + first + second =~= s.buffer + (first + second));
}

/// Whether a classification fits a line of the server-sent event stream.
pub open spec fn sse_line_fits(kind: SseLine, line: Seq<char>) -> bool {
    match kind {
        SseLine::Skip => sse_line_kind(line) is None,
        SseLine::Done => sse_line_kind(line) == Some(None::<Seq<char>>),
        SseLine::Data(d) => sse_line_kind(line) == Some(Some(d@)),
    }
}

/// Splits off and classifies the first line of `buffer`, if it holds a line feed; gives the
/// text after the line feed with it.
fn split_line(buffer: &String) -> (res: Option<(SseLine, String)>)
    ensures
        res is None <==> line_feed_index(buffer@) == buffer@.len(),
        res matches Some((kind, rest)) ==> {
            let k = line_feed_index(buffer@);
            &&& rest@ == buffer@.subrange(k + 1, buffer@.len() as int)
            &&& sse_line_fits(kind, buffer@.subrange(0, k))
        },
{
    let s = buffer.as_str();
    let cs = chars_of(s);
    let n = cs.len();
    let mut k: usize = 0;
    while k < n && cs[k] != '\n'
        invariant
            n == cs@.len(),
            k <= n,
            forall|j: int| 0 <= j < k ==> #[trigger] cs@[j] != '\n',
        decreases n - k,
    {
        k = k + 1;
    }
    proof {
        lemma_line_feed_index(cs@, k as int);
    }
    if k == n {
        None
    } else {
        let kind = classify_sse_line(s.substring_char(0, k));
        Some((kind, s.substring_char(k + 1, n).to_owned()))
    }
}

/// The state of a response stream from the local provider.
pub struct LocalStream {
    pub task_id: String,
    pub request_id: String,
    pub message_id: String,
    pub buffer: String,
    pub full_content: String,
    pub full_reasoning: String,
    pub pending_tool_calls: Vec<PendingToolCall>,
}

/// The contents of a response stream's state.
pub struct LocalStreamView {
    pub task_id: Seq<char>,
    pub request_id: Seq<char>,
    pub message_id: Seq<char>,
    pub buffer: Seq<char>,
    pub full_content: Seq<char>,
    pub full_reasoning: Seq<char>,
    pub pending_tool_calls: Seq<PendingToolCallView>,
}

/// The contents of a sequence of tool calls being assembled.
pub open spec fn pending_views(calls: Seq<PendingToolCall>) -> Seq<PendingToolCallView> {
    calls.map_values(|p: PendingToolCall| p@)
}

impl View for LocalStream {
    type V = LocalStreamView;

    open spec fn view(&self) -> LocalStreamView {
        LocalStreamView {
            task_id: self.task_id@,
            request_id: self.request_id@,
            message_id: self.message_id@,
            buffer: self.buffer@,
            full_content: self.full_content@,
            full_reasoning: self.full_reasoning@,
            pending_tool_calls: pending_views(self.pending_tool_calls@),
        }
    }
}

/// Whether an event tells the client to create the task `task_id`, with no messages.
pub open spec fn is_create_task_event(event: ResponseEvent, task_id: Seq<char>) -> bool {
    match event {
        ResponseEvent::ClientActions { actions } => actions@.len() == 1 && match actions@[0] {
            ClientAction::CreateTask { task } => task.id@ == task_id && task.messages@.len() == 0,
            _ => false,
        },
        _ => false,
    }
}

/// Whether an event adds to the task `task_id` the empty assistant message `message_id` that
/// the streamed text fills.
pub open spec fn is_initial_message_event(
    event: ResponseEvent,
    task_id: Seq<char>,
    request_id: Seq<char>,
    message_id: Seq<char>,
    timestamp: Timestamp,
) -> bool {
    match event {
        ResponseEvent::ClientActions { actions } => actions@.len() == 1 && match actions@[0] {
            ClientAction::AddMessagesToTask { task_id: t, messages } => {
                &&& t@ == task_id
                &&& messages@.len() == 1
                &&& messages@[0].id@ == message_id
                &&& messages@[0].task_id@ == task_id
                &&& messages@[0].request_id@ == request_id
                &&& messages@[0].timestamp == Some(timestamp)
                &&& match messages@[0].message {
                    Some(MessageBody::AgentOutput { text }) => text@.len() == 0,
                    _ => false,
                }
            },
            _ => false,
        },
        _ => false,
    }
}

/// A stream's state with another buffer.
pub open spec fn stream_with_buffer(s: LocalStreamView, buffer: Seq<char>) -> LocalStreamView {
    LocalStreamView { buffer, ..s }
}

/// A stream's state with other tool calls being assembled.
pub open spec fn stream_with_pending(
    s: LocalStreamView,
    pending_tool_calls: Seq<PendingToolCallView>,
) -> LocalStreamView {
    LocalStreamView { pending_tool_calls, ..s }
}

/// A tool call with nothing assembled yet.
pub open spec fn empty_pending() -> PendingToolCallView {
    PendingToolCallView {
        id: Seq::empty(),
        call_type: Seq::empty(),
        name: Seq::empty(),
        arguments: Seq::empty(),
    }
}

/// The tool calls being assembled after one more fragment: the list grows with empty calls up
/// to the fragment's index, and the fragment goes to the call at that index.
pub open spec fn pending_after_tool_delta(
    pending: Seq<PendingToolCallView>,
    delta: ChatToolCallDelta,
) -> Seq<PendingToolCallView> {
    let grown = if pending.len() <= delta.index {
        pending + Seq::new((delta.index + 1 - pending.len()) as nat, |i: int| empty_pending())
    } else {
        pending
    };
    grown.update(delta.index as int, pending_after_delta(grown[delta.index as int], delta))
}

/// The tool calls being assembled after a sequence of fragments.
pub open spec fn pending_after_tool_deltas(
    pending: Seq<PendingToolCallView>,
    deltas: Seq<ChatToolCallDelta>,
) -> Seq<PendingToolCallView>
    decreases deltas.len(),
{
    if deltas.len() == 0 {
        pending
    } else {
        pending_after_tool_delta(pending_after_tool_deltas(pending, deltas.drop_last()), deltas.last())
    }
}

/// Whether the tool call fragments that a chunk contributes each leave room for one more call
/// past their index. Only the first choice's fragments are assembled.
pub open spec fn tool_delta_indices_bounded(chunk: ChatCompletionChunk) -> bool {
    chunk.choices@.len() > 0 ==> match chunk.choices@[0].delta.tool_calls {
        Some(deltas) => forall|i: int| 0 <= i < deltas@.len() ==> #[trigger] deltas@[i].index < usize::MAX,
        None => true,
    }
}

/// Whether a parsed chunk can be applied: every tool call fragment that it contributes leaves
/// room for one more call past its index.
pub fn tool_call_indices_fit(chunk: &ChatCompletionChunk) -> (fits: bool)
    ensures
        fits == tool_delta_indices_bounded(*chunk),
{
    if chunk.choices.len() == 0 {
        return true;
    }
    let delta = &chunk.choices[0].delta;
    match &delta.tool_calls {
        None => true,
        Some(deltas) => {
            let n = deltas.len();
            for i in 0..n
                invariant
                    n == deltas@.len(),
                    chunk.choices@.len() > 0,
                    chunk.choices@[0].delta.tool_calls == Some(*deltas),
                    forall|j: int| 0 <= j < i ==> #[trigger] deltas@[j].index < usize::MAX,
            {
                if deltas[i].index == usize::MAX {
                    assert(!(deltas@[i as int].index < usize::MAX));
                    return false;
                }
            }
            true
        },
    }
}

/// The state after a parsed chunk: only the first choice counts. Its reasoning and text are
/// appended (empty text adds nothing) and its tool call fragments are assembled, whether or not
/// it carries text.
pub open spec fn stream_after_chunk(s: LocalStreamView, chunk: ChatCompletionChunk) -> LocalStreamView {
    if chunk.choices@.len() == 0 {
        s
    } else {
        let delta = chunk.choices@[0].delta;
        let full_reasoning = match delta.reasoning_content {
            Some(r) => s.full_reasoning + r@,
            None => s.full_reasoning,
        };
        let full_content = match delta.content {
            Some(c) => s.full_content + c@,
            None => s.full_content,
        };
        let pending = match delta.tool_calls {
            Some(deltas) => pending_after_tool_deltas(s.pending_tool_calls, deltas@),
            None => s.pending_tool_calls,
        };
        LocalStreamView {
            full_reasoning,
            full_content,
            pending_tool_calls: pending,
            ..s
        }
    }
}

/// The text of a chunk that is streamed to the client, if any: the first choice's text, when
/// it is not empty.
pub open spec fn chunk_text(chunk: ChatCompletionChunk) -> Option<Seq<char>> {
    if chunk.choices@.len() == 0 {
        None
    } else {
        match chunk.choices@[0].delta.content {
            Some(c) => if c@.len() > 0 {
                Some(c@)
            } else {
                None
            },
            None => None,
        }
    }
}

/// Whether an event appends `text` to the message `message_id` of the task `task_id`, issued
/// for the request `request_id`.
pub open spec fn is_append_event(
    event: ResponseEvent,
    task_id: Seq<char>,
    request_id: Seq<char>,
    message_id: Seq<char>,
    text: Seq<char>,
) -> bool {
    event matches ResponseEvent::ClientActions { actions } && actions@.len() == 1 && match actions@[0] {
        ClientAction::AppendToMessageContent { task_id: t, message, mask } => {
            &&& t@ == task_id
            &&& message.id@ == message_id
            &&& message.task_id@ == task_id
            &&& message.request_id@ == request_id
            &&& message.timestamp is None
            &&& message.message matches Some(MessageBody::AgentOutput { text: x }) && x@ == text
            &&& mask.paths@.len() == 1
            &&& mask.paths@[0]@ == AGENT_OUTPUT_APPEND_MASK_PATH@
        },
        _ => false,
    }
}

/// A shell command that an assembled tool call asks for, if any.
pub open spec fn command_of_pending(p: PendingToolCallView) -> Option<RunShellCommandView> {
    if p.name.len() == 0 {
        None
    } else {
        run_shell_command_of(
            ChatToolCallView { id: p.id, call_type: p.call_type, name: p.name, arguments: p.arguments },
        )
    }
}

/// The assembled tool calls that ask for a shell command, in order, each with its position
/// among the assembled calls and the command it asks for.
pub open spec fn pending_commands(pending: Seq<PendingToolCallView>) -> Seq<(int, PendingToolCallView, RunShellCommandView)>
    decreases pending.len(),
{
    if pending.len() == 0 {
        seq![]
    } else {
        match command_of_pending(pending.last()) {
            Some(c) => pending_commands(pending.drop_last()).push(
                (pending.len() - 1, pending.last(), c),
            ),
            None => pending_commands(pending.drop_last()),
        }
    }
}

/// The fresh identifiers that closing a response consumes: one for the reasoning message, then
/// two for each assembled call (the call's id when it has none, and its message's id).
pub open spec fn fresh_ids_for(s: LocalStreamView) -> int {
    (1 + 2 * s.pending_tool_calls.len()) as int
}

/// Whether a follow-up message reports the assembled tool call `p`, at position `j` among the
/// assembled calls, for the shell command `command`: its message id is `fresh[2j + 2]`, its
/// tool call id is `p`'s, or `fresh[2j + 1]` when `p` has none.
pub open spec fn is_followup_tool_call(
    m: Message,
    s: LocalStreamView,
    fresh: Seq<String>,
    timestamp: Timestamp,
    j: int,
    p: PendingToolCallView,
    command: RunShellCommandView,
) -> bool {
    &&& m.task_id@ == s.task_id
    &&& m.request_id@ == s.request_id
    &&& m.id@ == fresh[2 * j + 2]@
    &&& m.timestamp == Some(timestamp)
    &&& match m.message {
        Some(MessageBody::ToolCall(tc)) => {
            &&& tc.tool_call_id@ == (if p.id.len() > 0 {
                p.id
            } else {
                fresh[2 * j + 1]@
            })
            &&& is_shell_tool_call_message(m.message, tc.tool_call_id@, command)
        },
        _ => false,
    }
}

/// Whether a follow-up message reports the reasoning of the response, with the id `fresh[0]`.
pub open spec fn is_followup_reasoning(
    m: Message,
    s: LocalStreamView,
    fresh: Seq<String>,
    timestamp: Timestamp,
) -> bool {
    &&& m.task_id@ == s.task_id
    &&& m.request_id@ == s.request_id
    &&& m.id@ == fresh[0]@
    &&& m.timestamp == Some(timestamp)
    &&& match m.message {
        Some(MessageBody::AgentReasoning { reasoning: r }) => r@ == s.full_reasoning,
        _ => false,
    }
}

/// Whether `messages` are the follow-up messages of a finished response: its reasoning, if it
/// has any, then a tool call message for each assembled call that asks for a shell command, in
/// order.
pub open spec fn are_followups(
    messages: Seq<Message>,
    s: LocalStreamView,
    fresh: Seq<String>,
    timestamp: Timestamp,
) -> bool {
    let offset: int = if s.full_reasoning.len() > 0 { 1 } else { 0 };
    let commands = pending_commands(s.pending_tool_calls);
    &&& messages.len() == offset + commands.len()
    &&& (s.full_reasoning.len() > 0 ==> is_followup_reasoning(messages[0], s, fresh, timestamp))
    &&& forall|j: int|
        0 <= j < commands.len() ==> is_followup_tool_call(
            #[trigger] messages[offset + j],
            s,
            fresh,
            timestamp,
            commands[j].0,
            commands[j].1,
            commands[j].2,
        )
}

/// Whether `events` close a response: an event that adds the follow-up messages to the task, if
/// there are any, then the event that finishes the stream.
pub open spec fn are_closing_events(
    events: Seq<ResponseEvent>,
    s: LocalStreamView,
    fresh: Seq<String>,
    timestamp: Timestamp,
) -> bool {
    let last = events.last();
    &&& (last matches ResponseEvent::Finished { reason } && reason == Some(FinishReason::Done))
    &&& if s.full_reasoning.len() == 0 && pending_commands(s.pending_tool_calls).len() == 0 {
        events.len() == 1
    } else {
        &&& events.len() == 2
        &&& match events[0] {
            ResponseEvent::ClientActions { actions } => actions@.len() == 1 && match actions@[0] {
                ClientAction::AddMessagesToTask { task_id, messages } => task_id@ == s.task_id
                    && are_followups(messages@, s, fresh, timestamp),
                _ => false,
            },
            _ => false,
        }
    }
}

/// The state after a sequence of parsed chunks, applied in order.
pub open spec fn stream_after_chunks(s: LocalStreamView, chunks: Seq<ChatCompletionChunk>) -> LocalStreamView
    decreases chunks.len(),
{
    if chunks.len() == 0 {
        s
    } else {
        stream_after_chunk(stream_after_chunks(s, chunks.drop_last()), chunks.last())
    }
}

/// The text that a sequence of chunks streams to the client, in order.
pub open spec fn streamed_text(chunks: Seq<ChatCompletionChunk>) -> Seq<char>
    decreases chunks.len(),
{
    if chunks.len() == 0 {
        Seq::empty()
    } else {
        streamed_text(chunks.drop_last()) + match chunk_text(chunks.last()) {
            Some(t) => t,
            None => Seq::empty(),
        }
    }
}

/// The reasoning that a sequence of chunks carries, in order.
pub open spec fn chunks_reasoning(chunks: Seq<ChatCompletionChunk>) -> Seq<char>
    decreases chunks.len(),
{
    if chunks.len() == 0 {
        Seq::empty()
    } else {
        chunks_reasoning(chunks.drop_last()) + {
            let c = chunks.last();
            if c.choices@.len() > 0 && c.choices@[0].delta.reasoning_content is Some {
                c.choices@[0].delta.reasoning_content.unwrap()@
            } else {
                Seq::empty()
            }
        }
    }
}

/// The content of a chunk's first choice, as it came, if it has one.
pub open spec fn first_content(chunk: ChatCompletionChunk) -> Option<Seq<char>> {
    if chunk.choices@.len() > 0 {
        match chunk.choices@[0].delta.content {
            Some(c) => Some(c@),
            None => None,
        }
    } else {
        None
    }
}

/// The text that an event appends to a message, if it appends to one.
pub open spec fn appended_text(event: ResponseEvent) -> Option<Seq<char>> {
    match event {
        ResponseEvent::ClientActions { actions } => if actions@.len() == 1 {
            match actions@[0] {
                ClientAction::AppendToMessageContent { message, .. } => match message.message {
                    Some(MessageBody::AgentOutput { text }) => Some(text@),
                    _ => None,
                },
                _ => None,
            }
        } else {
            None
        },
        _ => None,
    }
}

/// The raw text deltas of a sequence of chunks, in order: each chunk's first choice's content,
/// as it came.
pub open spec fn raw_contents(chunks: Seq<ChatCompletionChunk>) -> Seq<char>
    decreases chunks.len(),
{
    if chunks.len() == 0 {
        Seq::empty()
    } else {
        let c = chunks.last();
        raw_contents(chunks.drop_last()) + match first_content(c) {
            Some(t) => t,
            None => Seq::empty(),
        }
    }
}

/// The client is streamed each content delta exactly as it came, nothing trimmed, added or
/// dropped: a chunk streams its first choice's content whenever that content is not empty,
/// and the texts streamed over a sequence of chunks are the chunks' raw contents joined, which
/// is also what the message's full text grows by.
pub proof fn lemma_content_streamed_verbatim(s: LocalStreamView, chunks: Seq<ChatCompletionChunk>)
    ensures
        forall|k: int|
            0 <= k < chunks.len() ==> chunk_text(#[trigger] chunks[k]) == match first_content(chunks[k]) {
                Some(c) => if c.len() > 0 { Some(c) } else { None },
                None => None,
            },
        streamed_text(chunks) == raw_contents(chunks),
        stream_after_chunks(s, chunks).full_content == s.full_content + raw_contents(chunks),
    decreases chunks.len(),
{
    if chunks.len() > 0 {
        lemma_content_streamed_verbatim(s, chunks.drop_last());
        assert forall|k: int|
            0 <= k < chunks.len() implies chunk_text(#[trigger] chunks[k]) == match first_content(chunks[k]) {
                Some(c) => if c.len() > 0 { Some(c) } else { None },
                None => None,
            } by {
            if k < chunks.len() - 1 {
                assert(chunks.drop_last()[k] == chunks[k]);
            }
        }
        let c = chunks.last();
        if c.choices@.len() > 0 && c.choices@[0].delta.content is Some {
            let t = c.choices@[0].delta.content.unwrap()@;
            if t.len() == 0 {
                assert(streamed_text(chunks.drop_last()) + Seq::<char>::empty() =~= streamed_text(chunks.drop_last()) + t);
            }
        }
        lemma_stream_accumulates(s, chunks);
    } else {
        lemma_stream_accumulates(s, chunks);
    }
}

/// Over any sequence of chunks, the text of the streamed message is exactly what the append
/// events carried, in order, and the reasoning reported when the response closes is the
/// reasoning of the chunks, in order; the identifiers and the buffer stay as they were.
pub proof fn lemma_stream_accumulates(s: LocalStreamView, chunks: Seq<ChatCompletionChunk>)
    ensures
        stream_after_chunks(s, chunks).full_content == s.full_content + streamed_text(chunks),
        stream_after_chunks(s, chunks).full_reasoning == s.full_reasoning + chunks_reasoning(chunks),
        stream_after_chunks(s, chunks).task_id == s.task_id,
        stream_after_chunks(s, chunks).request_id == s.request_id,
        stream_after_chunks(s, chunks).message_id == s.message_id,
        stream_after_chunks(s, chunks).buffer == s.buffer,
    decreases chunks.len(),
{
    if chunks.len() == 0 {
        assert(s.full_content + Seq::<char>::empty() =~= s.full_content);
        assert(s.full_reasoning + Seq::<char>::empty() =~= s.full_reasoning);
    } else {
        let prefix = chunks.drop_last();
        lemma_stream_accumulates(s, prefix);
        let mid = stream_after_chunks(s, prefix);
        let c = chunks.last();
        if c.choices@.len() > 0 {
            let delta = c.choices@[0].delta;
            match delta.content {
                Some(t) => {
                    if t@.len() == 0 {
                        assert(mid.full_content + t@ =~= mid.full_content);
                    }
                },
                None => {},
            }
        }
        assert(s.full_content + streamed_text(prefix) + match chunk_text(c) {
            Some(t) => t,
            None => Seq::<char>::empty(),
        } =~= stream_after_chunks(s, chunks).full_content);
        assert(s.full_reasoning + chunks_reasoning(prefix) + (if c.choices@.len() > 0
            && c.choices@[0].delta.reasoning_content is Some {
            c.choices@[0].delta.reasoning_content.unwrap()@
        } else {
            Seq::<char>::empty()
        }) =~= stream_after_chunks(s, chunks).full_reasoning);
    }
}

impl LocalStream {
    /// Starts the response to a request: the client is told to create the task and to add an
    /// empty assistant message to it, with the id `message_id` and the time `timestamp`, which
    /// the streamed text then fills.
    pub fn start(request: &LocalRequest, message_id: String, timestamp: Timestamp) -> (res: (LocalStream, Vec<ResponseEvent>))
        ensures
            res.0@.task_id == request.task_id@,
            res.0@.request_id == request.request_id@,
            res.0@.message_id == message_id@,
            res.0@.buffer.len() == 0,
            res.0@.full_content.len() == 0,
            res.0@.full_reasoning.len() == 0,
            res.0@.pending_tool_calls.len() == 0,
            res.1@.len() == 2,
            is_create_task_event(res.1@[0], request.task_id@),
            is_initial_message_event(
                res.1@[1],
                request.task_id@,
                request.request_id@,
                message_id@,
                timestamp,
            ),
    {
        let create_task = single_action_event(
            ClientAction::CreateTask {
                task: Task {
                    id: request.task_id.clone(),
                    description: String::new(),
                    messages: Vec::new(),
                    summary: String::new(),
                    server_data: String::new(),
                },
            },
        );
        let mut messages = Vec::new();
        messages.push(
            Message {
                id: message_id.clone(),
                task_id: request.task_id.clone(),
                request_id: request.request_id.clone(),
                timestamp: Some(timestamp),
                server_message_data: String::new(),
                message: Some(MessageBody::AgentOutput { text: String::new() }),
            },
        );
        let add_message = single_action_event(
            ClientAction::AddMessagesToTask { task_id: request.task_id.clone(), messages },
        );
        let mut events = Vec::new();
        events.push(create_task);
        events.push(add_message);
        let stream = LocalStream {
            task_id: request.task_id.clone(),
            request_id: request.request_id.clone(),
            message_id,
            buffer: String::new(),
            full_content: String::new(),
            full_reasoning: String::new(),
            pending_tool_calls: Vec::new(),
        };
        assert(pending_views(stream.pending_tool_calls@) =~= Seq::<PendingToolCallView>::empty());
        (stream, events)
    }

    /// Adds received text to the stream's buffer.
    pub fn receive_text(&mut self, text: &str)
        ensures
            final(self)@ == stream_with_buffer(old(self)@, old(self)@.buffer + text@),
    {
        self.buffer.append(text);
    }

    /// Takes the next complete line from the buffer and classifies it, or gives `None` when
    /// the buffer holds no complete line.
    pub fn next_line(&mut self) -> (line: Option<SseLine>)
        ensures
            line is None <==> line_feed_index(old(self)@.buffer) == old(self)@.buffer.len(),
            line is None ==> final(self)@ == old(self)@,
            line matches Some(kind) ==> {
                let b = old(self)@.buffer;
                let k = line_feed_index(b);
                &&& final(self)@ == stream_with_buffer(old(self)@, b.subrange(k + 1, b.len() as int))
                &&& sse_line_fits(kind, b.subrange(0, k))
            },
    {
        match split_line(&self.buffer) {
            None => None,
            Some((kind, rest)) => {
                self.buffer = rest;
                Some(kind)
            },
        }
    }

    /// Applies a parsed chunk of the response. Gives the event that streams the chunk's text to
    /// the client, if it has text.
    pub fn apply_chunk(&mut self, chunk: ChatCompletionChunk) -> (event: Option<ResponseEvent>)
        requires
            tool_delta_indices_bounded(chunk),
        ensures
            final(self)@ == stream_after_chunk(old(self)@, chunk),
            match chunk_text(chunk) {
                Some(text) => event matches Some(e) && is_append_event(
                    e,
                    old(self)@.task_id,
                    old(self)@.request_id,
                    old(self)@.message_id,
                    text,
                ),
                None => event is None,
            },
            match first_content(chunk) {
                Some(c) => {
                    &&& final(self)@.full_content == old(self)@.full_content + c
                    &&& (c.len() > 0 ==> (event matches Some(e) && appended_text(e) == Some(c)))
                    &&& (c.len() == 0 ==> event is None)
                },
                None => final(self)@.full_content == old(self)@.full_content && event is None,
            },
    {
        let ghost c = chunk;
        let ghost before = self@;
        let mut choices = chunk.choices;
        if choices.len() == 0 {
            return None;
        }
        let choice = choices.remove(0);
        let delta = choice.delta;
        if let Some(reasoning) = &delta.reasoning_content {
            self.full_reasoning.append(reasoning.as_str());
        }
        let mut event = None;
        if let Some(content) = &delta.content {
            if content.as_str().is_empty() {
                proof {
                    assert(self.full_content@ + content@ =~= self.full_content@);
                }
            } else {
                self.full_content.append(content.as_str());
                let mut paths = Vec::new();
                paths.push(AGENT_OUTPUT_APPEND_MASK_PATH.to_owned());
                event = Some(
                    single_action_event(
                        ClientAction::AppendToMessageContent {
                            task_id: self.task_id.clone(),
                            message: Message {
                                id: self.message_id.clone(),
                                task_id: self.task_id.clone(),
                                request_id: self.request_id.clone(),
                                timestamp: None,
                                server_message_data: String::new(),
                                message: Some(MessageBody::AgentOutput { text: content.clone() }),
                            },
                            mask: FieldMask { paths },
                        },
                    ),
                );
            }
        }
        if let Some(deltas) = delta.tool_calls {
            self.apply_tool_deltas(deltas);
        }
        assert(self@ == stream_after_chunk(before, c));
        event
    }

    /// The number of fresh identifiers that closing the response consumes, or `usize::MAX`
    /// when that number does not fit.
    pub fn fresh_ids_needed(&self) -> (n: usize)
        ensures
            n == (if fresh_ids_for(self@) <= usize::MAX {
                fresh_ids_for(self@)
            } else {
                usize::MAX as int
            }),
    {
        let len = self.pending_tool_calls.len();
        proof {
            assert(pending_views(self.pending_tool_calls@).len() == len);
        }
        if len <= (usize::MAX - 1) / 2 {
            2 * len + 1
        } else {
            usize::MAX
        }
    }

    /// Closes the response: the reasoning and the assembled shell command tool calls are
    /// reported as follow-up messages, with ids from `fresh_ids` (see `fresh_ids_for`) and the
    /// time `timestamp`, and the stream is finished.
    pub fn finish(self, fresh_ids: Vec<String>, timestamp: Timestamp) -> (events: Vec<ResponseEvent>)
        requires
            fresh_ids@.len() >= fresh_ids_for(self@),
        ensures
            are_closing_events(events@, self@, fresh_ids@, timestamp),
    {
        let ghost s = self@;
        let ghost fresh = fresh_ids@;
        let LocalStream {
            task_id,
            request_id,
            message_id: _,
            buffer: _,
            full_content: _,
            full_reasoning,
            pending_tool_calls,
        } = self;
        proof {
            assert(pending_views(pending_tool_calls@).len() == pending_tool_calls@.len());
        }
        let mut messages: Vec<Message> = Vec::new();
        if !full_reasoning.as_str().is_empty() {
            messages.push(
                Message {
                    id: fresh_ids[0].clone(),
                    task_id: task_id.clone(),
                    request_id: request_id.clone(),
                    timestamp: Some(timestamp),
                    server_message_data: String::new(),
                    message: Some(MessageBody::AgentReasoning { reasoning: full_reasoning }),
                },
            );
        }
        let offset = messages.len();
        let ghost all = pending_views(pending_tool_calls@);
        let n = pending_tool_calls.len();
        let mut rest = pending_tool_calls;
        let total = fresh_ids.len();
        let mut i: usize = 0;
        while rest.len() > 0
            invariant
                n == all.len(),
                i <= n,
                fresh_ids@ == fresh,
                total == fresh.len(),
                fresh.len() >= 1 + 2 * n,
                pending_views(rest@) == all.skip(i as int),
                all == s.pending_tool_calls,
                task_id@ == s.task_id,
                request_id@ == s.request_id,
                offset == (if s.full_reasoning.len() > 0 { 1int } else { 0int }),
                messages@.len() == offset + pending_commands(all.take(i as int)).len(),
                s.full_reasoning.len() > 0 ==> is_followup_reasoning(
                    messages@[0],
                    s,
                    fresh,
                    timestamp,
                ),
                forall|j: int|
                    0 <= j < pending_commands(all.take(i as int)).len() ==> is_followup_tool_call(
                        #[trigger] messages@[offset + j],
                        s,
                        fresh,
                        timestamp,
                        pending_commands(all.take(i as int))[j].0,
                        pending_commands(all.take(i as int))[j].1,
                        pending_commands(all.take(i as int))[j].2,
                    ),
            decreases rest@.len(),
        {
            proof {
                assert(pending_views(rest@).len() == rest@.len());
                assert(i < n);
            }
            let ghost old_rest = rest@;
            let p = rest.remove(0);
            let ghost pv = p@;
            proof {
                assert(pending_views(old_rest)[0] == pv);
                assert(all.skip(i as int)[0] == all[i as int]);
                assert(pv == all[i as int]);
                assert(all.take(i + 1).drop_last() =~= all.take(i as int));
                assert forall|j: int| 0 <= j < rest@.len() implies #[trigger] pending_views(rest@)[j]
                    == all.skip(i + 1)[j] by {
                    assert(rest@[j] == old_rest[j + 1]);
                    assert(pending_views(old_rest)[j + 1] == all.skip(i as int)[j + 1]);
                }
                assert(pending_views(rest@) =~= all.skip(i + 1));
            }
            let ghost before = messages@;
            let call_id = fresh_ids[2 * i + 1].clone();
            let message_id = fresh_ids[2 * i + 2].clone();
            if let Some(call) = p.into_chat_tool_call(call_id) {
                let ghost cv = call@;
                proof {
                    assert(run_shell_command_of(cv) == command_of_pending(pv));
                }
                if let Some(m) = tool_call_message_from_chat(
                    call,
                    task_id.as_str(),
                    request_id.as_str(),
                    message_id,
                    timestamp,
                ) {
                    messages.push(m);
                }
            }
            proof {
                let prev = pending_commands(all.take(i as int));
                assert(forall|j: int| 0 <= j < before.len() ==> messages@[j] == before[j]);
                assert(all.take(i + 1).last() == pv);
                match command_of_pending(pv) {
                    Some(c) => {
                        assert(pending_commands(all.take(i + 1)) == prev.push((i as int, pv, c)));
                    },
                    None => {
                        assert(pending_commands(all.take(i + 1)) == prev);
                    },
                }
            }
            i = i + 1;
        }
        proof {
            assert(all.take(n as int) =~= all);
        }
        let mut events = Vec::new();
        if messages.len() > 0 {
            events.push(single_action_event(ClientAction::AddMessagesToTask { task_id, messages }));
        }
        events.push(ResponseEvent::Finished { reason: Some(FinishReason::Done) });
        events
    }

    fn apply_tool_deltas(&mut self, deltas: Vec<ChatToolCallDelta>)
        requires
            forall|i: int| 0 <= i < deltas@.len() ==> #[trigger] deltas@[i].index < usize::MAX,
        ensures
            final(self)@ == stream_with_pending(
                old(self)@,
                pending_after_tool_deltas(old(self)@.pending_tool_calls, deltas@),
            ),
    {
        let ghost all = deltas@;
        let ghost start = self@;
        let mut i: usize = 0;
        let mut deltas = deltas;
        let n = deltas.len();
        while deltas.len() > 0
            invariant
                n == all.len(),
                deltas@ == all.skip(i as int),
                i <= n,
                forall|j: int| 0 <= j < all.len() ==> #[trigger] all[j].index < usize::MAX,
                self@ == stream_with_pending(
                    start,
                    pending_after_tool_deltas(start.pending_tool_calls, all.take(i as int)),
                ),
            decreases deltas@.len(),
        {
            let delta = deltas.remove(0);
            proof {
                assert(all.skip(i as int)[0] == all[i as int]);
                assert(all.take(i + 1).drop_last() =~= all.take(i as int));
                assert(all.skip(i as int).remove(0) =~= all.skip(i + 1));
            }
            self.apply_tool_delta(delta);
            i = i + 1;
        }
        proof {
            assert(all.take(n as int) =~= all);
        }
    }

    fn apply_tool_delta(&mut self, delta: ChatToolCallDelta)
        requires
            delta.index < usize::MAX,
        ensures
            final(self)@ == stream_with_pending(
                old(self)@,
                pending_after_tool_delta(old(self)@.pending_tool_calls, delta),
            ),
    {
        let ghost before = pending_views(self.pending_tool_calls@);
        let index = delta.index;
        if self.pending_tool_calls.len() <= index {
            while self.pending_tool_calls.len() <= index
                invariant
                    before.len() <= pending_views(self.pending_tool_calls@).len() <= index + 1,
                    pending_views(self.pending_tool_calls@) == before + Seq::new(
                        (pending_views(self.pending_tool_calls@).len() - before.len()) as nat,
                        |i: int| empty_pending(),
                    ),
                    self.task_id == old(self).task_id,
                    self.request_id == old(self).request_id,
                    self.message_id == old(self).message_id,
                    self.buffer == old(self).buffer,
                    self.full_content == old(self).full_content,
                    self.full_reasoning == old(self).full_reasoning,
                decreases index + 1 - self.pending_tool_calls@.len(),
            {
                let ghost prev = pending_views(self.pending_tool_calls@);
                let d = PendingToolCall::default();
                assert(d@.id =~= Seq::<char>::empty());
                assert(d@.call_type =~= Seq::<char>::empty());
                assert(d@.name =~= Seq::<char>::empty());
                assert(d@.arguments =~= Seq::<char>::empty());
                assert(d@ == empty_pending());
                self.pending_tool_calls.push(d);
                proof {
                    assert(pending_views(self.pending_tool_calls@) =~= prev.push(empty_pending()));
                    assert(pending_views(self.pending_tool_calls@) =~= before + Seq::new(
                        (pending_views(self.pending_tool_calls@).len() - before.len()) as nat,
                        |i: int| empty_pending(),
                    ));
                }
            }
        }
        let ghost grown = pending_views(self.pending_tool_calls@);
        let mut p = self.pending_tool_calls.remove(index);
        let ghost pv = p@;
        p.append_delta(delta);
        self.pending_tool_calls.insert(index, p);
        proof {
            assert(pv == grown[index as int]);
            assert(pending_views(self.pending_tool_calls@) =~= grown.update(
                index as int,
                pending_after_delta(grown[index as int], delta),
            ));
            if before.len() <= index {
                assert(grown =~= before + Seq::new(
                    (index + 1 - before.len()) as nat,
                    |i: int| empty_pending(),
                ));
            } else {
                assert(grown =~= before);
            }
        }
    }
}

} // verus!
