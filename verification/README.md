# warp_local_ai

The logic behind Warp's local AI agent provider, its display-language support and the search
of its settings pages, written in Verus and verified.

- `src/local_provider.rs`: the conversation sent to an OpenAI-compatible model (system prompt,
  task messages with their reasoning, tool calls and results, request inputs), tool call
  assembly from streamed fragments, and the shell command tool call messages built from the
  model's tool calls.
- `src/local_stream.rs`: preparing a request, reading the server-sent event stream line by
  line, and the response events derived from each streamed chunk.
- `src/agent_api.rs`: the parts of the agent protocol that the provider reads and writes.
- `src/i18n*.rs`: locales, the current locale and the message tables.
- `src/settings_*.rs`, `src/language_page.rs`, `src/local_ai_provider_page.rs`: settings search
  and filtering, the Simplified Chinese rendering of settings text, and the decisions of the
  language and provider pages.
- `src/text.rs`, `src/json.rs`: string helpers, and the calls into `serde_json` and
  `str::to_lowercase`, each with the contract it is trusted to meet.
- `src/i18n_placeholders.rs`: every Chinese message has text and keeps the English message's
  `{count}` placeholder.
- `app/`: the HTTP request and stream loop (`reqwest`, `tokio`), fresh ids (`uuid`) and clock
  readings (`chrono`), the JSON wire types with `serde` derives, and the stored locale setting.
