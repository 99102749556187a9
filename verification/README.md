# litellm-rust (verified SDK core)

The SDK core of an AI gateway that speaks four LLM wire protocols (Anthropic
Messages, OpenAI Chat Completions, OpenAI Responses, Gemini generateContent),
written in Verus with its behaviour stated in contracts and proved.

Layout:

- `src/` — the verified library.
  - `json`, `text`, `headers`: the document, text and header-list models the
    rest is stated over, with the calls into serde_json, blake3 and http kept
    behind small trusted wrappers.
  - `ir`: the canonical request, response and stream-event types.
  - `codec/`: one codec per protocol (request/response parsing and
    rendering, SSE stream parsers and renderers), the `ProtocolCodec` trait
    and `codec_for`, and prompt-cache breakpoint injection.
  - `sse`: the incremental SSE decoder and frame writer.
  - `providers/`, `router`, `config`, `wire`: provider metadata, pass-through
    transformations and model routing.
  - `agents/`: the agent runtimes' request bodies and event normalizers.
  - `laws`: properties that span several functions (round trips, streams
    that end once, breakpoint budgets, routing precedence).
- `app/` — conversions between the library's types and serde_json / http
  types, the agent SDK error with its messages, and the loops that drive the
  agent event normalizers.
- `tests/` — executable tests of the library.
