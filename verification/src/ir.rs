//! The canonical intermediate representation every wire protocol parses into
//! and renders out of, with the small conversions that live on its types.
use vstd::prelude::*;
use crate::json::{Json, JsonV, view_entries};
use crate::text::{owned, str_eq, trim, to_ascii_lower, trim_seq, lower_seq};

verus! {

// ---- content ---------------------------------------------------------------

#[derive(Clone, Copy, Debug, PartialEq, Eq, Structural)]
pub enum Role {
    System,
    User,
    Assistant,
    Tool,
}

impl Role {
    /// The Anthropic wire role: system, user and tool turns all travel as
    /// "user".
    pub fn as_anthropic(&self) -> (r: &'static str)
        ensures
            r@ == (if *self == Role::Assistant { "assistant"@ } else { "user"@ }),
    {
        match self {
            Role::System | Role::User | Role::Tool => "user",
            Role::Assistant => "assistant",
        }
    }
}

/// Image reference: inline base64 or a URL.
pub enum ImageSource {
    Base64 { media_type: String, data: String },
    Url(String),
}

pub enum ImageSourceV {
    Base64 { media_type: Seq<char>, data: Seq<char> },
    Url(Seq<char>),
}

impl View for ImageSource {
    type V = ImageSourceV;

    open spec fn view(&self) -> ImageSourceV {
        match self {
            ImageSource::Base64 { media_type, data } => ImageSourceV::Base64 {
                media_type: media_type@,
                data: data@,
            },
            ImageSource::Url(u) => ImageSourceV::Url(u@),
        }
    }
}

pub enum ContentBlock {
    Text { text: String },
    Image { source: ImageSource },
    /// Assistant asking to call a tool.
    ToolUse { id: String, name: String, input: Json },
    /// User-supplied result of a previous tool call.
    ToolResult { tool_use_id: String, content: Vec<ContentBlock>, is_error: bool },
    /// Extended-thinking / reasoning text.
    Thinking { text: String, signature: Option<String> },
}

pub enum BlockV {
    Text { text: Seq<char> },
    Image { source: ImageSourceV },
    ToolUse { id: Seq<char>, name: Seq<char>, input: JsonV },
    ToolResult { tool_use_id: Seq<char>, content: Seq<BlockV>, is_error: bool },
    Thinking { text: Seq<char>, signature: Option<Seq<char>> },
}

pub open spec fn opt_view(o: Option<String>) -> Option<Seq<char>> {
    match o {
        Some(s) => Some(s@),
        None => None,
    }
}

pub open spec fn opt_json_view(o: Option<Json>) -> Option<JsonV> {
    match o {
        Some(j) => Some(j@),
        None => None,
    }
}

pub open spec fn blocks_view(v: Seq<ContentBlock>) -> Seq<BlockV>
    decreases v,
{
    if v.len() == 0 {
        Seq::empty()
    } else {
        blocks_view(v.drop_last()).push(block_view(v.last()))
    }
}

pub open spec fn block_view(b: ContentBlock) -> BlockV
    decreases b,
{
    match b {
        ContentBlock::Text { text } => BlockV::Text { text: text@ },
        ContentBlock::Image { source } => BlockV::Image { source: source@ },
        ContentBlock::ToolUse { id, name, input } => BlockV::ToolUse {
            id: id@,
            name: name@,
            input: input@,
        },
        ContentBlock::ToolResult { tool_use_id, content, is_error } => BlockV::ToolResult {
            tool_use_id: tool_use_id@,
            content: blocks_view(content@),
            is_error,
        },
        ContentBlock::Thinking { text, signature } => BlockV::Thinking {
            text: text@,
            signature: opt_view(signature),
        },
    }
}

impl View for ContentBlock {
    type V = BlockV;

    open spec fn view(&self) -> BlockV {
        block_view(*self)
    }
}

pub proof fn lemma_blocks_view(v: Seq<ContentBlock>)
    ensures
        blocks_view(v).len() == v.len(),
        forall|i: int| 0 <= i < v.len() ==> #[trigger] blocks_view(v)[i] == block_view(v[i]),
    decreases v.len(),
{
    if v.len() > 0 {
        lemma_blocks_view(v.drop_last());
    }
}

pub struct Message {
    pub role: Role,
    pub content: Vec<ContentBlock>,
}

pub struct MessageV {
    pub role: Role,
    pub content: Seq<BlockV>,
}

impl View for Message {
    type V = MessageV;

    open spec fn view(&self) -> MessageV {
        MessageV { role: self.role, content: blocks_view(self.content@) }
    }
}

// ---- request ---------------------------------------------------------------

pub struct ToolDef {
    pub name: String,
    pub description: Option<String>,
    /// JSON Schema object for the tool's parameters.
    pub parameters: Json,
    /// For provider built-in / server-side tools, the verbatim native tool
    /// entry; `None` for ordinary function tools.
    pub builtin: Option<Json>,
}

pub struct ToolDefV {
    pub name: Seq<char>,
    pub description: Option<Seq<char>>,
    pub parameters: JsonV,
    pub builtin: Option<JsonV>,
}

impl View for ToolDef {
    type V = ToolDefV;

    open spec fn view(&self) -> ToolDefV {
        ToolDefV {
            name: self.name@,
            description: opt_view(self.description),
            parameters: self.parameters@,
            builtin: opt_json_view(self.builtin),
        }
    }
}

pub enum ToolChoice {
    Auto,
    /// The wire value "none": the model must not call any tool.
    NoTools,
    Required,
    Tool(String),
}

pub enum ToolChoiceV {
    Auto,
    NoTools,
    Required,
    Tool(Seq<char>),
}

impl View for ToolChoice {
    type V = ToolChoiceV;

    open spec fn view(&self) -> ToolChoiceV {
        match self {
            ToolChoice::Auto => ToolChoiceV::Auto,
            ToolChoice::NoTools => ToolChoiceV::NoTools,
            ToolChoice::Required => ToolChoiceV::Required,
            ToolChoice::Tool(n) => ToolChoiceV::Tool(n@),
        }
    }
}

/// Whether `name` is one of `names`.
pub open spec fn names_contain(names: Seq<&str>, name: Seq<char>) -> bool {
    exists|i: int| 0 <= i < names.len() && (#[trigger] names[i])@ == name
}

impl ToolChoice {
    /// Whether this choice should be forwarded given the function tools that
    /// survived rendering: a named choice must name one of them.
    pub fn applies_to(&self, function_names: &[&str]) -> (r: bool)
        ensures
            r == match self@ {
                ToolChoiceV::Tool(n) => names_contain(function_names@, n),
                _ => true,
            },
    {
        match self {
            ToolChoice::Tool(name) => {
                let mut i: usize = 0;
                while i < function_names.len()
                    invariant
                        i <= function_names.len(),
                        self@ == ToolChoiceV::Tool(name@),
                        forall|k: int| 0 <= k < i ==> (#[trigger] function_names@[k])@ != name@,
                    decreases function_names.len() - i,
                {
                    if str_eq(function_names[i], name.as_str()) {
                        assert((function_names@[i as int])@ == name@);
                        return true;
                    }
                    i = i + 1;
                }
                false
            },
            _ => true,
        }
    }
}

/// Requested structured-output format.
pub enum ResponseFormat {
    /// Any valid JSON object.
    JsonObject,
    /// JSON constrained to a schema.
    JsonSchema { name: String, schema: Json, strict: bool },
}

pub enum ResponseFormatV {
    JsonObject,
    JsonSchema { name: Seq<char>, schema: JsonV, strict: bool },
}

impl View for ResponseFormat {
    type V = ResponseFormatV;

    open spec fn view(&self) -> ResponseFormatV {
        match self {
            ResponseFormat::JsonObject => ResponseFormatV::JsonObject,
            ResponseFormat::JsonSchema { name, schema, strict } => ResponseFormatV::JsonSchema {
                name: name@,
                schema: schema@,
                strict: *strict,
            },
        }
    }
}

#[derive(Clone, Copy, Debug, PartialEq, Eq, Structural)]
pub enum Effort {
    Minimal,
    Low,
    Medium,
    High,
}

/// The effort a `wire` text names, after trimming and ASCII case folding.
pub open spec fn effort_named(t: Seq<char>) -> Option<Effort> {
    if t == "minimal"@ || t == "none"@ {
        Some(Effort::Minimal)
    } else if t == "low"@ {
        Some(Effort::Low)
    } else if t == "medium"@ {
        Some(Effort::Medium)
    } else if t == "high"@ {
        Some(Effort::High)
    } else {
        None
    }
}

impl Effort {
    pub open spec fn spec_budget(self) -> u64 {
        match self {
            Effort::Minimal => 1024,
            Effort::Low => 4096,
            Effort::Medium => 8192,
            Effort::High => 16384,
        }
    }

    pub open spec fn spec_from_budget(budget: u64) -> Effort {
        if budget <= 1024 {
            Effort::Minimal
        } else if budget <= 4096 {
            Effort::Low
        } else if budget <= 8192 {
            Effort::Medium
        } else {
            Effort::High
        }
    }

    pub open spec fn spec_name(self) -> Seq<char> {
        match self {
            Effort::Minimal => "minimal"@,
            Effort::Low => "low"@,
            Effort::Medium => "medium"@,
            Effort::High => "high"@,
        }
    }

    /// Reads an effort tier; surrounding whitespace and ASCII case are ignored.
    pub fn parse(s: &str) -> (r: Option<Effort>)
        ensures
            r == effort_named(lower_seq(trim_seq(s@))),
    {
        let t = trim(s);
        let l = to_ascii_lower(t.as_str());
        let l = l.as_str();
        if str_eq(l, "minimal") || str_eq(l, "none") {
            Some(Effort::Minimal)
        } else if str_eq(l, "low") {
            Some(Effort::Low)
        } else if str_eq(l, "medium") {
            Some(Effort::Medium)
        } else if str_eq(l, "high") {
            Some(Effort::High)
        } else {
            None
        }
    }

    pub fn as_str(&self) -> (r: &'static str)
        ensures
            r@ == self.spec_name(),
    {
        match self {
            Effort::Minimal => "minimal",
            Effort::Low => "low",
            Effort::Medium => "medium",
            Effort::High => "high",
        }
    }

    /// Heuristic token budget for protocols that take a number instead of a tier.
    pub fn to_budget(&self) -> (r: u64)
        ensures
            r == self.spec_budget(),
    {
        match self {
            Effort::Minimal => 1024,
            Effort::Low => 4096,
            Effort::Medium => 8192,
            Effort::High => 16384,
        }
    }

    pub fn from_budget(budget: u64) -> (r: Effort)
        ensures
            r == Effort::spec_from_budget(budget),
    {
        if budget <= 1024 {
            Effort::Minimal
        } else if budget <= 4096 {
            Effort::Low
        } else if budget <= 8192 {
            Effort::Medium
        } else {
            Effort::High
        }
    }
}

/// Reasoning / extended-thinking request knob. Both forms are carried when
/// known so each codec can pick the closest native shape.
#[derive(Clone, Copy, Debug, PartialEq, Eq, Structural)]
pub struct ReasoningConfig {
    pub effort: Option<Effort>,
    pub budget_tokens: Option<u64>,
}

impl ReasoningConfig {
    pub open spec fn spec_effort(self) -> Effort {
        match self.effort {
            Some(e) => e,
            None => Effort::spec_from_budget(
                match self.budget_tokens {
                    Some(b) => b,
                    None => 0,
                },
            ),
        }
    }

    pub open spec fn spec_budget(self) -> u64 {
        match self.budget_tokens {
            Some(b) => b,
            None => match self.effort {
                Some(e) => e.spec_budget(),
                None => 0,
            },
        }
    }

    /// The effort tier, derived from the token budget when only that is known.
    pub fn derived_effort(&self) -> (r: Effort)
        ensures
            r == self.spec_effort(),
    {
        match self.effort {
            Some(e) => e,
            None => Effort::from_budget(
                match self.budget_tokens {
                    Some(b) => b,
                    None => 0,
                },
            ),
        }
    }

    /// A token budget, derived from the effort tier when only that is known.
    pub fn derived_budget(&self) -> (r: u64)
        ensures
            r == self.spec_budget(),
    {
        match self.budget_tokens {
            Some(b) => b,
            None => match self.effort {
                Some(e) => e.to_budget(),
                None => 0,
            },
        }
    }
}

/// Prompt-cache breakpoints for a request: on the last tool, on the last
/// system block, and on the tail block of the listed messages.
pub struct CacheMarkers {
    pub tools: bool,
    pub system: bool,
    pub messages: Vec<usize>,
}

impl CacheMarkers {
    pub open spec fn spec_is_empty(&self) -> bool {
        !self.tools && !self.system && self.messages@.len() == 0
    }

    pub fn new() -> (r: CacheMarkers)
        ensures
            !r.tools && !r.system && r.messages@ == Seq::<usize>::empty(),
    {
        CacheMarkers { tools: false, system: false, messages: Vec::new() }
    }

    pub fn is_empty(&self) -> (r: bool)
        ensures
            r == self.spec_is_empty(),
    {
        !self.tools && !self.system && self.messages.len() == 0
    }
}

pub struct ChatRequest {
    pub model: String,
    /// System / developer instructions, usually a single `Text` block.
    pub system: Vec<ContentBlock>,
    pub messages: Vec<Message>,
    pub tools: Vec<ToolDef>,
    pub tool_choice: Option<ToolChoice>,
    /// Prompt-cache breakpoints; only honoured when rendering to Anthropic.
    pub cache: CacheMarkers,
    /// `Some(false)` forbids parallel tool calls.
    pub parallel_tool_calls: Option<bool>,
    pub response_format: Option<ResponseFormat>,
    pub reasoning: Option<ReasoningConfig>,
    pub max_tokens: Option<u64>,
    /// Sampling temperature, the JSON number as the client wrote it.
    pub temperature: Option<Json>,
    /// Nucleus sampling, the JSON number as the client wrote it.
    pub top_p: Option<Json>,
    pub stop: Vec<String>,
    pub stream: bool,
    /// Members not modelled explicitly, carried through when shape-compatible.
    pub extra: Vec<(String, Json)>,
}

pub open spec fn tools_view(v: Seq<ToolDef>) -> Seq<ToolDefV> {
    v.map_values(|t: ToolDef| t@)
}

pub open spec fn messages_view(v: Seq<Message>) -> Seq<MessageV> {
    v.map_values(|m: Message| m@)
}

pub open spec fn strings_view(v: Seq<String>) -> Seq<Seq<char>> {
    v.map_values(|s: String| s@)
}

pub struct ChatRequestV {
    pub model: Seq<char>,
    pub system: Seq<BlockV>,
    pub messages: Seq<MessageV>,
    pub tools: Seq<ToolDefV>,
    pub tool_choice: Option<ToolChoiceV>,
    pub cache_tools: bool,
    pub cache_system: bool,
    pub cache_messages: Seq<usize>,
    pub parallel_tool_calls: Option<bool>,
    pub response_format: Option<ResponseFormatV>,
    pub reasoning: Option<ReasoningConfig>,
    pub max_tokens: Option<u64>,
    pub temperature: Option<JsonV>,
    pub top_p: Option<JsonV>,
    pub stop: Seq<Seq<char>>,
    pub stream: bool,
    pub extra: Seq<(Seq<char>, JsonV)>,
}

impl View for ChatRequest {
    type V = ChatRequestV;

    open spec fn view(&self) -> ChatRequestV {
        ChatRequestV {
            model: self.model@,
            system: blocks_view(self.system@),
            messages: messages_view(self.messages@),
            tools: tools_view(self.tools@),
            tool_choice: match self.tool_choice {
                Some(t) => Some(t@),
                None => None,
            },
            cache_tools: self.cache.tools,
            cache_system: self.cache.system,
            cache_messages: self.cache.messages@,
            parallel_tool_calls: self.parallel_tool_calls,
            response_format: match self.response_format {
                Some(f) => Some(f@),
                None => None,
            },
            reasoning: self.reasoning,
            max_tokens: self.max_tokens,
            temperature: opt_json_view(self.temperature),
            top_p: opt_json_view(self.top_p),
            stop: strings_view(self.stop@),
            stream: self.stream,
            extra: view_entries(self.extra@),
        }
    }
}

// ---- response --------------------------------------------------------------

pub enum StopReason {
    EndTurn,
    MaxTokens,
    ToolUse,
    StopSequence,
    ContentFilter,
    Other(String),
}

pub enum StopReasonV {
    EndTurn,
    MaxTokens,
    ToolUse,
    StopSequence,
    ContentFilter,
    Other(Seq<char>),
}

impl View for StopReason {
    type V = StopReasonV;

    open spec fn view(&self) -> StopReasonV {
        match self {
            StopReason::EndTurn => StopReasonV::EndTurn,
            StopReason::MaxTokens => StopReasonV::MaxTokens,
            StopReason::ToolUse => StopReasonV::ToolUse,
            StopReason::StopSequence => StopReasonV::StopSequence,
            StopReason::ContentFilter => StopReasonV::ContentFilter,
            StopReason::Other(s) => StopReasonV::Other(s@),
        }
    }
}

pub open spec fn opt_stop_view(o: Option<StopReason>) -> Option<StopReasonV> {
    match o {
        Some(r) => Some(r@),
        None => None,
    }
}

/// Token accounting. `input_tokens` is the TOTAL input, including the cached
/// and cache-written portions, which are subsets of it.
#[derive(Clone, Copy, Debug, PartialEq, Eq, Structural)]
pub struct Usage {
    pub input_tokens: u64,
    pub output_tokens: u64,
    pub cache_creation_input_tokens: u64,
    pub cache_read_input_tokens: u64,
}

pub open spec fn saturating_sub(a: u64, b: u64) -> u64 {
    if a >= b {
        (a - b) as u64
    } else {
        0
    }
}

impl Usage {
    pub open spec fn spec_non_cached(self) -> u64 {
        saturating_sub(
            saturating_sub(self.input_tokens, self.cache_read_input_tokens),
            self.cache_creation_input_tokens,
        )
    }

    pub fn zero() -> (r: Usage)
        ensures
            r.input_tokens == 0 && r.output_tokens == 0 && r.cache_creation_input_tokens == 0
                && r.cache_read_input_tokens == 0,
    {
        Usage {
            input_tokens: 0,
            output_tokens: 0,
            cache_creation_input_tokens: 0,
            cache_read_input_tokens: 0,
        }
    }

    /// Input tokens billed at the full rate (total minus the cached and
    /// cache-written portions), saturating at zero.
    pub fn non_cached_input_tokens(&self) -> (r: u64)
        ensures
            r == self.spec_non_cached(),
    {
        self.input_tokens.saturating_sub(self.cache_read_input_tokens).saturating_sub(
            self.cache_creation_input_tokens,
        )
    }
}

pub struct ChatResponse {
    pub id: String,
    pub model: String,
    pub content: Vec<ContentBlock>,
    pub stop_reason: Option<StopReason>,
    pub usage: Usage,
}

pub struct ChatResponseV {
    pub id: Seq<char>,
    pub model: Seq<char>,
    pub content: Seq<BlockV>,
    pub stop_reason: Option<StopReasonV>,
    pub usage: Usage,
}

impl View for ChatResponse {
    type V = ChatResponseV;

    open spec fn view(&self) -> ChatResponseV {
        ChatResponseV {
            id: self.id@,
            model: self.model@,
            content: blocks_view(self.content@),
            stop_reason: opt_stop_view(self.stop_reason),
            usage: self.usage,
        }
    }
}

pub open spec fn stop_from_anthropic(s: Seq<char>) -> StopReasonV {
    if s == "end_turn"@ {
        StopReasonV::EndTurn
    } else if s == "max_tokens"@ {
        StopReasonV::MaxTokens
    } else if s == "tool_use"@ {
        StopReasonV::ToolUse
    } else if s == "stop_sequence"@ {
        StopReasonV::StopSequence
    } else if s == "refusal"@ {
        StopReasonV::ContentFilter
    } else {
        StopReasonV::Other(s)
    }
}

pub open spec fn stop_to_anthropic(r: StopReasonV) -> Seq<char> {
    match r {
        StopReasonV::EndTurn => "end_turn"@,
        StopReasonV::MaxTokens => "max_tokens"@,
        StopReasonV::ToolUse => "tool_use"@,
        StopReasonV::StopSequence => "stop_sequence"@,
        StopReasonV::ContentFilter => "refusal"@,
        StopReasonV::Other(s) => s,
    }
}

pub open spec fn stop_from_openai(s: Seq<char>) -> StopReasonV {
    if s == "stop"@ {
        StopReasonV::EndTurn
    } else if s == "length"@ {
        StopReasonV::MaxTokens
    } else if s == "tool_calls"@ || s == "function_call"@ {
        StopReasonV::ToolUse
    } else if s == "content_filter"@ {
        StopReasonV::ContentFilter
    } else {
        StopReasonV::Other(s)
    }
}

pub open spec fn stop_to_openai(r: StopReasonV) -> Seq<char> {
    match r {
        StopReasonV::EndTurn => "stop"@,
        StopReasonV::MaxTokens => "length"@,
        StopReasonV::ToolUse => "tool_calls"@,
        StopReasonV::StopSequence => "stop"@,
        StopReasonV::ContentFilter => "content_filter"@,
        StopReasonV::Other(s) => s,
    }
}

pub open spec fn stop_from_gemini(s: Seq<char>) -> StopReasonV {
    if s == "STOP"@ {
        StopReasonV::EndTurn
    } else if s == "MAX_TOKENS"@ {
        StopReasonV::MaxTokens
    } else if s == "SAFETY"@ || s == "PROHIBITED_CONTENT"@ {
        StopReasonV::ContentFilter
    } else {
        StopReasonV::Other(s)
    }
}

pub open spec fn stop_to_gemini(r: StopReasonV) -> Seq<char> {
    match r {
        StopReasonV::MaxTokens => "MAX_TOKENS"@,
        StopReasonV::ContentFilter => "SAFETY"@,
        _ => "STOP"@,
    }
}

impl StopReason {
    pub fn from_anthropic(s: &str) -> (r: StopReason)
        ensures
            r@ == stop_from_anthropic(s@),
    {
        if str_eq(s, "end_turn") {
            StopReason::EndTurn
        } else if str_eq(s, "max_tokens") {
            StopReason::MaxTokens
        } else if str_eq(s, "tool_use") {
            StopReason::ToolUse
        } else if str_eq(s, "stop_sequence") {
            StopReason::StopSequence
        } else if str_eq(s, "refusal") {
            StopReason::ContentFilter
        } else {
            StopReason::Other(owned(s))
        }
    }

    pub fn to_anthropic(&self) -> (r: String)
        ensures
            r@ == stop_to_anthropic(self@),
    {
        match self {
            StopReason::EndTurn => owned("end_turn"),
            StopReason::MaxTokens => owned("max_tokens"),
            StopReason::ToolUse => owned("tool_use"),
            StopReason::StopSequence => owned("stop_sequence"),
            StopReason::ContentFilter => owned("refusal"),
            StopReason::Other(s) => s.clone(),
        }
    }

    /// Reads an OpenAI `finish_reason`.
    pub fn from_openai(s: &str) -> (r: StopReason)
        ensures
            r@ == stop_from_openai(s@),
    {
        if str_eq(s, "stop") {
            StopReason::EndTurn
        } else if str_eq(s, "length") {
            StopReason::MaxTokens
        } else if str_eq(s, "tool_calls") || str_eq(s, "function_call") {
            StopReason::ToolUse
        } else if str_eq(s, "content_filter") {
            StopReason::ContentFilter
        } else {
            StopReason::Other(owned(s))
        }
    }

    pub fn to_openai(&self) -> (r: String)
        ensures
            r@ == stop_to_openai(self@),
    {
        match self {
            StopReason::EndTurn => owned("stop"),
            StopReason::MaxTokens => owned("length"),
            StopReason::ToolUse => owned("tool_calls"),
            StopReason::StopSequence => owned("stop"),
            StopReason::ContentFilter => owned("content_filter"),
            StopReason::Other(s) => s.clone(),
        }
    }

    /// Reads a Gemini `finishReason`.
    pub fn from_gemini(s: &str) -> (r: StopReason)
        ensures
            r@ == stop_from_gemini(s@),
    {
        if str_eq(s, "STOP") {
            StopReason::EndTurn
        } else if str_eq(s, "MAX_TOKENS") {
            StopReason::MaxTokens
        } else if str_eq(s, "SAFETY") || str_eq(s, "PROHIBITED_CONTENT") {
            StopReason::ContentFilter
        } else {
            StopReason::Other(owned(s))
        }
    }

    pub fn to_gemini(&self) -> (r: String)
        ensures
            r@ == stop_to_gemini(self@),
    {
        match self {
            StopReason::MaxTokens => owned("MAX_TOKENS"),
            StopReason::ContentFilter => owned("SAFETY"),
            _ => owned("STOP"),
        }
    }

    pub fn copy(&self) -> (r: StopReason)
        ensures
            r@ == self@,
    {
        match self {
            StopReason::EndTurn => StopReason::EndTurn,
            StopReason::MaxTokens => StopReason::MaxTokens,
            StopReason::ToolUse => StopReason::ToolUse,
            StopReason::StopSequence => StopReason::StopSequence,
            StopReason::ContentFilter => StopReason::ContentFilter,
            StopReason::Other(s) => StopReason::Other(s.clone()),
        }
    }
}

// ---- stream ----------------------------------------------------------------

/// What kind of content block a stream is opening.
pub enum BlockStart {
    Text,
    Thinking,
    ToolUse { id: String, name: String },
}

pub enum BlockStartV {
    Text,
    Thinking,
    ToolUse { id: Seq<char>, name: Seq<char> },
}

impl View for BlockStart {
    type V = BlockStartV;

    open spec fn view(&self) -> BlockStartV {
        match self {
            BlockStart::Text => BlockStartV::Text,
            BlockStart::Thinking => BlockStartV::Thinking,
            BlockStart::ToolUse { id, name } => BlockStartV::ToolUse { id: id@, name: name@ },
        }
    }
}

/// Normalized streaming events, mirroring Anthropic's SSE shape.
pub enum StreamEvent {
    MessageStart { id: String, model: String },
    ContentBlockStart { index: usize, block: BlockStart },
    TextDelta { index: usize, text: String },
    ThinkingDelta { index: usize, text: String },
    /// Partial JSON for a `ToolUse` block's `input`.
    ToolUseInputDelta { index: usize, partial_json: String },
    ContentBlockStop { index: usize },
    MessageDelta { stop_reason: Option<StopReason>, usage: Option<Usage> },
    MessageStop,
}

pub enum StreamEventV {
    MessageStart { id: Seq<char>, model: Seq<char> },
    ContentBlockStart { index: usize, block: BlockStartV },
    TextDelta { index: usize, text: Seq<char> },
    ThinkingDelta { index: usize, text: Seq<char> },
    ToolUseInputDelta { index: usize, partial_json: Seq<char> },
    ContentBlockStop { index: usize },
    MessageDelta { stop_reason: Option<StopReasonV>, usage: Option<Usage> },
    MessageStop,
}

impl View for StreamEvent {
    type V = StreamEventV;

    open spec fn view(&self) -> StreamEventV {
        match self {
            StreamEvent::MessageStart { id, model } => StreamEventV::MessageStart {
                id: id@,
                model: model@,
            },
            StreamEvent::ContentBlockStart { index, block } => StreamEventV::ContentBlockStart {
                index: *index,
                block: block@,
            },
            StreamEvent::TextDelta { index, text } => StreamEventV::TextDelta {
                index: *index,
                text: text@,
            },
            StreamEvent::ThinkingDelta { index, text } => StreamEventV::ThinkingDelta {
                index: *index,
                text: text@,
            },
            StreamEvent::ToolUseInputDelta { index, partial_json } =>
                StreamEventV::ToolUseInputDelta { index: *index, partial_json: partial_json@ },
            StreamEvent::ContentBlockStop { index } => StreamEventV::ContentBlockStop {
                index: *index,
            },
            StreamEvent::MessageDelta { stop_reason, usage } => StreamEventV::MessageDelta {
                stop_reason: opt_stop_view(*stop_reason),
                usage: *usage,
            },
            StreamEvent::MessageStop => StreamEventV::MessageStop,
        }
    }
}

pub open spec fn events_view(v: Seq<StreamEvent>) -> Seq<StreamEventV> {
    v.map_values(|e: StreamEvent| e@)
}

} // verus!
