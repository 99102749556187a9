use vstd::prelude::*;
use crate::providers::{ProviderRegistry, ProviderV};
use crate::wire::WireFormat;

verus! {

/// `openai` and `codex` default to the Responses API; `openai_chat` selects
/// Chat Completions.
pub fn init(registry: &mut ProviderRegistry)
    ensures
        final(registry)@ == old(registry)@.insert(
            "openai"@,
            ProviderV {
                default_api_base: "https://api.openai.com"@,
                default_wire: WireFormat::OpenAiResponses,
            },
        ).insert(
            "codex"@,
            ProviderV {
                default_api_base: "https://api.openai.com"@,
                default_wire: WireFormat::OpenAiResponses,
            },
        ).insert(
            "openai_chat"@,
            ProviderV {
                default_api_base: "https://api.openai.com"@,
                default_wire: WireFormat::OpenAiChat,
            },
        ),
{
    registry.register("openai", "https://api.openai.com", WireFormat::OpenAiResponses);
    registry.register("codex", "https://api.openai.com", WireFormat::OpenAiResponses);
    registry.register("openai_chat", "https://api.openai.com", WireFormat::OpenAiChat);
}

} // verus!
