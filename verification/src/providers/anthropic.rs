use vstd::prelude::*;
use crate::providers::{ProviderRegistry, ProviderV};
use crate::wire::WireFormat;

verus! {

pub fn init(registry: &mut ProviderRegistry)
    ensures
        final(registry)@ == old(registry)@.insert(
            "anthropic"@,
            ProviderV {
                default_api_base: "https://api.anthropic.com"@,
                default_wire: WireFormat::AnthropicMessages,
            },
        ),
{
    registry.register("anthropic", "https://api.anthropic.com", WireFormat::AnthropicMessages);
}

} // verus!
