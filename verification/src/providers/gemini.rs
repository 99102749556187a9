use vstd::prelude::*;
use crate::providers::{ProviderRegistry, ProviderV};
use crate::wire::WireFormat;

verus! {

pub fn init(registry: &mut ProviderRegistry)
    ensures
        final(registry)@ == old(registry)@.insert(
            "gemini"@,
            ProviderV {
                default_api_base: "https://generativelanguage.googleapis.com"@,
                default_wire: WireFormat::Gemini,
            },
        ),
{
    registry.register("gemini", "https://generativelanguage.googleapis.com", WireFormat::Gemini);
}

} // verus!
