//! Provider metadata: for each provider id, where requests go by default and
//! which wire format it speaks.
use vstd::prelude::*;
use crate::table::Table;
use crate::text::owned;
use crate::wire::WireFormat;

pub mod anthropic;
pub mod base;
pub mod gemini;
pub mod openai;
pub mod transformation;

verus! {

/// Static metadata for a provider id.
#[derive(Debug)]
pub struct Provider {
    pub default_api_base: String,
    pub default_wire: WireFormat,
}

pub struct ProviderV {
    pub default_api_base: Seq<char>,
    pub default_wire: WireFormat,
}

impl View for Provider {
    type V = ProviderV;

    open spec fn view(&self) -> ProviderV {
        ProviderV { default_api_base: self.default_api_base@, default_wire: self.default_wire }
    }
}

impl Provider {
    pub fn copy(&self) -> (r: Provider)
        ensures
            r@ == self@,
    {
        Provider { default_api_base: self.default_api_base.clone(), default_wire: self.default_wire }
    }
}

/// Provider id to metadata; registering an id again replaces its entry.
pub struct ProviderRegistry {
    providers: Table<Provider>,
}

impl View for ProviderRegistry {
    type V = Map<Seq<char>, ProviderV>;

    closed spec fn view(&self) -> Map<Seq<char>, ProviderV> {
        self.providers@
    }
}

impl ProviderRegistry {
    pub fn new() -> (r: ProviderRegistry)
        ensures
            r@ == Map::<Seq<char>, ProviderV>::empty(),
    {
        ProviderRegistry { providers: Table::new() }
    }

    pub fn register(&mut self, id: &str, default_api_base: &str, default_wire: WireFormat)
        ensures
            final(self)@ == old(self)@.insert(
                id@,
                ProviderV { default_api_base: default_api_base@, default_wire },
            ),
    {
        self.providers.insert(
            owned(id),
            Provider { default_api_base: owned(default_api_base), default_wire },
        );
    }

    pub fn get(&self, id: &str) -> (r: Option<Provider>)
        ensures
            match r {
                Some(p) => self@.contains_key(id@) && self@[id@] == p@,
                None => !self@.contains_key(id@),
            },
    {
        match self.providers.get(id) {
            Some(p) => Some(p.copy()),
            None => None,
        }
    }
}

/// The metadata of the built-in providers.
pub open spec fn builtin_providers() -> Map<Seq<char>, ProviderV> {
    Map::<Seq<char>, ProviderV>::empty().insert(
        "anthropic"@,
        ProviderV {
            default_api_base: "https://api.anthropic.com"@,
            default_wire: WireFormat::AnthropicMessages,
        },
    ).insert(
        "gemini"@,
        ProviderV {
            default_api_base: "https://generativelanguage.googleapis.com"@,
            default_wire: WireFormat::Gemini,
        },
    ).insert(
        "openai"@,
        ProviderV {
            default_api_base: "https://api.openai.com"@,
            default_wire: WireFormat::OpenAiResponses,
        },
    ).insert(
        "codex"@,
        ProviderV {
            default_api_base: "https://api.openai.com"@,
            default_wire: WireFormat::OpenAiResponses,
        },
    ).insert(
        "openai_chat"@,
        ProviderV { default_api_base: "https://api.openai.com"@, default_wire: WireFormat::OpenAiChat },
    )
}

/// Registers every built-in provider.
pub fn register_all(registry: &mut ProviderRegistry)
    ensures
        final(registry)@ == old(registry)@.union_prefer_right(builtin_providers()),
{
    anthropic::init(registry);
    gemini::init(registry);
    openai::init(registry);
    assert(final(registry)@ =~= old(registry)@.union_prefer_right(builtin_providers()));
}

} // verus!
