//! The part of the gateway configuration that routing reads: the model list.
use vstd::prelude::*;
use crate::json::{Json, JsonV, view_entries};
use crate::ir::opt_view;

verus! {

pub struct LiteLlmParams {
    /// `provider/upstream-model`, or `provider/*` for a wildcard route.
    pub model: String,
    pub api_key: Option<String>,
    pub api_base: Option<String>,
    /// Overrides the provider's default wire format.
    pub wire_api: Option<String>,
    pub extra: Vec<(String, Json)>,
}

pub struct ModelEntry {
    /// The public model name clients ask for (`prefix/*` for a wildcard).
    pub model_name: String,
    pub litellm_params: LiteLlmParams,
}

pub struct GatewayConfig {
    pub model_list: Vec<ModelEntry>,
}

pub struct ModelEntryV {
    pub model_name: Seq<char>,
    pub model: Seq<char>,
    pub api_key: Option<Seq<char>>,
    pub api_base: Option<Seq<char>>,
    pub wire_api: Option<Seq<char>>,
    pub extra: Seq<(Seq<char>, JsonV)>,
}

impl View for ModelEntry {
    type V = ModelEntryV;

    open spec fn view(&self) -> ModelEntryV {
        ModelEntryV {
            model_name: self.model_name@,
            model: self.litellm_params.model@,
            api_key: opt_view(self.litellm_params.api_key),
            api_base: opt_view(self.litellm_params.api_base),
            wire_api: opt_view(self.litellm_params.wire_api),
            extra: view_entries(self.litellm_params.extra@),
        }
    }
}

impl View for GatewayConfig {
    type V = Seq<ModelEntryV>;

    open spec fn view(&self) -> Seq<ModelEntryV> {
        self.model_list@.map_values(|e: ModelEntry| e@)
    }
}

} // verus!
