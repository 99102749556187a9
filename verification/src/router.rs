//! Routing: which deployment serves a public model name.
use vstd::prelude::*;
use crate::config::{GatewayConfig, ModelEntryV};
use crate::errors::{GatewayError, GatewayErrorV};
use crate::providers::{ProviderRegistry, ProviderV};
use crate::table::Table;
use crate::text::{
    concat, concat3, contains_char, ends_with, ends_with_seq, first_index, owned, split_once,
    split_once_seq, str_eq, strip_prefix, strip_prefix_seq, trim, trim_end_matches,
    trim_end_matches_seq, trim_seq,
};
use crate::wire::{WireFormat, wire_parse_spec};

verus! {

broadcast use vstd::string::group_string_axioms;

#[derive(Debug)]
pub struct Deployment {
    pub provider_id: String,
    pub upstream_model: String,
    pub api_base: String,
    pub api_key: String,
    /// Wire format this deployment speaks upstream; picks the outbound codec.
    pub wire: WireFormat,
}

pub struct DeploymentV {
    pub provider_id: Seq<char>,
    pub upstream_model: Seq<char>,
    pub api_base: Seq<char>,
    pub api_key: Seq<char>,
    pub wire: WireFormat,
}

impl View for Deployment {
    type V = DeploymentV;

    open spec fn view(&self) -> DeploymentV {
        DeploymentV {
            provider_id: self.provider_id@,
            upstream_model: self.upstream_model@,
            api_base: self.api_base@,
            api_key: self.api_key@,
            wire: self.wire,
        }
    }
}

/// The upstream URL of a deployment: the API base without trailing slashes,
/// then the endpoint path of its wire format. Gemini puts the model and the
/// streaming variant in the path.
pub open spec fn upstream_url_spec(d: DeploymentV, stream: bool) -> Seq<char> {
    let base = trim_end_matches_seq(d.api_base, "/"@);
    match d.wire {
        WireFormat::AnthropicMessages => base + "/v1/messages"@,
        WireFormat::OpenAiChat => base + "/v1/chat/completions"@,
        WireFormat::OpenAiResponses => base + "/v1/responses"@,
        WireFormat::Gemini => if stream {
            base + "/v1beta/models/"@ + d.upstream_model + ":streamGenerateContent?alt=sse"@
        } else {
            base + "/v1beta/models/"@ + d.upstream_model + ":generateContent"@
        },
    }
}

impl Deployment {
    pub fn copy(&self) -> (r: Deployment)
        ensures
            r@ == self@,
    {
        Deployment {
            provider_id: self.provider_id.clone(),
            upstream_model: self.upstream_model.clone(),
            api_base: self.api_base.clone(),
            api_key: self.api_key.clone(),
            wire: self.wire,
        }
    }

    /// Upstream URL for this deployment's wire format.
    pub fn upstream_url(&self, stream: bool) -> (r: String)
        ensures
            r@ == upstream_url_spec(self@, stream),
    {
        let base = trim_end_matches(self.api_base.as_str(), "/");
        match self.wire {
            WireFormat::AnthropicMessages => concat(base.as_str(), "/v1/messages"),
            WireFormat::OpenAiChat => concat(base.as_str(), "/v1/chat/completions"),
            WireFormat::OpenAiResponses => concat(base.as_str(), "/v1/responses"),
            WireFormat::Gemini => {
                let head = concat3(base.as_str(), "/v1beta/models/", self.upstream_model.as_str());
                if stream {
                    concat(head.as_str(), ":streamGenerateContent?alt=sse")
                } else {
                    concat(head.as_str(), ":generateContent")
                }
            },
        }
    }
}

#[derive(Debug)]
pub struct Route {
    pub deployment: Deployment,
}

impl View for Route {
    type V = DeploymentV;

    open spec fn view(&self) -> DeploymentV {
        self.deployment@
    }
}

impl Route {
    pub fn copy(&self) -> (r: Route)
        ensures
            r@ == self@,
    {
        Route { deployment: self.deployment.copy() }
    }
}

/// The route one model-list entry declares, or the configuration error it
/// holds.
pub open spec fn entry_route(entry: ModelEntryV, providers: Map<Seq<char>, ProviderV>) -> Result<
    DeploymentV,
    GatewayErrorV,
> {
    let model = entry.model;
    match split_once_seq(model, '/') {
        None => Err(
            GatewayErrorV::InvalidConfig(
                "model must include provider prefix (e.g. anthropic/...), got "@ + model,
            ),
        ),
        Some((provider_id, upstream_model)) => if trim_seq(upstream_model).len() == 0 {
            Err(
                GatewayErrorV::InvalidConfig(
                    "model missing name after provider prefix, got "@ + model,
                ),
            )
        } else if !providers.contains_key(provider_id) {
            Err(GatewayErrorV::InvalidConfig("unsupported provider: "@ + provider_id))
        } else {
            let provider = providers[provider_id];
            let wire = match entry.wire_api {
                Some(v) => wire_parse_spec(v),
                None => Some(provider.default_wire),
            };
            match wire {
                None => Err(GatewayErrorV::InvalidConfig("unknown wire_api: "@ + entry.wire_api->0)),
                Some(w) => Ok(
                    DeploymentV {
                        provider_id,
                        upstream_model,
                        api_base: match entry.api_base {
                            Some(b) => b,
                            None => provider.default_api_base,
                        },
                        api_key: match entry.api_key {
                            Some(k) => k,
                            None => Seq::empty(),
                        },
                        wire: w,
                    },
                ),
            }
        },
    }
}

/// Whether an entry declares a wildcard route (`prefix/*` served by
/// `provider/*`).
pub open spec fn is_wildcard(entry: ModelEntryV, d: DeploymentV) -> bool {
    ends_with_seq(entry.model_name, "/*"@) && d.upstream_model == "*"@
}

/// The exact and wildcard route tables the model list builds, or the first
/// configuration error in it.
pub open spec fn routes_spec(
    entries: Seq<ModelEntryV>,
    providers: Map<Seq<char>, ProviderV>,
) -> Result<(Map<Seq<char>, DeploymentV>, Map<Seq<char>, DeploymentV>), GatewayErrorV>
    decreases entries.len(),
{
    if entries.len() == 0 {
        Ok((Map::empty(), Map::empty()))
    } else {
        match routes_spec(entries.drop_last(), providers) {
            Err(e) => Err(e),
            Ok((routes, wildcards)) => {
                let entry = entries.last();
                match entry_route(entry, providers) {
                    Err(e) => Err(e),
                    Ok(d) => if is_wildcard(entry, d) {
                        let prefix = trim_end_matches_seq(entry.model_name, "/*"@);
                        if wildcards.contains_key(prefix) {
                            Err(
                                GatewayErrorV::InvalidConfig(
                                    "duplicate wildcard route for prefix "@ + prefix,
                                ),
                            )
                        } else {
                            Ok((routes, wildcards.insert(prefix, d)))
                        }
                    } else {
                        Ok((routes.insert(entry.model_name, d), wildcards))
                    },
                }
            },
        }
    }
}

/// `model` without the `provider_id/` prefix, if it has it.
pub open spec fn passthrough_spec(model: Seq<char>, provider_id: Seq<char>) -> Seq<char> {
    match strip_prefix_seq(model, provider_id + "/"@) {
        Some(rest) => rest,
        None => model,
    }
}

/// The prefix a model name is matched against wildcard routes by: the part
/// before its first `/`, or all of it.
pub open spec fn model_prefix(model: Seq<char>) -> Seq<char> {
    match split_once_seq(model, '/') {
        Some((p, _)) => p,
        None => model,
    }
}

/// How a model name resolves: an exact route first; otherwise the wildcard
/// route of its prefix, forwarding the name without the provider prefix.
pub open spec fn resolve_spec(
    routes: Map<Seq<char>, DeploymentV>,
    wildcards: Map<Seq<char>, DeploymentV>,
    model: Seq<char>,
) -> Result<DeploymentV, GatewayErrorV> {
    if routes.contains_key(model) {
        Ok(routes[model])
    } else if wildcards.contains_key(model_prefix(model)) {
        let d = wildcards[model_prefix(model)];
        Ok(DeploymentV { upstream_model: passthrough_spec(model, d.provider_id), ..d })
    } else {
        Err(GatewayErrorV::UnknownModel(model))
    }
}

pub struct Router {
    routes: Table<Route>,
    /// Wildcard fallbacks keyed by their public prefix (`anthropic` for an
    /// `anthropic/*` route).
    wildcards: Table<Route>,
}

pub struct RouterV {
    pub routes: Map<Seq<char>, DeploymentV>,
    pub wildcards: Map<Seq<char>, DeploymentV>,
}

impl View for Router {
    type V = RouterV;

    closed spec fn view(&self) -> RouterV {
        RouterV { routes: self.routes@, wildcards: self.wildcards@ }
    }
}

pub open spec fn route_result_view(r: Result<Route, GatewayError>) -> Result<
    DeploymentV,
    GatewayErrorV,
> {
    match r {
        Ok(route) => Ok(route@),
        Err(e) => Err(e@),
    }
}

/// The route one entry declares.
fn entry_to_route(entry: &crate::config::ModelEntry, providers: &ProviderRegistry) -> (r: Result<
    Route,
    GatewayError,
>)
    ensures
        route_result_view(r) == entry_route(entry@, providers@),
{
    let model = entry.litellm_params.model.as_str();
    let (provider_id, upstream_model) = match split_once(model, '/') {
        Some(parts) => parts,
        None => {
            return Err(
                GatewayError::InvalidConfig(
                    concat("model must include provider prefix (e.g. anthropic/...), got ", model),
                ),
            );
        },
    };
    if trim(upstream_model.as_str()).as_str().is_empty() {
        return Err(
            GatewayError::InvalidConfig(
                concat("model missing name after provider prefix, got ", model),
            ),
        );
    }
    let provider = match providers.get(provider_id.as_str()) {
        Some(p) => p,
        None => {
            return Err(
                GatewayError::InvalidConfig(
                    concat("unsupported provider: ", provider_id.as_str()),
                ),
            );
        },
    };
    let wire = match &entry.litellm_params.wire_api {
        Some(value) => match WireFormat::parse(value.as_str()) {
            Some(w) => w,
            None => {
                return Err(
                    GatewayError::InvalidConfig(concat("unknown wire_api: ", value.as_str())),
                );
            },
        },
        None => provider.default_wire,
    };
    let api_base = match &entry.litellm_params.api_base {
        Some(b) => b.clone(),
        None => provider.default_api_base,
    };
    let api_key = match &entry.litellm_params.api_key {
        Some(k) => k.clone(),
        None => String::new(),
    };
    Ok(Route { deployment: Deployment { provider_id, upstream_model, api_base, api_key, wire } })
}

impl Router {
    /// Builds the route tables from the model list. An entry whose public
    /// name ends in `/*` and whose model is `provider/*` is a wildcard for
    /// the name's prefix; any other entry is an exact route (a later one for
    /// the same name replaces an earlier one).
    pub fn from_config(config: &GatewayConfig, providers: &ProviderRegistry) -> (r: Result<
        Router,
        GatewayError,
    >)
        ensures
            match r {
                Ok(router) => routes_spec(config@, providers@) == Ok::<_, GatewayErrorV>(
                    (router@.routes, router@.wildcards),
                ),
                Err(e) => routes_spec(config@, providers@) == Err::<
                    (Map<Seq<char>, DeploymentV>, Map<Seq<char>, DeploymentV>),
                    _,
                >(e@),
            },
    {
        let mut routes: Table<Route> = Table::new();
        let mut wildcards: Table<Route> = Table::new();
        let mut i: usize = 0;
        let ghost entries = config@;
        while i < config.model_list.len()
            invariant
                i <= config.model_list.len(),
                entries == config@,
                entries.len() == config.model_list.len(),
                routes_spec(entries.take(i as int), providers@) == Ok::<_, GatewayErrorV>(
                    (routes@, wildcards@),
                ),
            decreases config.model_list.len() - i,
        {
            let entry = &config.model_list[i];
            assert(entries.take(i + 1).drop_last() =~= entries.take(i as int));
            assert(entries.take(i + 1).last() == entry@);
            let route = match entry_to_route(entry, providers) {
                Ok(route) => route,
                Err(e) => {
                    proof {
                        lemma_routes_spec_err(entries, providers@, (i + 1) as nat);
                    }
                    return Err(e);
                },
            };
            let name = entry.model_name.as_str();
            if ends_with(name, "/*") && str_eq(route.deployment.upstream_model.as_str(), "*") {
                let prefix = trim_end_matches(name, "/*");
                if wildcards.contains_key(prefix.as_str()) {
                    proof {
                        lemma_routes_spec_err(entries, providers@, (i + 1) as nat);
                    }
                    return Err(
                        GatewayError::InvalidConfig(
                            concat("duplicate wildcard route for prefix ", prefix.as_str()),
                        ),
                    );
                }
                wildcards.insert(prefix, route);
            } else {
                routes.insert(entry.model_name.clone(), route);
            }
            i = i + 1;
        }
        assert(entries.take(entries.len() as int) =~= entries);
        Ok(Router { routes, wildcards })
    }

    /// The route serving `model`.
    pub fn resolve(&self, model: &str) -> (r: Result<Route, GatewayError>)
        ensures
            route_result_view(r) == resolve_spec(self@.routes, self@.wildcards, model@),
    {
        match self.routes.get(model) {
            Some(route) => {
                return Ok(route.copy());
            },
            None => {},
        }
        let prefix = match split_once(model, '/') {
            Some((p, _)) => p,
            None => owned(model),
        };
        let route = match self.wildcards.get(prefix.as_str()) {
            Some(r) => r,
            None => {
                return Err(GatewayError::UnknownModel(owned(model)));
            },
        };
        let mut route = route.copy();
        route.deployment.upstream_model = passthrough_model(model, route.deployment.provider_id.as_str());
        Ok(route)
    }

    /// Resolves with inbound-protocol context: a native Gemini request names a
    /// bare model, so on a miss it is retried as `gemini/<model>`.
    pub fn resolve_wire(&self, inbound_wire: WireFormat, model: &str) -> (r: Result<
        Route,
        GatewayError,
    >)
        ensures
            route_result_view(r) == ({
                let first = resolve_spec(self@.routes, self@.wildcards, model@);
                if first is Err && first->Err_0 is UnknownModel && inbound_wire
                    == WireFormat::Gemini && first_index(model@, '/') < 0 {
                    resolve_spec(self@.routes, self@.wildcards, "gemini/"@ + model@)
                } else {
                    first
                }
            }),
    {
        match self.resolve(model) {
            Err(GatewayError::UnknownModel(m)) => {
                if inbound_wire == WireFormat::Gemini && !contains_char(model, '/') {
                    let full = concat("gemini/", model);
                    self.resolve(full.as_str())
                } else {
                    Err(GatewayError::UnknownModel(m))
                }
            },
            other => other,
        }
    }
}

/// Once an entry errs, the whole model list errs with that error.
proof fn lemma_routes_spec_err(entries: Seq<ModelEntryV>, providers: Map<Seq<char>, ProviderV>, n: nat)
    requires
        n <= entries.len(),
        routes_spec(entries.take(n as int), providers) is Err,
    ensures
        routes_spec(entries, providers) == routes_spec(entries.take(n as int), providers),
    decreases entries.len() - n,
{
    if n < entries.len() {
        assert(entries.take((n + 1) as int).drop_last() =~= entries.take(n as int));
        lemma_routes_spec_err(entries, providers, n + 1);
    } else {
        assert(entries.take(n as int) =~= entries);
    }
}

/// `model` without the `provider_id/` prefix, if it has it.
fn passthrough_model(model: &str, provider_id: &str) -> (r: String)
    ensures
        r@ == passthrough_spec(model@, provider_id@),
{
    let prefix = concat(provider_id, "/");
    match strip_prefix(model, prefix.as_str()) {
        Some(rest) => rest,
        None => owned(model),
    }
}

} // verus!
