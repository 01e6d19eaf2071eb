//! Endpoint configuration and the single resolver implementation.

use vstd::prelude::*;

use crate::error::{configuration, is_configuration, LlmError};

use super::origin::{origin_of, EndpointResolutionDiagnostics, OriginView, ResolvedEndpoint};
use super::policy::{policy_rejection, EndpointMode, EndpointNetworkPolicy};
use super::target::{
    clear_url_query, decode_query, decoded_query, pairs_view, parse_url_facts, parse_url_host,
    parsed_url_facts, parsed_url_host, replace_url_path, set_url_query_pairs, url_with_path,
    url_with_query_pairs, url_without_query, UrlFacts, UrlFactsView, UrlHost, UrlHostView,
};
use super::template::{
    assigned_pairs, base_path_start, base_query_error, forbidden_override, operation_diagnostic,
    pair_names, render_from, template_parse, values_view, EndpointPathVariable, EndpointQuery,
    EndpointTemplate, EndpointValues, EndpointValuesView, QueryDiagnosticView, SegmentView,
};

verus! {

/// Mutually exclusive endpoint configuration inputs, each holding a parsed base URL.
pub enum EndpointConfig {
    /// Resolve an endpoint by appending a fixed path to a base URL.
    BaseAndPath {
        /// Base API URL, including any prefix such as `/v1`.
        base_url: UrlFacts,
        /// Endpoint path appended to the base path.
        endpoint_path: String,
    },
    /// Resolve a restricted typed template and registered query plan.
    Template {
        /// Base API URL, including a proxy prefix and only registered query keys.
        base_url: UrlFacts,
        /// Restricted path template.
        template: EndpointTemplate,
        /// Explicit query merge plan.
        query: EndpointQuery,
    },
    /// Use an already absolute endpoint.
    Absolute {
        /// The endpoint URL.
        url: UrlFacts,
        /// Its host.
        host: Option<UrlHost>,
    },
}

/// The parts of a resolved endpoint: its URL, host, used path variables and query
/// diagnostics.
pub type ResolvedParts = (
    UrlFactsView,
    Option<UrlHostView>,
    Seq<EndpointPathVariable>,
    Seq<QueryDiagnosticView>,
);

/// The view of an optional host.
pub open spec fn host_of(host: Option<UrlHost>) -> Option<UrlHostView> {
    match host {
        Some(h) => Some(h@),
        None => None,
    }
}

/// The URL obtained by replacing the path of `base` with the rendered template.
pub open spec fn url_after_path(
    base: UrlFactsView,
    template: Seq<SegmentView>,
    values: Option<EndpointValuesView>,
) -> Result<(Seq<char>, Seq<EndpointPathVariable>), Seq<char>> {
    match render_from(base_path_start(base.path), Seq::empty(), template, values) {
        Err(message) => Err(message),
        Ok((path, used)) => match url_with_path(base.serialization, path) {
            None => Err("invalid base URL"@),
            Some(text) => Ok((text, used)),
        },
    }
}

/// The query text of a URL, empty when it has none.
pub open spec fn query_text(url: UrlFactsView) -> Seq<char> {
    match url.query {
        Some(q) => q,
        None => Seq::empty(),
    }
}

/// The names of decoded query pairs.
pub open spec fn decoded_names(pairs: Seq<(Seq<char>, Seq<char>)>) -> Seq<Seq<char>> {
    pairs.map_values(|p: (Seq<char>, Seq<char>)| p.0)
}

/// The URL text after the registered query plan replaces the query of `text`.
pub open spec fn url_after_query(text: Seq<char>, query: EndpointQuery) -> Result<
    (Seq<char>, Seq<QueryDiagnosticView>),
    Seq<char>,
> {
    match parsed_url_facts(text) {
        None => Err("invalid base URL"@),
        Some(url) => {
            let names = decoded_names(decoded_query(query_text(url)));
            match base_query_error(query@, names, Set::empty()) {
                Some(message) => Err(message),
                None => if forbidden_override(query.spec_operations(), names) {
                    Err("endpoint query override is forbidden"@)
                } else {
                    let pairs = assigned_pairs(query.spec_operations());
                    let next = if pairs.len() == 0 {
                        url_without_query(text)
                    } else {
                        url_with_query_pairs(text, pairs)
                    };
                    match next {
                        None => Err("invalid base URL"@),
                        Some(t) => Ok(
                            (
                                t,
                                query.spec_operations().map_values(
                                    |o: (String, super::template::QueryOperation)|
                                        operation_diagnostic(o.0@, o.1@),
                                ),
                            ),
                        ),
                    }
                },
            }
        },
    }
}

/// A URL text parsed into resolved parts, with the given diagnostics.
pub open spec fn parts_of_text(
    text: Seq<char>,
    used: Seq<EndpointPathVariable>,
    query: Seq<QueryDiagnosticView>,
) -> Result<ResolvedParts, Seq<char>> {
    match parsed_url_facts(text) {
        None => Err("invalid base URL"@),
        Some(url) => Ok((url, parsed_url_host(text), used, query)),
    }
}

/// The unvalidated endpoint a configuration resolves to.
pub open spec fn config_parts(config: EndpointConfig, values: Option<EndpointValuesView>) -> Result<
    ResolvedParts,
    Seq<char>,
> {
    match config {
        EndpointConfig::Absolute { url, host } => if url@.query is Some {
            Err("absolute endpoint query is forbidden"@)
        } else {
            Ok((url@, host_of(host), Seq::empty(), Seq::empty()))
        },
        EndpointConfig::BaseAndPath { base_url, endpoint_path } => if base_url@.query is Some {
            Err("fixed base endpoint query is forbidden"@)
        } else {
            match template_parse(endpoint_path@) {
                Err(message) => Err(message),
                Ok(template) => match url_after_path(base_url@, template, None) {
                    Err(message) => Err(message),
                    Ok((text, used)) => parts_of_text(text, used, Seq::empty()),
                },
            }
        },
        EndpointConfig::Template { base_url, template, query } => match url_after_path(
            base_url@,
            template@,
            values,
        ) {
            Err(message) => Err(message),
            Ok((text, used)) => match url_after_query(text, query) {
                Err(message) => Err(message),
                Ok((final_text, diagnostics)) => parts_of_text(final_text, used, diagnostics),
            },
        },
    }
}

/// What resolving a configuration under a network mode gives: the validated parts and
/// origin, or the error message.
pub open spec fn resolution_of(
    config: EndpointConfig,
    mode: EndpointMode,
    values: Option<EndpointValuesView>,
) -> Result<(ResolvedParts, OriginView), Seq<char>> {
    match config_parts(config, values) {
        Err(message) => Err(message),
        Ok(parts) => match policy_rejection(mode, Set::empty(), parts.0, parts.1) {
            Some(message) => Err(message),
            None => match origin_of(parts.0, parts.1) {
                Err(message) => Err(message),
                Ok(origin) => Ok((parts, origin)),
            },
        },
    }
}

/// `r` reports the resolution `outcome`.
pub open spec fn resolution_reported(
    outcome: Result<(ResolvedParts, OriginView), Seq<char>>,
    r: Result<ResolvedEndpoint, LlmError>,
) -> bool {
    match outcome {
        Err(message) => r matches Err(e) && is_configuration(e, message),
        Ok((parts, origin)) => r matches Ok(endpoint) && endpoint.spec_url() == parts.0 && Some(
            endpoint.spec_host(),
        ) == parts.1 && endpoint.spec_origin() == origin
            && endpoint.spec_diagnostics().spec_path_variables() == parts.2
            && endpoint.spec_diagnostics().spec_query() == parts.3,
    }
}

fn parse_base(text: &str, message: &str) -> (r: Result<UrlFacts, LlmError>)
    ensures
        match parsed_url_facts(text@) {
            None => r matches Err(e) && is_configuration(e, message@),
            Some(url) => r matches Ok(f) && f@ == url,
        },
{
    match parse_url_facts(text) {
        Some(url) => Ok(url),
        None => Err(configuration(message)),
    }
}

impl EndpointConfig {
    /// Parses a base URL and stores a fixed path for later validation.
    pub fn base_and_path(base_url: &str, endpoint_path: &str) -> (r: Result<Self, LlmError>)
        ensures
            match parsed_url_facts(base_url@) {
                None => r matches Err(e) && is_configuration(e, "invalid base URL"@),
                Some(url) => r matches Ok(EndpointConfig::BaseAndPath { base_url: b, endpoint_path: p })
                    && b@ == url && p@ == endpoint_path@,
            },
    {
        let base_url = parse_base(base_url, "invalid base URL")?;
        Ok(EndpointConfig::BaseAndPath { base_url, endpoint_path: endpoint_path.to_owned() })
    }

    /// Parses a base URL and stores a restricted target-aware template.
    pub fn base_and_template(base_url: &str, template: EndpointTemplate, query: EndpointQuery) -> (r:
        Result<Self, LlmError>)
        ensures
            match parsed_url_facts(base_url@) {
                None => r matches Err(e) && is_configuration(e, "invalid base URL"@),
                Some(url) => r matches Ok(EndpointConfig::Template { base_url: b, template: t, query: q })
                    && b@ == url && t == template && q == query,
            },
    {
        let base_url = parse_base(base_url, "invalid base URL")?;
        Ok(EndpointConfig::Template { base_url, template, query })
    }

    /// Parses an absolute endpoint for later validation.
    pub fn absolute(endpoint: &str) -> (r: Result<Self, LlmError>)
        ensures
            match parsed_url_facts(endpoint@) {
                None => r matches Err(e) && is_configuration(e, "invalid absolute endpoint"@),
                Some(url) => r matches Ok(EndpointConfig::Absolute { url: u, host: h }) && u@ == url
                    && host_of(h) == parsed_url_host(endpoint@),
            },
    {
        let url = parse_base(endpoint, "invalid absolute endpoint")?;
        let host = parse_url_host(endpoint);
        Ok(EndpointConfig::Absolute { url, host })
    }

    /// Whether resolution needs catalog mapping values.
    pub fn requires_mapping(&self) -> (r: bool)
        ensures
            r == (self matches EndpointConfig::Template { template, .. } && exists|i: int|
                0 <= i < template@.len() && #[trigger] template@[i] is Variable),
    {
        match self {
            EndpointConfig::Template { template, .. } => template.requires_values(),
            _ => false,
        }
    }

    fn parts_from_text(
        text: String,
        used: Vec<EndpointPathVariable>,
        query: Vec<super::template::EndpointQueryDiagnostic>,
    ) -> (r: Result<(UrlFacts, Option<UrlHost>, EndpointResolutionDiagnostics), LlmError>)
        ensures
            match parts_of_text(text@, used@, super::origin::query_views(query@)) {
                Err(message) => r matches Err(e) && is_configuration(e, message),
                Ok(parts) => r matches Ok(out) && out.0@ == parts.0 && host_of(out.1) == parts.1
                    && out.2.spec_path_variables() == parts.2 && out.2.spec_query() == parts.3,
            },
    {
        let url = parse_base(text.as_str(), "invalid base URL")?;
        let host = parse_url_host(text.as_str());
        Ok((url, host, EndpointResolutionDiagnostics::new(used, query)))
    }

    fn path_url(base_url: &UrlFacts, template: &EndpointTemplate, values: Option<EndpointValues>) -> (r:
        Result<(String, Vec<EndpointPathVariable>), LlmError>)
        ensures
            match url_after_path(base_url@, template@, values_view(values)) {
                Err(message) => r matches Err(e) && is_configuration(e, message),
                Ok((text, used)) => r matches Ok(out) && out.0@ == text && out.1@ == used,
            },
    {
        let (path, used) = template.render(base_url.path.as_str(), values)?;
        match replace_url_path(base_url.serialization.as_str(), path.as_str()) {
            Some(text) => Ok((text, used)),
            None => Err(configuration("invalid base URL")),
        }
    }

    fn query_url(text: String, query: &EndpointQuery) -> (r: Result<
        (String, Vec<super::template::EndpointQueryDiagnostic>),
        LlmError,
    >)
        ensures
            match url_after_query(text@, *query) {
                Err(message) => r matches Err(e) && is_configuration(e, message),
                Ok((t, diagnostics)) => r matches Ok(out) && out.0@ == t
                    && super::origin::query_views(out.1@) == diagnostics,
            },
    {
        let url = parse_base(text.as_str(), "invalid base URL")?;
        let query_text = match &url.query {
            Some(q) => q.as_str(),
            None => "",
        };
        proof {
            reveal_strlit("");
            assert(query_text@ == super::config::query_text(url@));
        }
        let pairs = decode_query(query_text);
        proof {
            assert(pair_names(pairs@) =~= decoded_names(pairs_view(pairs@)));
        }
        let (resolved, diagnostics) = query.resolve_pairs(&pairs)?;
        let next = if resolved.len() == 0 {
            clear_url_query(text.as_str())
        } else {
            set_url_query_pairs(text.as_str(), &resolved)
        };
        proof {
            assert(super::origin::query_views(diagnostics@) =~= query.spec_operations().map_values(
                |o: (String, super::template::QueryOperation)| operation_diagnostic(o.0@, o.1@),
            ));
        }
        match next {
            Some(t) => Ok((t, diagnostics)),
            None => Err(configuration("invalid base URL")),
        }
    }

    fn parts(&self, values: Option<EndpointValues>) -> (r: Result<
        (UrlFacts, Option<UrlHost>, EndpointResolutionDiagnostics),
        LlmError,
    >)
        ensures
            match config_parts(*self, values_view(values)) {
                Err(message) => r matches Err(e) && is_configuration(e, message),
                Ok(parts) => r matches Ok(out) && out.0@ == parts.0 && host_of(out.1) == parts.1
                    && out.2.spec_path_variables() == parts.2 && out.2.spec_query() == parts.3,
            },
    {
        match self {
            EndpointConfig::Absolute { url, host } => {
                if url.query.is_some() {
                    return Err(configuration("absolute endpoint query is forbidden"));
                }
                let host = match host {
                    Some(h) => Some(h.clone()),
                    None => None,
                };
                let diagnostics = EndpointResolutionDiagnostics::default();
                Ok((url.clone(), host, diagnostics))
            },
            EndpointConfig::BaseAndPath { base_url, endpoint_path } => {
                if base_url.query.is_some() {
                    return Err(configuration("fixed base endpoint query is forbidden"));
                }
                let template = EndpointTemplate::parse(endpoint_path.as_str())?;
                let (text, used) = Self::path_url(base_url, &template, None)?;
                Self::parts_from_text(text, used, Vec::new())
            },
            EndpointConfig::Template { base_url, template, query } => {
                let (text, used) = Self::path_url(base_url, template, values)?;
                let (final_text, diagnostics) = Self::query_url(text, query)?;
                Self::parts_from_text(final_text, used, diagnostics)
            },
        }
    }

    /// Resolves the endpoint under a network mode: builds the URL, validates it against the
    /// mode's policy and extracts its origin.
    pub fn resolve(&self, mode: EndpointMode, values: Option<EndpointValues>) -> (r: Result<
        ResolvedEndpoint,
        LlmError,
    >)
        ensures
            resolution_reported(resolution_of(*self, mode, values_view(values)), r),
    {
        let (url, host, diagnostics) = self.parts(values)?;
        let policy = EndpointNetworkPolicy::for_mode(mode);
        match &host {
            Some(h) => policy.validate(&url, Some(h))?,
            None => policy.validate(&url, None)?,
        }
        ResolvedEndpoint::new(url, host, diagnostics)
    }
}

/// Resolves and validates the official endpoint input.
pub fn resolve_official(config: &EndpointConfig) -> (r: Result<ResolvedEndpoint, LlmError>)
    ensures
        resolution_reported(resolution_of(*config, EndpointMode::Production, None), r),
{
    config.resolve(EndpointMode::Production, None)
}

/// Resolves an official target-aware endpoint.
pub fn resolve_official_for(config: &EndpointConfig, values: EndpointValues) -> (r: Result<
    ResolvedEndpoint,
    LlmError,
>)
    ensures
        resolution_reported(resolution_of(*config, EndpointMode::Production, Some(values@)), r),
{
    config.resolve(EndpointMode::Production, Some(values))
}

/// Resolves a localhost-only test endpoint.
pub fn resolve_test_only(config: &EndpointConfig) -> (r: Result<ResolvedEndpoint, LlmError>)
    ensures
        resolution_reported(resolution_of(*config, EndpointMode::TestOnly, None), r),
{
    config.resolve(EndpointMode::TestOnly, None)
}

/// Resolves a localhost-only target-aware test endpoint.
pub fn resolve_test_only_for(config: &EndpointConfig, values: EndpointValues) -> (r: Result<
    ResolvedEndpoint,
    LlmError,
>)
    ensures
        resolution_reported(resolution_of(*config, EndpointMode::TestOnly, Some(values@)), r),
{
    config.resolve(EndpointMode::TestOnly, Some(values))
}

} // verus!
