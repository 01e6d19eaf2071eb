//! Normalized origins and immutable resolved endpoints.

use vstd::prelude::*;
use vstd::std_specs::cmp::PartialEqSpecImpl;

use crate::error::{configuration, is_configuration, LlmError};
use crate::text::{ascii_lowercase, to_ascii_lowercase};

use super::target::{UrlFacts, UrlFactsView, UrlHost, UrlHostView};
use super::template::{EndpointPathVariable, EndpointQueryDiagnostic, QueryDiagnosticView};

verus! {

/// Mathematical form of an [`Origin`]: scheme, host and effective port.
pub type OriginView = (Seq<char>, Seq<char>, u16);

/// Scheme, host, and effective port used for same-origin checks.
#[derive(Debug)]
pub struct Origin {
    scheme: String,
    host: String,
    port: u16,
}

impl View for Origin {
    type V = OriginView;

    closed spec fn view(&self) -> OriginView {
        (self.scheme@, self.host@, self.port)
    }
}

impl Clone for Origin {
    fn clone(&self) -> (r: Self)
        ensures
            r@ == self@,
    {
        Origin { scheme: self.scheme.clone(), host: self.host.clone(), port: self.port }
    }
}

impl PartialEq for Origin {
    fn eq(&self, other: &Self) -> (r: bool) {
        self.scheme == other.scheme && self.host == other.host && self.port == other.port
    }
}

impl PartialEqSpecImpl for Origin {
    open spec fn obeys_eq_spec() -> bool {
        true
    }

    open spec fn eq_spec(&self, other: &Self) -> bool {
        self@ == other@
    }
}

/// The normalized text of a host: a lower-case domain, or an address's standard text.
pub open spec fn host_text(host: UrlHostView) -> Seq<char> {
    match host {
        UrlHostView::Domain(name) => ascii_lowercase(name),
        UrlHostView::Ipv4(_, text) => text,
        UrlHostView::Ipv6(_, text) => text,
    }
}

/// The normalized text of a host.
pub fn host_to_string(host: &UrlHost) -> (r: String)
    ensures
        r@ == host_text(host@),
{
    match host {
        UrlHost::Domain(name) => to_ascii_lowercase(name.as_str()),
        UrlHost::Ipv4(_, text) => text.clone(),
        UrlHost::Ipv6(_, text) => text.clone(),
    }
}

/// What extracting an origin from a parsed URL and its optional host gives.
pub open spec fn origin_of(url: UrlFactsView, host: Option<UrlHostView>) -> Result<
    OriginView,
    Seq<char>,
> {
    match host {
        None => Err("endpoint must include a host"@),
        Some(h) => match url.effective_port {
            None => Err("endpoint scheme has no effective port"@),
            Some(port) => Ok((ascii_lowercase(url.scheme), host_text(h), port)),
        },
    }
}

/// The view of an optional host.
pub open spec fn host_view(host: Option<&UrlHost>) -> Option<UrlHostView> {
    match host {
        Some(h) => Some(h@),
        None => None,
    }
}

impl Origin {
    /// Creates an origin from its parts, lower-casing scheme and host.
    pub fn new(scheme: &str, host: &str, port: u16) -> (r: Self)
        ensures
            r@ == (ascii_lowercase(scheme@), ascii_lowercase(host@), port),
    {
        Origin { scheme: to_ascii_lowercase(scheme), host: to_ascii_lowercase(host), port }
    }

    /// Extracts a normalized origin from a parsed URL and its host.
    pub fn from_url(url: &UrlFacts, host: Option<&UrlHost>) -> (r: Result<Self, LlmError>)
        ensures
            match origin_of(url@, host_view(host)) {
                Ok(o) => r matches Ok(origin) && origin@ == o,
                Err(message) => r matches Err(e) && is_configuration(e, message),
            },
    {
        let host = match host {
            Some(h) => h,
            None => {
                return Err(configuration("endpoint must include a host"));
            },
        };
        let port = match url.effective_port {
            Some(p) => p,
            None => {
                return Err(configuration("endpoint scheme has no effective port"));
            },
        };
        Ok(
            Origin {
                scheme: to_ascii_lowercase(url.scheme.as_str()),
                host: host_to_string(host),
                port,
            },
        )
    }

    /// Returns the normalized scheme.
    pub fn scheme(&self) -> (r: &str)
        ensures
            r@ == self@.0,
    {
        self.scheme.as_str()
    }

    /// Returns the normalized host.
    pub fn host(&self) -> (r: &str)
        ensures
            r@ == self@.1,
    {
        self.host.as_str()
    }

    /// Returns the effective port.
    pub fn port(&self) -> (r: u16)
        ensures
            r == self@.2,
    {
        self.port
    }
}

/// Value-free trace of how one endpoint was resolved.
#[derive(Debug)]
pub struct EndpointResolutionDiagnostics {
    path_variables: Vec<EndpointPathVariable>,
    query: Vec<EndpointQueryDiagnostic>,
}

/// The views of query diagnostics.
pub open spec fn query_views(query: Seq<EndpointQueryDiagnostic>) -> Seq<QueryDiagnosticView> {
    query.map_values(|d: EndpointQueryDiagnostic| d@)
}

impl EndpointResolutionDiagnostics {
    /// The typed path variables used.
    pub closed spec fn spec_path_variables(&self) -> Seq<EndpointPathVariable> {
        self.path_variables@
    }

    /// The query action/source records.
    pub closed spec fn spec_query(&self) -> Seq<QueryDiagnosticView> {
        query_views(self.query@)
    }

    /// Records the path variables and query actions of one resolution.
    pub fn new(
        path_variables: Vec<EndpointPathVariable>,
        query: Vec<EndpointQueryDiagnostic>,
    ) -> (r: Self)
        ensures
            r.spec_path_variables() == path_variables@,
            r.spec_query() == query_views(query@),
    {
        EndpointResolutionDiagnostics { path_variables, query }
    }

    /// Returns the typed path variables used, without their values.
    pub fn path_variables(&self) -> (r: &[EndpointPathVariable])
        ensures
            r@ == self.spec_path_variables(),
    {
        self.path_variables.as_slice()
    }

    /// Returns value-free query action/source records.
    pub fn query(&self) -> (r: &[EndpointQueryDiagnostic])
        ensures
            query_views(r@) == self.spec_query(),
    {
        self.query.as_slice()
    }
}

impl Default for EndpointResolutionDiagnostics {
    fn default() -> (r: Self)
        ensures
            r.spec_path_variables() == Seq::<EndpointPathVariable>::empty(),
            r.spec_query() == Seq::<QueryDiagnosticView>::empty(),
    {
        let r = EndpointResolutionDiagnostics { path_variables: Vec::new(), query: Vec::new() };
        assert(r.spec_query() =~= Seq::<QueryDiagnosticView>::empty());
        r
    }
}

/// A fully validated endpoint: the parsed URL, its host and origin, and how it was
/// resolved.
pub struct ResolvedEndpoint {
    url: UrlFacts,
    host: UrlHost,
    origin: Origin,
    diagnostics: EndpointResolutionDiagnostics,
}

impl ResolvedEndpoint {
    /// The parsed URL.
    pub closed spec fn spec_url(&self) -> UrlFactsView {
        self.url@
    }

    /// The URL's host.
    pub closed spec fn spec_host(&self) -> UrlHostView {
        self.host@
    }

    /// The URL's origin.
    pub closed spec fn spec_origin(&self) -> OriginView {
        self.origin@
    }

    /// How the endpoint was resolved.
    pub closed spec fn spec_diagnostics(&self) -> EndpointResolutionDiagnostics {
        self.diagnostics
    }

    /// Builds an endpoint from a parsed URL, extracting its origin.
    pub fn new(
        url: UrlFacts,
        host: Option<UrlHost>,
        diagnostics: EndpointResolutionDiagnostics,
    ) -> (r: Result<Self, LlmError>)
        ensures
            match origin_of(
                url@,
                match host {
                    Some(h) => Some(h@),
                    None => None,
                },
            ) {
                Ok(o) => r matches Ok(e) && e.spec_origin() == o && e.spec_url() == url@
                    && e.spec_diagnostics() == diagnostics && Some(
                    e.spec_host(),
                ) == (match host {
                    Some(h) => Some(h@),
                    None => None,
                }),
                Err(message) => r matches Err(e) && is_configuration(e, message),
            },
    {
        let origin = match &host {
            Some(h) => Origin::from_url(&url, Some(h))?,
            None => Origin::from_url(&url, None)?,
        };
        match host {
            Some(h) => Ok(ResolvedEndpoint { url, host: h, origin, diagnostics }),
            None => Err(configuration("endpoint must include a host")),
        }
    }

    /// Returns the final URL.
    pub fn url(&self) -> (r: &str)
        ensures
            r@ == self.spec_url().serialization,
    {
        self.url.serialization.as_str()
    }

    /// Returns the parsed URL.
    pub fn url_facts(&self) -> (r: &UrlFacts)
        ensures
            r@ == self.spec_url(),
    {
        &self.url
    }

    /// Returns the URL's host.
    pub fn host(&self) -> (r: &UrlHost)
        ensures
            r@ == self.spec_host(),
    {
        &self.host
    }

    /// Returns the final origin.
    pub fn origin(&self) -> (r: &Origin)
        ensures
            r@ == self.spec_origin(),
    {
        &self.origin
    }

    /// Returns value-free endpoint resolution diagnostics.
    pub fn diagnostics(&self) -> (r: &EndpointResolutionDiagnostics)
        ensures
            *r == self.spec_diagnostics(),
    {
        &self.diagnostics
    }
}

} // verus!
