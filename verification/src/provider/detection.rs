//! Local, deterministic, low-priority endpoint detection suggestions.

use vstd::prelude::*;

use crate::domain::{identifier_rejection, ProviderId};
use crate::error::{validation_is, ValidationError, ValidationReason};
use crate::provider::catalog::ProductId;
use crate::provider::endpoint::target::{
    parse_url_facts, parse_url_host, parsed_url_facts, parsed_url_host, UrlFacts, UrlFactsView,
    UrlHost, UrlHostView,
};
use crate::text::{
    all_ascii, ascii_lowercase, chars_of, ends_with, is_ascii_char, owned, prefix_string,
    str_ends_with, str_eq, to_ascii_lowercase, trim_end_char, trim_end_matching,
};

verus! {

/// Whether endpoint detection may be considered by the provider selector.
#[derive(Clone, Copy, Debug, Default, PartialEq, Eq, Structural)]
pub enum EndpointDetectionPolicy {
    /// Consider reviewed built-in endpoint rules only after every explicit source.
    #[default]
    Enabled,
    /// Do not run endpoint detection.
    Disabled,
}

/// Mathematical form of [`NormalizedEndpointFacts`].
pub struct EndpointFactsView {
    pub scheme: Seq<char>,
    pub host: Seq<char>,
    pub path: Seq<char>,
    pub port: Option<u16>,
    pub ip_literal: bool,
    pub idn: bool,
    pub userinfo_present: bool,
}

/// Sanitized endpoint facts admitted to the detector.
#[derive(Debug)]
pub struct NormalizedEndpointFacts {
    scheme: String,
    host: String,
    path: String,
    port: Option<u16>,
    ip_literal: bool,
    idn: bool,
    userinfo_present: bool,
}

impl View for NormalizedEndpointFacts {
    type V = EndpointFactsView;

    closed spec fn view(&self) -> EndpointFactsView {
        EndpointFactsView {
            scheme: self.scheme@,
            host: self.host@,
            path: self.path@,
            port: self.port,
            ip_literal: self.ip_literal,
            idn: self.idn,
            userinfo_present: self.userinfo_present,
        }
    }
}

impl Clone for NormalizedEndpointFacts {
    fn clone(&self) -> (r: Self)
        ensures
            r@ == self@,
    {
        NormalizedEndpointFacts {
            scheme: self.scheme.clone(),
            host: self.host.clone(),
            path: self.path.clone(),
            port: self.port,
            ip_literal: self.ip_literal,
            idn: self.idn,
            userinfo_present: self.userinfo_present,
        }
    }
}

/// `path` without trailing `/`, keeping a lone `/`.
pub open spec fn trim_trailing_slashes(path: Seq<char>) -> Seq<char>
    decreases path.len(),
{
    if path.len() > 1 && path.last() == '/' {
        trim_trailing_slashes(path.drop_last())
    } else {
        path
    }
}

/// The product path retained for detection: `/` for an empty path, otherwise the path
/// without trailing slashes.
pub open spec fn normalized_path(path: Seq<char>) -> Seq<char> {
    if path.len() == 0 {
        "/"@
    } else {
        trim_trailing_slashes(path)
    }
}

/// A DNS label of `host` starts with the punycode prefix `xn--` at position `i`.
pub open spec fn punycode_label_at(host: Seq<char>, i: int) -> bool {
    &&& 0 <= i
    &&& i + 4 <= host.len()
    &&& (i == 0 || host[i - 1] == '.')
    &&& host[i] == 'x'
    &&& host[i + 1] == 'n'
    &&& host[i + 2] == '-'
    &&& host[i + 3] == '-'
}

/// Some label of `host` is punycode-encoded or holds a non-ASCII character.
pub open spec fn is_internationalized_host(host: Seq<char>) -> bool {
    (exists|i: int| #[trigger] punycode_label_at(host, i)) || !all_ascii(host)
}

/// The normalized host text and whether it is an IP literal.
pub open spec fn normalized_host(host: UrlHostView) -> (Seq<char>, bool) {
    match host {
        UrlHostView::Domain(name) => (ascii_lowercase(trim_end_char(name, '.')), false),
        UrlHostView::Ipv4(_, text) => (text, true),
        UrlHostView::Ipv6(_, text) => (text, true),
    }
}

/// The endpoint facts derived from a parsed URL and its host.
pub open spec fn facts_of_url(url: UrlFactsView, host: UrlHostView) -> EndpointFactsView {
    let (name, ip_literal) = normalized_host(host);
    EndpointFactsView {
        scheme: ascii_lowercase(url.scheme),
        host: name,
        path: normalized_path(url.path),
        port: url.port,
        ip_literal,
        idn: is_internationalized_host(name),
        userinfo_present: url.username.len() > 0 || url.password is Some,
    }
}

/// `r` is what normalizing a parsed URL and its optional host gives.
pub open spec fn facts_result(
    url: UrlFactsView,
    host: Option<UrlHostView>,
    r: Result<NormalizedEndpointFacts, ValidationError>,
) -> bool {
    match host {
        None => r matches Err(e) && validation_is(
            e,
            "endpoint_detection.host"@,
            ValidationReason::InvalidIdentifier,
            "endpoint must contain a host"@,
        ),
        Some(h) => r matches Ok(f) && f@ == facts_of_url(url, h),
    }
}

/// Normalizes a URL path for detection.
pub fn normalize_path(path: &str) -> (r: String)
    ensures
        r@ == normalized_path(path@),
{
    let chars = chars_of(path);
    if chars.len() == 0 {
        return owned("/");
    }
    let mut end: usize = chars.len();
    proof {
        assert(path@.subrange(0, end as int) =~= path@);
    }
    while end > 1 && chars[end - 1] == '/'
        invariant
            chars@ == path@,
            1 <= end <= chars@.len(),
            trim_trailing_slashes(path@) == trim_trailing_slashes(path@.subrange(0, end as int)),
        decreases end,
    {
        proof {
            assert(path@.subrange(0, end as int).drop_last() =~= path@.subrange(0, end - 1));
        }
        end = end - 1;
    }
    prefix_string(&chars, end)
}

fn punycode_label_starts(chars: &Vec<char>, i: usize) -> (r: bool)
    requires
        i < chars@.len(),
    ensures
        r == punycode_label_at(chars@, i as int),
{
    let n = chars.len();
    n >= 4 && i <= n - 4 && (i == 0 || chars[i - 1] == '.') && chars[i] == 'x' && chars[i + 1]
        == 'n' && chars[i + 2] == '-' && chars[i + 3] == '-'
}

/// Whether some label of `host` is punycode-encoded or holds a non-ASCII character.
pub fn internationalized_host(host: &str) -> (r: bool)
    ensures
        r == is_internationalized_host(host@),
{
    let chars = chars_of(host);
    let n = chars.len();
    let mut i: usize = 0;
    while i < n
        invariant
            chars@ == host@,
            n == chars@.len(),
            i <= n,
            forall|j: int| 0 <= j < i ==> !punycode_label_at(host@, j),
            forall|j: int| 0 <= j < i ==> is_ascii_char(#[trigger] host@[j]),
        decreases n - i,
    {
        if (chars[i] as u32) >= 128 {
            return true;
        }
        if punycode_label_starts(&chars, i) {
            return true;
        }
        i = i + 1;
    }
    proof {
        assert forall|j: int| !punycode_label_at(host@, j) by {
            if 0 <= j < n {
                assert(!punycode_label_at(host@, j));
            }
        }
    }
    false
}

impl NormalizedEndpointFacts {
    /// Parses an endpoint and retains no query or fragment values.
    pub fn parse(endpoint: &str) -> (r: Result<Self, ValidationError>)
        ensures
            match parsed_url_facts(endpoint@) {
                None => r matches Err(e) && validation_is(
                    e,
                    "endpoint_detection.endpoint"@,
                    ValidationReason::InvalidIdentifier,
                    "endpoint must be an absolute URL"@,
                ),
                Some(url) => facts_result(url, parsed_url_host(endpoint@), r),
            },
    {
        match parse_url_facts(endpoint) {
            None => Err(
                ValidationError::new(
                    "endpoint_detection.endpoint",
                    ValidationReason::InvalidIdentifier,
                    "endpoint must be an absolute URL",
                ),
            ),
            Some(url) => {
                let host = parse_url_host(endpoint);
                Self::from_url(&url, host)
            },
        }
    }

    /// Normalizes a parsed URL and its host: lowercases the scheme and a domain host, drops
    /// trailing dots of a domain and trailing slashes of the path, and records IP
    /// literals, internationalized hosts and user information.
    pub fn from_url(url: &UrlFacts, host: Option<UrlHost>) -> (r: Result<Self, ValidationError>)
        ensures
            facts_result(
                url@,
                match host {
                    Some(h) => Some(h@),
                    None => None,
                },
                r,
            ),
    {
        let ghost host_view = host;
        let (name, ip_literal) = match host {
            None => {
                return Err(
                    ValidationError::new(
                        "endpoint_detection.host",
                        ValidationReason::InvalidIdentifier,
                        "endpoint must contain a host",
                    ),
                );
            },
            Some(UrlHost::Domain(domain)) => {
                let trimmed = trim_end_matching(domain.as_str(), '.');
                (to_ascii_lowercase(trimmed.as_str()), false)
            },
            Some(UrlHost::Ipv4(_, text)) => (text, true),
            Some(UrlHost::Ipv6(_, text)) => (text, true),
        };
        let idn = internationalized_host(name.as_str());
        let path = normalize_path(url.path.as_str());
        let userinfo_present = url.username.unicode_len() > 0 || url.password.is_some();
        let facts = NormalizedEndpointFacts {
            scheme: to_ascii_lowercase(url.scheme.as_str()),
            host: name,
            path,
            port: url.port,
            ip_literal,
            idn,
            userinfo_present,
        };
        proof {
            assert(facts@ == facts_of_url(url@, host_view.unwrap()@));
        }
        Ok(facts)
    }

    /// Returns the normalized scheme.
    pub fn scheme(&self) -> (r: &str)
        ensures
            r@ == self@.scheme,
    {
        self.scheme.as_str()
    }

    /// Returns the normalized, non-sensitive host fact.
    pub fn host(&self) -> (r: &str)
        ensures
            r@ == self@.host,
    {
        self.host.as_str()
    }

    /// Returns the normalized product path. Query and fragment are never retained.
    pub fn path(&self) -> (r: &str)
        ensures
            r@ == self@.path,
    {
        self.path.as_str()
    }

    /// Returns a non-default explicit port, if present.
    pub fn port(&self) -> (r: Option<u16>)
        ensures
            r == self@.port,
    {
        self.port
    }
}

/// Stable confidence class for a reviewed rule match.
#[derive(Clone, Copy, Debug, PartialEq, Eq, Structural)]
pub enum DetectionConfidence {
    /// Exact hostname and exact product path match.
    Exact,
    /// DNS-label-boundary suffix and exact product path match.
    SuffixSafe,
}

/// Why no endpoint suggestion was produced.
#[derive(Clone, Copy, Debug, PartialEq, Eq, Structural)]
pub enum DetectionUnknownReason {
    /// Detection was explicitly disabled.
    Disabled,
    /// Endpoint facts were absent.
    MissingEndpoint,
    /// IP literals are never assigned to a provider.
    IpLiteral,
    /// IDN/punycode hosts are not present in the reviewed built-in rules.
    InternationalizedHost,
    /// User information invalidates a detection candidate.
    UserInfo,
    /// No reviewed host/product rule matched.
    NoRule,
}

/// Mathematical form of [`DetectionExplanation`].
pub struct ExplanationView {
    pub rule_id: Option<Seq<char>>,
    pub rule_owner: Option<Seq<char>>,
    pub reviewed_at: Option<Seq<char>>,
    pub host: Option<Seq<char>>,
    pub product_path: Option<Seq<char>>,
    pub confidence: Option<DetectionConfidence>,
    pub unknown_reason: Option<DetectionUnknownReason>,
}

/// The view of an optional static text.
pub open spec fn static_text_view(text: Option<&'static str>) -> Option<Seq<char>> {
    match text {
        Some(t) => Some(t@),
        None => None,
    }
}

/// The view of an optional owned text.
pub open spec fn text_view(text: Option<String>) -> Option<Seq<char>> {
    match text {
        Some(t) => Some(t@),
        None => None,
    }
}

/// Value-free explanation for a suggestion or unknown result.
#[derive(Debug)]
pub struct DetectionExplanation {
    rule_id: Option<&'static str>,
    rule_owner: Option<&'static str>,
    reviewed_at: Option<&'static str>,
    host: Option<String>,
    product_path: Option<String>,
    confidence: Option<DetectionConfidence>,
    unknown_reason: Option<DetectionUnknownReason>,
}

impl View for DetectionExplanation {
    type V = ExplanationView;

    closed spec fn view(&self) -> ExplanationView {
        ExplanationView {
            rule_id: static_text_view(self.rule_id),
            rule_owner: static_text_view(self.rule_owner),
            reviewed_at: static_text_view(self.reviewed_at),
            host: text_view(self.host),
            product_path: text_view(self.product_path),
            confidence: self.confidence,
            unknown_reason: self.unknown_reason,
        }
    }
}

impl DetectionExplanation {
    /// Returns the stable rule ID, if matched.
    pub fn rule_id(&self) -> (r: Option<&'static str>)
        ensures
            static_text_view(r) == self@.rule_id,
    {
        self.rule_id
    }

    /// Returns the stable rule owner, if matched.
    pub fn rule_owner(&self) -> (r: Option<&'static str>)
        ensures
            static_text_view(r) == self@.rule_owner,
    {
        self.rule_owner
    }

    /// Returns the rule review date, if matched.
    pub fn reviewed_at(&self) -> (r: Option<&'static str>)
        ensures
            static_text_view(r) == self@.reviewed_at,
    {
        self.reviewed_at
    }

    /// Returns the normalized host fact, never a full URL.
    pub fn host(&self) -> (r: Option<&str>)
        ensures
            match r {
                Some(t) => self@.host == Some(t@),
                None => self@.host is None,
            },
    {
        match &self.host {
            Some(h) => Some(h.as_str()),
            None => None,
        }
    }

    /// Returns the normalized product path without query or fragment.
    pub fn product_path(&self) -> (r: Option<&str>)
        ensures
            match r {
                Some(t) => self@.product_path == Some(t@),
                None => self@.product_path is None,
            },
    {
        match &self.product_path {
            Some(p) => Some(p.as_str()),
            None => None,
        }
    }

    /// Returns match confidence.
    pub fn confidence(&self) -> (r: Option<DetectionConfidence>)
        ensures
            r == self@.confidence,
    {
        self.confidence
    }

    /// Returns the unknown reason, if no rule matched.
    pub fn unknown_reason(&self) -> (r: Option<DetectionUnknownReason>)
        ensures
            r == self@.unknown_reason,
    {
        self.unknown_reason
    }
}

/// Low-authority provider/product suggestion from endpoint facts.
#[derive(Debug)]
pub struct DetectionSuggestion {
    provider_id: ProviderId,
    product_id: ProductId,
    explanation: DetectionExplanation,
}

impl DetectionSuggestion {
    /// The suggested provider.
    pub closed spec fn spec_provider_id(&self) -> Seq<char> {
        self.provider_id@
    }

    /// The suggested product.
    pub closed spec fn spec_product_id(&self) -> Seq<char> {
        self.product_id@
    }

    /// The rule explanation.
    pub closed spec fn spec_explanation(&self) -> ExplanationView {
        self.explanation@
    }

    /// Returns the suggested provider.
    pub fn provider_id(&self) -> (r: &ProviderId)
        ensures
            r@ == self.spec_provider_id(),
    {
        &self.provider_id
    }

    /// Returns the suggested product.
    pub fn product_id(&self) -> (r: &ProductId)
        ensures
            r@ == self.spec_product_id(),
    {
        &self.product_id
    }

    /// Returns the value-free rule explanation.
    pub fn explanation(&self) -> (r: &DetectionExplanation)
        ensures
            r@ == self.spec_explanation(),
    {
        &self.explanation
    }
}

/// Pure detector result. A suggestion has no authority until a factory adopts it.
#[derive(Debug)]
pub enum EndpointDetection {
    /// A reviewed built-in rule matched.
    Suggested(DetectionSuggestion),
    /// Detection remained unknown.
    Unknown(DetectionExplanation),
}

/// Host part of a reviewed detection rule.
#[derive(Clone, Copy)]
pub enum HostRule {
    /// The host must equal this name.
    Exact(&'static str),
    /// The host must equal this name or end with it at a DNS label boundary.
    Suffix(&'static str),
}

/// A reviewed built-in endpoint rule.
#[derive(Clone, Copy)]
pub struct DetectionRule {
    pub id: &'static str,
    pub owner: &'static str,
    pub reviewed_at: &'static str,
    pub host: HostRule,
    pub path: &'static str,
    pub provider_id: &'static str,
    pub product_id: &'static str,
}

/// `host` is `suffix`, or ends with `.` followed by `suffix` with at least one character
/// before that dot.
pub open spec fn label_suffix_match(host: Seq<char>, suffix: Seq<char>) -> bool {
    host == suffix || (ends_with(host, suffix) && host.len() >= suffix.len() + 2 && host[host.len()
        - suffix.len() - 1] == '.')
}

/// Whether `host` equals `suffix` or ends with it at a DNS label boundary.
pub fn suffix_match(host: &str, suffix: &str) -> (r: bool)
    ensures
        r == label_suffix_match(host@, suffix@),
{
    if str_eq(host, suffix) {
        return true;
    }
    if !str_ends_with(host, suffix) {
        return false;
    }
    let h = chars_of(host);
    let s_len = suffix.unicode_len();
    if h.len() - s_len < 2 {
        return false;
    }
    h[h.len() - s_len - 1] == '.'
}

/// How `rule` matches endpoint facts `f`, if it does: the path must be equal, the scheme
/// `https` and no explicit port present.
pub open spec fn rule_match(rule: DetectionRule, f: EndpointFactsView) -> Option<DetectionConfidence> {
    if f.path != rule.path@ || f.scheme != "https"@ || f.port is Some {
        None
    } else {
        match rule.host {
            HostRule::Exact(h) => if f.host == h@ {
                Some(DetectionConfidence::Exact)
            } else {
                None
            },
            HostRule::Suffix(s) => if label_suffix_match(f.host, s@) {
                Some(DetectionConfidence::SuffixSafe)
            } else {
                None
            },
        }
    }
}

impl DetectionRule {
    fn matches(&self, facts: &NormalizedEndpointFacts) -> (r: Option<DetectionConfidence>)
        ensures
            r == rule_match(*self, facts@),
    {
        if !str_eq(facts.path.as_str(), self.path) || !str_eq(facts.scheme.as_str(), "https")
            || facts.port.is_some() {
            return None;
        }
        match self.host {
            HostRule::Exact(host) => if str_eq(facts.host.as_str(), host) {
                Some(DetectionConfidence::Exact)
            } else {
                None
            },
            HostRule::Suffix(suffix) => if suffix_match(facts.host.as_str(), suffix) {
                Some(DetectionConfidence::SuffixSafe)
            } else {
                None
            },
        }
    }
}

/// The reviewed official OpenAI chat-completions rule.
pub open spec fn official_openai_rule() -> DetectionRule {
    DetectionRule {
        id: "builtin.official-openai.chat-completions.v1",
        owner: "philo/provider",
        reviewed_at: "2026-07-24",
        host: HostRule::Exact("api.openai.com"),
        path: "/v1/chat/completions",
        provider_id: "official-openai",
        product_id: "chat-completions",
    }
}

/// The reviewed built-in rules, in evaluation order.
pub open spec fn builtin_rules() -> Seq<DetectionRule> {
    seq![official_openai_rule()]
}

fn official_openai_rule_exec() -> (r: DetectionRule)
    ensures
        r == official_openai_rule(),
{
    DetectionRule {
        id: "builtin.official-openai.chat-completions.v1",
        owner: "philo/provider",
        reviewed_at: "2026-07-24",
        host: HostRule::Exact("api.openai.com"),
        path: "/v1/chat/completions",
        provider_id: "official-openai",
        product_id: "chat-completions",
    }
}

fn builtin_rules_exec() -> (r: Vec<DetectionRule>)
    ensures
        r@ == builtin_rules(),
{
    let mut rules: Vec<DetectionRule> = Vec::new();
    rules.push(official_openai_rule_exec());
    proof {
        assert(rules@ =~= builtin_rules());
    }
    rules
}

/// The first rule at or after index `i` that matches `f` and whose provider and product
/// identifiers are valid, with its confidence.
pub open spec fn first_rule_match(rules: Seq<DetectionRule>, f: EndpointFactsView, i: int) -> Option<
    (DetectionRule, DetectionConfidence),
>
    decreases rules.len() - i,
{
    if i < 0 || i >= rules.len() {
        None
    } else if rule_match(rules[i], f) is Some && identifier_rejection(rules[i].provider_id@) is None
        && identifier_rejection(rules[i].product_id@) is None {
        Some((rules[i], rule_match(rules[i], f).unwrap()))
    } else {
        first_rule_match(rules, f, i + 1)
    }
}

/// Mathematical form of an [`EndpointDetection`].
pub enum DetectionView {
    Suggested { provider_id: Seq<char>, product_id: Seq<char>, explanation: ExplanationView },
    Unknown(ExplanationView),
}

impl View for EndpointDetection {
    type V = DetectionView;

    open spec fn view(&self) -> DetectionView {
        match self {
            EndpointDetection::Suggested(s) => DetectionView::Suggested {
                provider_id: s.spec_provider_id(),
                product_id: s.spec_product_id(),
                explanation: s.spec_explanation(),
            },
            EndpointDetection::Unknown(e) => DetectionView::Unknown(e@),
        }
    }
}

/// The explanation of an unknown result for optional facts.
pub open spec fn unknown_explanation(
    f: Option<EndpointFactsView>,
    reason: DetectionUnknownReason,
) -> ExplanationView {
    ExplanationView {
        rule_id: None,
        rule_owner: None,
        reviewed_at: None,
        host: match f {
            Some(v) => Some(v.host),
            None => None,
        },
        product_path: match f {
            Some(v) => Some(v.path),
            None => None,
        },
        confidence: None,
        unknown_reason: Some(reason),
    }
}

/// What the built-in detector answers for optional endpoint facts.
pub open spec fn detection_of(facts: Option<EndpointFactsView>) -> DetectionView {
    match facts {
        None => DetectionView::Unknown(
            unknown_explanation(None, DetectionUnknownReason::MissingEndpoint),
        ),
        Some(f) => if f.userinfo_present {
            DetectionView::Unknown(unknown_explanation(facts, DetectionUnknownReason::UserInfo))
        } else if f.ip_literal {
            DetectionView::Unknown(unknown_explanation(facts, DetectionUnknownReason::IpLiteral))
        } else if f.idn {
            DetectionView::Unknown(
                unknown_explanation(facts, DetectionUnknownReason::InternationalizedHost),
            )
        } else {
            match first_rule_match(builtin_rules(), f, 0) {
                Some((rule, confidence)) => DetectionView::Suggested {
                    provider_id: rule.provider_id@,
                    product_id: rule.product_id@,
                    explanation: ExplanationView {
                        rule_id: Some(rule.id@),
                        rule_owner: Some(rule.owner@),
                        reviewed_at: Some(rule.reviewed_at@),
                        host: Some(f.host),
                        product_path: Some(f.path),
                        confidence: Some(confidence),
                        unknown_reason: None,
                    },
                },
                None => DetectionView::Unknown(
                    unknown_explanation(facts, DetectionUnknownReason::NoRule),
                ),
            }
        },
    }
}

/// The view of optional facts.
pub open spec fn facts_view(facts: Option<&NormalizedEndpointFacts>) -> Option<EndpointFactsView> {
    match facts {
        Some(f) => Some(f@),
        None => None,
    }
}

fn unknown(
    facts: Option<&NormalizedEndpointFacts>,
    reason: DetectionUnknownReason,
) -> (r: EndpointDetection)
    ensures
        r@ == DetectionView::Unknown(unknown_explanation(facts_view(facts), reason)),
{
    let (host, product_path) = match facts {
        Some(f) => (Some(f.host.clone()), Some(f.path.clone())),
        None => (None, None),
    };
    EndpointDetection::Unknown(
        DetectionExplanation {
            rule_id: None,
            rule_owner: None,
            reviewed_at: None,
            host,
            product_path,
            confidence: None,
            unknown_reason: Some(reason),
        },
    )
}

/// Reviewed built-in endpoint detector. It performs no DNS or HTTP work.
#[derive(Clone, Copy, Debug, Default)]
pub struct EndpointDetector;

impl EndpointDetector {
    /// Applies the explicit enable/disable policy before evaluating rules.
    pub fn detect_with_policy(
        policy: EndpointDetectionPolicy,
        facts: Option<&NormalizedEndpointFacts>,
    ) -> (r: EndpointDetection)
        ensures
            r@ == match policy {
                EndpointDetectionPolicy::Enabled => detection_of(facts_view(facts)),
                EndpointDetectionPolicy::Disabled => DetectionView::Unknown(
                    unknown_explanation(facts_view(facts), DetectionUnknownReason::Disabled),
                ),
            },
    {
        match policy {
            EndpointDetectionPolicy::Enabled => Self::detect(facts),
            EndpointDetectionPolicy::Disabled => unknown(facts, DetectionUnknownReason::Disabled),
        }
    }

    /// Evaluates built-in rules against sanitized endpoint facts.
    pub fn detect(facts: Option<&NormalizedEndpointFacts>) -> (r: EndpointDetection)
        ensures
            r@ == detection_of(facts_view(facts)),
    {
        let found = match facts {
            None => {
                return unknown(None, DetectionUnknownReason::MissingEndpoint);
            },
            Some(f) => f,
        };
        if found.userinfo_present {
            return unknown(Some(found), DetectionUnknownReason::UserInfo);
        }
        if found.ip_literal {
            return unknown(Some(found), DetectionUnknownReason::IpLiteral);
        }
        if found.idn {
            return unknown(Some(found), DetectionUnknownReason::InternationalizedHost);
        }
        let rules = builtin_rules_exec();
        let mut i: usize = 0;
        while i < rules.len()
            invariant
                rules@ == builtin_rules(),
                i <= rules@.len(),
                facts_view(facts) == Some(found@),
                !found@.userinfo_present,
                !found@.ip_literal,
                !found@.idn,
                first_rule_match(builtin_rules(), found@, 0) == first_rule_match(
                    builtin_rules(),
                    found@,
                    i as int,
                ),
            decreases rules.len() - i,
        {
            let rule = rules[i];
            if let Some(confidence) = rule.matches(found) {
                if let (Ok(provider_id), Ok(product_id)) = (
                    ProviderId::new(rule.provider_id),
                    ProductId::new(rule.product_id),
                ) {
                    let explanation = DetectionExplanation {
                        rule_id: Some(rule.id),
                        rule_owner: Some(rule.owner),
                        reviewed_at: Some(rule.reviewed_at),
                        host: Some(found.host.clone()),
                        product_path: Some(found.path.clone()),
                        confidence: Some(confidence),
                        unknown_reason: None,
                    };
                    proof {
                        assert(rule == builtin_rules()[i as int]);
                        assert(identifier_rejection(rule.provider_id@) is None);
                        assert(identifier_rejection(rule.product_id@) is None);
                        assert(first_rule_match(builtin_rules(), found@, i as int) == Some(
                            (rule, confidence),
                        ));
                    }
                    return EndpointDetection::Suggested(
                        DetectionSuggestion { provider_id, product_id, explanation },
                    );
                }
            }
            i = i + 1;
        }
        unknown(Some(found), DetectionUnknownReason::NoRule)
    }
}

proof fn lemma_trim_shape(path: Seq<char>)
    requires
        path.len() >= 1,
    ensures
        ({
            let t = trim_trailing_slashes(path);
            &&& 1 <= t.len() <= path.len()
            &&& t.len() > 1 ==> t.last() != '/'
            &&& t == path.subrange(0, t.len() as int)
            &&& forall|i: int| t.len() <= i < path.len() ==> path[i] == '/'
        }),
    decreases path.len(),
{
    if path.len() > 1 && path.last() == '/' {
        lemma_trim_shape(path.drop_last());
        let t = trim_trailing_slashes(path.drop_last());
        assert(path.drop_last().subrange(0, t.len() as int) =~= path.subrange(0, t.len() as int));
        assert forall|i: int| t.len() <= i < path.len() implies path[i] == '/' by {
            if i < path.len() - 1 {
                assert(path.drop_last()[i] == path[i]);
            }
        }
    } else {
        assert(path.subrange(0, path.len() as int) =~= path);
    }
}

/// The detection path of a URL path is never empty, ends with `/` only when it is exactly
/// `/`, and is the URL path with only trailing slashes removed (`/` for an empty path).
pub proof fn lemma_normalized_path_shape(path: Seq<char>)
    ensures
        ({
            let n = normalized_path(path);
            &&& n.len() >= 1
            &&& n.len() > 1 ==> n.last() != '/'
            &&& path.len() == 0 ==> n == seq!['/']
            &&& path.len() > 0 ==> n.len() <= path.len() && n == path.subrange(0, n.len() as int)
                && forall|i: int| n.len() <= i < path.len() ==> path[i] == '/'
        }),
{
    if path.len() == 0 {
        reveal_strlit("/");
    } else {
        lemma_trim_shape(path);
    }
}

/// A trailing slash never changes the detection path.
pub proof fn lemma_trailing_slash_ignored(path: Seq<char>)
    ensures
        normalized_path(path.push('/')) == normalized_path(path),
{
    reveal_strlit("/");
    assert(path.push('/').drop_last() =~= path);
    if path.len() == 0 {
        assert(path.push('/') =~= seq!['/']);
    }
}

/// Two parsed URLs that differ only by a trailing slash on the path give the same endpoint
/// facts, so detection answers them alike.
pub proof fn lemma_trailing_slash_same_facts(url: UrlFactsView, host: UrlHostView)
    ensures
        facts_of_url(UrlFactsView { path: url.path.push('/'), ..url }, host) == facts_of_url(url, host),
{
    lemma_trailing_slash_ignored(url.path);
}

/// A suggestion only ever comes from an `https` endpoint without an explicit port,
/// user information, IP literal or internationalized host, and explains itself with the
/// facts' host and path at a reviewed rule.
pub proof fn lemma_suggestion_requires_plain_https(f: EndpointFactsView)
    ensures
        detection_of(Some(f)) is Suggested ==> {
            &&& f.scheme == "https"@
            &&& f.port is None
            &&& !f.userinfo_present
            &&& !f.ip_literal
            &&& !f.idn
        },
{
    if detection_of(Some(f)) is Suggested {
        let rules = builtin_rules();
        assert(first_rule_match(rules, f, 1) is None);
        assert(first_rule_match(rules, f, 0) is Some);
        assert(rule_match(rules[0], f) is Some);
    }
}

} // verus!
