//! Value-free diagnostics for a compiled provider call policy.

use vstd::prelude::*;

use crate::domain::{
    ImageWireFormat, MissingToolResultPolicy, ModelBodyWireFormat, PolicySource,
    StreamUsagePolicy, StructuredOutputWireFormat, ThinkingReplayPolicy, ThinkingWireFormat,
    ToolCallIdPolicy, ToolChoiceWireFormat, ToolResultNamePolicy, UnsupportedContentPolicy,
};
use crate::domain::{CapabilityStatus, ModelId, ProtocolId, ProviderId};
use crate::error::LlmError;
use crate::text::{
    concat, lemma_seq_lt_total, lemma_seq_lt_transitive, owned, seq_lt, str_eq, str_lt,
};

use super::auth::{AuthSchemeKind, CredentialSourceKind};
use super::capability::ProviderCapabilities;
use super::catalog::entry::ModelEntry;
use super::catalog::ids::{DeploymentId, ProductId, ProviderModelId};
use super::compat::routing::ResolvedProviderRouting;
use super::catalog::source::{date_checked, opt_str, stale_on, CatalogSourceView};
use super::endpoint::origin::{query_views, Origin, OriginView, ResolvedEndpoint};
use super::endpoint::template::{EndpointPathVariable, QueryDiagnosticView};

use super::headers::{source_rank, HeaderSource};
use super::protocol_contract::{
    CompatField, CompatProfile, FinishReasonCompat, InlineErrorCompat, MaxOutputTokensWireFormat,
    ToolArgumentsCompat, UsageCompat,
};

verus! {

/// Effective support state after applying evidence expiry.
#[derive(Clone, Copy, Debug, PartialEq, Eq, Structural)]
pub enum EffectiveSupportStatus {
    /// Exact support is current and verified.
    Supported,
    /// The exact integration is intentionally unstable or not yet fully verified.
    Experimental,
    /// The exact capability or target is explicitly unavailable.
    Unsupported,
    /// No support conclusion is available.
    Unknown,
    /// A previous declaration exists but its evidence has expired.
    Stale,
}

/// Evidence verification class used by diagnostics and the support matrix.
#[derive(Clone, Copy, Debug, PartialEq, Eq, Structural)]
pub enum EvidenceVerification {
    /// The runtime can only identify its catalog declaration.
    CatalogDeclaration,
    /// Synthetic fixtures and the shared offline contract passed.
    OfflineContractVerified,
    /// A protected exact-model provider run passed.
    RealProviderVerified,
}

/// The closed-enum label of one resolved compatibility leaf: its variant's name.
pub open spec fn compat_label(profile: CompatProfile, field: CompatField) -> Seq<char> {
    let request = profile.spec_request();
    let response = profile.spec_response();
    let history = profile.spec_history();
    match field {
        CompatField::RequestModelBody => match request.model_body {
            ModelBodyWireFormat::Include => "Include"@,
            ModelBodyWireFormat::Omit => "Omit"@,
        },
        CompatField::RequestMaxOutputTokens => match request.max_output_tokens {
            MaxOutputTokensWireFormat::MaxCompletionTokens => "MaxCompletionTokens"@,
            MaxOutputTokensWireFormat::MaxTokens => "MaxTokens"@,
        },
        CompatField::RequestToolChoice => match request.tool_choice {
            ToolChoiceWireFormat::OpenAiNestedFunction => "OpenAiNestedFunction"@,
        },
        CompatField::RequestThinking => match request.thinking {
            ThinkingWireFormat::OpenAiReasoningEffort => "OpenAiReasoningEffort"@,
        },
        CompatField::RequestImage => match request.image {
            ImageWireFormat::OpenAiImageUrl => "OpenAiImageUrl"@,
        },
        CompatField::RequestStreamUsage => match request.stream_usage {
            StreamUsagePolicy::IncludeUsage => "IncludeUsage"@,
            StreamUsagePolicy::Omit => "Omit"@,
        },
        CompatField::RequestStructuredOutput => match request.structured_output {
            StructuredOutputWireFormat::OpenAiResponseFormat => "OpenAiResponseFormat"@,
        },
        CompatField::ResponseFinishReason => match response.finish_reason {
            FinishReasonCompat::StrictOpenAi => "StrictOpenAi"@,
        },
        CompatField::ResponseToolArguments => match response.tool_arguments {
            ToolArgumentsCompat::JsonString => "JsonString"@,
            ToolArgumentsCompat::StringOrObject => "StringOrObject"@,
        },
        CompatField::ResponseUsage => match response.usage {
            UsageCompat::OpenAi => "OpenAi"@,
        },
        CompatField::ResponseInlineError => match response.inline_error {
            InlineErrorCompat::Reject => "Reject"@,
        },
        CompatField::HistoryMissingToolResult => match history.missing_tool_result {
            MissingToolResultPolicy::Reject => "Reject"@,
        },
        CompatField::HistoryUnsupportedContent => match history.unsupported_content {
            UnsupportedContentPolicy::Reject => "Reject"@,
        },
        CompatField::HistoryThinkingReplay => match history.thinking_replay {
            ThinkingReplayPolicy::DropAll => "DropAll"@,
            ThinkingReplayPolicy::SameSourceOnly => "SameSourceOnly"@,
        },
        CompatField::HistoryToolResultName => match history.tool_result_name {
            ToolResultNamePolicy::Omit => "Omit"@,
        },
        CompatField::HistoryToolCallId => match history.tool_call_id {
            ToolCallIdPolicy::OpenAi => "OpenAi"@,
        },
    }
}

/// Returns the label of one resolved compatibility leaf.
pub fn compat_value(profile: &CompatProfile, field: CompatField) -> (r: String)
    ensures
        r@ == compat_label(*profile, field),
{
    let request = profile.request();
    let response = profile.response();
    let history = profile.history();
    let label = match field {
        CompatField::RequestModelBody => match request.model_body {
            ModelBodyWireFormat::Include => "Include",
            ModelBodyWireFormat::Omit => "Omit",
        },
        CompatField::RequestMaxOutputTokens => match request.max_output_tokens {
            MaxOutputTokensWireFormat::MaxCompletionTokens => "MaxCompletionTokens",
            MaxOutputTokensWireFormat::MaxTokens => "MaxTokens",
        },
        CompatField::RequestToolChoice => match request.tool_choice {
            ToolChoiceWireFormat::OpenAiNestedFunction => "OpenAiNestedFunction",
        },
        CompatField::RequestThinking => match request.thinking {
            ThinkingWireFormat::OpenAiReasoningEffort => "OpenAiReasoningEffort",
        },
        CompatField::RequestImage => match request.image {
            ImageWireFormat::OpenAiImageUrl => "OpenAiImageUrl",
        },
        CompatField::RequestStreamUsage => match request.stream_usage {
            StreamUsagePolicy::IncludeUsage => "IncludeUsage",
            StreamUsagePolicy::Omit => "Omit",
        },
        CompatField::RequestStructuredOutput => match request.structured_output {
            StructuredOutputWireFormat::OpenAiResponseFormat => "OpenAiResponseFormat",
        },
        CompatField::ResponseFinishReason => match response.finish_reason {
            FinishReasonCompat::StrictOpenAi => "StrictOpenAi",
        },
        CompatField::ResponseToolArguments => match response.tool_arguments {
            ToolArgumentsCompat::JsonString => "JsonString",
            ToolArgumentsCompat::StringOrObject => "StringOrObject",
        },
        CompatField::ResponseUsage => match response.usage {
            UsageCompat::OpenAi => "OpenAi",
        },
        CompatField::ResponseInlineError => match response.inline_error {
            InlineErrorCompat::Reject => "Reject",
        },
        CompatField::HistoryMissingToolResult => match history.missing_tool_result {
            MissingToolResultPolicy::Reject => "Reject",
        },
        CompatField::HistoryUnsupportedContent => match history.unsupported_content {
            UnsupportedContentPolicy::Reject => "Reject",
        },
        CompatField::HistoryThinkingReplay => match history.thinking_replay {
            ThinkingReplayPolicy::DropAll => "DropAll",
            ThinkingReplayPolicy::SameSourceOnly => "SameSourceOnly",
        },
        CompatField::HistoryToolResultName => match history.tool_result_name {
            ToolResultNamePolicy::Omit => "Omit",
        },
        CompatField::HistoryToolCallId => match history.tool_call_id {
            ToolCallIdPolicy::OpenAi => "OpenAi",
        },
    };
    owned(label)
}

/// Mathematical form of a [`CompatDiagnostic`].
pub struct CompatDiagnosticView {
    pub field: CompatField,
    pub value: Seq<char>,
    pub source: PolicySource,
}

/// One final compatibility decision and its source.
#[derive(Clone, Debug, PartialEq, Eq)]
pub struct CompatDiagnostic {
    field: CompatField,
    value: String,
    source: PolicySource,
}

impl View for CompatDiagnostic {
    type V = CompatDiagnosticView;

    closed spec fn view(&self) -> CompatDiagnosticView {
        CompatDiagnosticView { field: self.field, value: self.value@, source: self.source }
    }
}

/// The diagnostic recorded for one leaf of a resolved profile.
pub open spec fn compat_entry(profile: CompatProfile, field: CompatField) -> CompatDiagnosticView {
    CompatDiagnosticView {
        field,
        value: compat_label(profile, field),
        source: profile.spec_source(field),
    }
}

impl CompatDiagnostic {
    /// Describes one leaf of a resolved profile.
    pub fn describe(profile: &CompatProfile, field: CompatField) -> (r: Self)
        ensures
            r@ == compat_entry(*profile, field),
    {
        CompatDiagnostic {
            field,
            value: compat_value(profile, field),
            source: profile.source(field),
        }
    }

    /// Returns the stable compatibility field.
    pub fn field(&self) -> (r: CompatField)
        ensures
            r == self@.field,
    {
        self.field
    }

    /// Returns a closed-enum decision label, never request content.
    pub fn value(&self) -> (r: &str)
        ensures
            r@ == self@.value,
    {
        self.value.as_str()
    }

    /// Returns the winning policy layer.
    pub fn source(&self) -> (r: PolicySource)
        ensures
            r == self@.source,
    {
        self.source
    }
}

/// Describes every compatibility leaf of a resolved profile, in the stable field order;
/// nothing without a profile.
pub fn compat_diagnostics(profile: Option<&CompatProfile>) -> (r: Vec<CompatDiagnostic>)
    ensures
        match profile {
            Some(p) => r@.len() == 16 && forall|j: int|
                0 <= j < 16 ==> #[trigger] r@[j]@ == compat_entry(*p, CompatField::all_spec()[j]),
            None => r@.len() == 0,
        },
{
    let mut out: Vec<CompatDiagnostic> = Vec::new();
    match profile {
        None => out,
        Some(p) => {
            let fields = CompatField::all();
            let mut i: usize = 0;
            while i < 16
                invariant
                    i <= 16,
                    fields@ == CompatField::all_spec(),
                    out@.len() == i,
                    forall|j: int| 0 <= j < i ==> #[trigger] out@[j]@ == compat_entry(*p, fields@[j]),
                decreases 16 - i,
            {
                let d = CompatDiagnostic::describe(p, fields[i]);
                out.push(d);
                i = i + 1;
            }
            out
        },
    }
}

/// Mathematical form of a [`HeaderDiagnostic`].
pub struct HeaderDiagnosticView {
    pub name: Seq<char>,
    pub source: HeaderSource,
    pub protected: bool,
    pub sensitive: bool,
}

/// One value-free Header owner declaration.
#[derive(Clone, Debug, PartialEq, Eq)]
pub struct HeaderDiagnostic {
    name: String,
    source: HeaderSource,
    protected: bool,
    sensitive: bool,
}

impl View for HeaderDiagnostic {
    type V = HeaderDiagnosticView;

    closed spec fn view(&self) -> HeaderDiagnosticView {
        HeaderDiagnosticView {
            name: self.name@,
            source: self.source,
            protected: self.protected,
            sensitive: self.sensitive,
        }
    }
}

impl HeaderDiagnostic {
    /// Returns the canonical Header name.
    pub fn name(&self) -> (r: &str)
        ensures
            r@ == self@.name,
    {
        self.name.as_str()
    }

    /// Returns the owner layer.
    pub fn source(&self) -> (r: HeaderSource)
        ensures
            r == self@.source,
    {
        self.source
    }

    /// Returns whether ordinary layers are forbidden from modifying the Header.
    pub fn is_protected(&self) -> (r: bool)
        ensures
            r == self@.protected,
    {
        self.protected
    }

    /// Returns whether the omitted value is credential material.
    pub fn is_sensitive(&self) -> (r: bool)
        ensures
            r == self@.sensitive,
    {
        self.sensitive
    }
}

/// The views of a list of Header diagnostics.
pub open spec fn header_views(s: Seq<HeaderDiagnostic>) -> Seq<HeaderDiagnosticView> {
    s.map_values(|h: HeaderDiagnostic| h@)
}

/// The texts of a list of names.
pub open spec fn name_views(names: Seq<String>) -> Seq<Seq<char>> {
    names.map_values(|n: String| n@)
}

/// Diagnostic order: by Header name, then by owner layer.
pub open spec fn header_before(a: HeaderDiagnosticView, b: HeaderDiagnosticView) -> bool {
    seq_lt(a.name, b.name) || (a.name == b.name && source_rank(a.source) < source_rank(b.source))
}

/// Strictly increasing in diagnostic order, so no declaration occurs twice.
pub open spec fn headers_sorted(s: Seq<HeaderDiagnosticView>) -> bool {
    forall|i: int, j: int| 0 <= i < j < s.len() ==> header_before(#[trigger] s[i], #[trigger] s[j])
}

/// `h` is declared by a layer that owns the names `names` with the given flags.
pub open spec fn layer_declares(
    h: HeaderDiagnosticView,
    names: Seq<Seq<char>>,
    source: HeaderSource,
    protected: bool,
    sensitive: bool,
) -> bool {
    &&& h.source == source
    &&& h.protected == protected
    &&& h.sensitive == sensitive
    &&& names.contains(h.name)
}

/// `h` is one of the declarations of a compiled call policy: the three protocol and
/// identity Headers, then the provider, model, dynamic, request and authentication layers.
pub open spec fn declared_header(
    h: HeaderDiagnosticView,
    provider: Seq<Seq<char>>,
    model: Seq<Seq<char>>,
    dynamic: Seq<Seq<char>>,
    request: Seq<Seq<char>>,
    auth: Seq<Seq<char>>,
) -> bool {
    ||| layer_declares(h, seq!["content-type"@, "accept"@], HeaderSource::Protocol, true, false)
    ||| layer_declares(h, seq!["user-agent"@], HeaderSource::ClientIdentity, true, false)
    ||| layer_declares(h, provider, HeaderSource::Provider, true, false)
    ||| layer_declares(h, model, HeaderSource::Model, false, false)
    ||| layer_declares(h, dynamic, HeaderSource::DynamicPolicy, false, false)
    ||| layer_declares(h, request, HeaderSource::Request, false, false)
    ||| layer_declares(h, auth, HeaderSource::Auth, true, true)
}

/// The flags that `header_diagnostics` gives each owner layer.
spec fn layer_flags(source: HeaderSource, protected: bool, sensitive: bool) -> bool {
    &&& protected == !(source == HeaderSource::Model || source == HeaderSource::DynamicPolicy
        || source == HeaderSource::Request)
    &&& sensitive == (source == HeaderSource::Auth)
}

spec fn flags_follow_source(h: HeaderDiagnosticView) -> bool {
    layer_flags(h.source, h.protected, h.sensitive)
}

proof fn lemma_header_before_transitive(
    a: HeaderDiagnosticView,
    b: HeaderDiagnosticView,
    c: HeaderDiagnosticView,
)
    requires
        header_before(a, b),
        header_before(b, c),
    ensures
        header_before(a, c),
{
    if seq_lt(a.name, b.name) && seq_lt(b.name, c.name) {
        lemma_seq_lt_transitive(a.name, b.name, c.name);
    }
}

proof fn lemma_header_unordered_equal(a: HeaderDiagnosticView, b: HeaderDiagnosticView)
    requires
        !header_before(a, b),
        !header_before(b, a),
        flags_follow_source(a),
        flags_follow_source(b),
    ensures
        a == b,
{
    lemma_seq_lt_total(a.name, b.name);
    assert(source_rank(a.source) == source_rank(b.source));
    assert(a.source == b.source);
}

fn header_precedes(a: &HeaderDiagnostic, b: &HeaderDiagnostic) -> (r: bool)
    ensures
        r == header_before(a@, b@),
{
    str_lt(a.name.as_str(), b.name.as_str()) || (str_eq(a.name.as_str(), b.name.as_str())
        && a.source.rank() < b.source.rank())
}

/// Adds one declaration to a sorted list, unless it is already there.
fn insert_header(out: &mut Vec<HeaderDiagnostic>, item: HeaderDiagnostic)
    requires
        headers_sorted(header_views(old(out)@)),
        forall|i: int| 0 <= i < old(out)@.len() ==> flags_follow_source(#[trigger] old(out)@[i]@),
        flags_follow_source(item@),
    ensures
        headers_sorted(header_views(final(out)@)),
        forall|i: int| 0 <= i < final(out)@.len() ==> flags_follow_source(#[trigger] final(out)@[i]@),
        forall|h: HeaderDiagnosticView|
            header_views(final(out)@).contains(h) <==> (header_views(old(out)@).contains(h) || h
                == item@),
{
    let ghost ov = header_views(out@);
    let mut i: usize = 0;
    while i < out.len() && header_precedes(&out[i], &item)
        invariant
            i <= out@.len(),
            out@ == old(out)@,
            ov == header_views(out@),
            forall|j: int| 0 <= j < i ==> header_before(#[trigger] ov[j], item@),
        decreases out@.len() - i,
    {
        i = i + 1;
    }
    if i < out.len() && !header_precedes(&item, &out[i]) {
        proof {
            lemma_header_unordered_equal(ov[i as int], item@);
            assert(ov[i as int] == item@);
            assert forall|h: HeaderDiagnosticView| ov.contains(h) || h == item@ implies ov.contains(
                h,
            ) by {
                if h == item@ {
                    assert(ov[i as int] == h);
                }
            }
        }
        return ;
    }
    let ghost at = i as int;
    out.insert(i, item);
    proof {
        let nv = header_views(out@);
        assert(nv =~= ov.insert(at, item@));
        assert forall|x: int, y: int| 0 <= x < y < nv.len() implies header_before(
            #[trigger] nv[x],
            #[trigger] nv[y],
        ) by {
            if y < at {
            } else if y == at {
            } else if x < at {
                assert(header_before(ov[x], item@));
                assert(header_before(item@, ov[at]));
                lemma_header_before_transitive(ov[x], item@, ov[at]);
                if y - 1 > at {
                    lemma_header_before_transitive(ov[x], ov[at], ov[y - 1]);
                }
            } else if x == at {
                if y - 1 > at {
                    lemma_header_before_transitive(item@, ov[at], ov[y - 1]);
                }
            } else {
            }
        }
        assert forall|h: HeaderDiagnosticView| nv.contains(h) <==> (ov.contains(h) || h
            == item@) by {
            if nv.contains(h) {
                let k = choose|k: int| 0 <= k < nv.len() && nv[k] == h;
                if k < at {
                    assert(ov[k] == h);
                } else if k > at {
                    assert(ov[k - 1] == h);
                }
            }
            if ov.contains(h) {
                let k = choose|k: int| 0 <= k < ov.len() && ov[k] == h;
                if k < at {
                    assert(nv[k] == h);
                } else {
                    assert(nv[k + 1] == h);
                }
            }
            if h == item@ {
                assert(nv[at] == h);
            }
        }
        assert forall|k: int| 0 <= k < out@.len() implies flags_follow_source(#[trigger] out@[k]@) by {
            assert(nv[k] == out@[k]@);
            if k < at {
                assert(ov[k] == nv[k]);
            } else if k > at {
                assert(ov[k - 1] == nv[k]);
            }
        }
    }
}

/// Adds the declarations of one owner layer to a sorted list.
fn insert_layer(
    out: &mut Vec<HeaderDiagnostic>,
    names: &[String],
    source: HeaderSource,
    protected: bool,
    sensitive: bool,
)
    requires
        headers_sorted(header_views(old(out)@)),
        forall|i: int| 0 <= i < old(out)@.len() ==> flags_follow_source(#[trigger] old(out)@[i]@),
        layer_flags(source, protected, sensitive),
    ensures
        headers_sorted(header_views(final(out)@)),
        forall|i: int| 0 <= i < final(out)@.len() ==> flags_follow_source(#[trigger] final(out)@[i]@),
        forall|h: HeaderDiagnosticView|
            header_views(final(out)@).contains(h) <==> (header_views(old(out)@).contains(h)
                || layer_declares(h, name_views(names@), source, protected, sensitive)),
{
    let ghost ov = header_views(out@);
    let mut i: usize = 0;
    while i < names.len()
        invariant
            i <= names@.len(),
            layer_flags(source, protected, sensitive),
            headers_sorted(header_views(out@)),
            forall|k: int| 0 <= k < out@.len() ==> flags_follow_source(#[trigger] out@[k]@),
            forall|h: HeaderDiagnosticView|
                header_views(out@).contains(h) <==> (ov.contains(h) || layer_declares(
                    h,
                    name_views(names@.take(i as int)),
                    source,
                    protected,
                    sensitive,
                )),
        decreases names@.len() - i,
    {
        let name = names[i].clone();
        let item = HeaderDiagnostic { name, source, protected, sensitive };
        assert(item@.name == names@[i as int]@);
        let ghost mid = header_views(out@);
        assert(forall|h: HeaderDiagnosticView| #[trigger] mid.contains(h) <==> (ov.contains(h) || layer_declares(
            h,
            name_views(names@.take(i as int)),
            source,
            protected,
            sensitive,
        )));
        insert_header(out, item);
        proof {
            let before = name_views(names@.take(i as int));
            let after = name_views(names@.take(i + 1));
            assert(after =~= before.push(names@[i as int]@));
            assert forall|t: Seq<char>| after.contains(t) <==> (before.contains(t) || t
                == names@[i as int]@) by {
                if after.contains(t) {
                    let k = choose|k: int| 0 <= k < after.len() && after[k] == t;
                    if k < before.len() {
                        assert(before[k] == t);
                    }
                }
                if before.contains(t) {
                    let k = choose|k: int| 0 <= k < before.len() && before[k] == t;
                    assert(after[k] == t);
                }
                if t == names@[i as int]@ {
                    assert(after[before.len() as int] == t);
                }
            }
            assert forall|h: HeaderDiagnosticView|
                header_views(out@).contains(h) <==> (ov.contains(h) || layer_declares(
                    h,
                    after,
                    source,
                    protected,
                    sensitive,
                )) by {
                assert(header_views(out@).contains(h) <==> (mid.contains(h) || h == item@));
                assert(mid.contains(h) <==> (ov.contains(h) || layer_declares(h, before, source, protected, sensitive)));
                assert(layer_declares(h, before, source, protected, sensitive) ==> layer_declares(h, after, source, protected, sensitive));
                if h == item@ {
                    assert(after.contains(h.name));
                }
                if layer_declares(h, after, source, protected, sensitive) && !layer_declares(
                    h,
                    before,
                    source,
                    protected,
                    sensitive,
                ) {
                    assert(h.name == names@[i as int]@);
                    assert(h == item@);
                }
            }
        }
        i = i + 1;
    }
    proof {
        assert(names@.take(names@.len() as int) =~= names@);
    }
}

/// Every Header declaration of a compiled call policy, with its owner layer and flags and
/// without any value, in diagnostic order and each once.
pub fn header_diagnostics(
    provider: &[String],
    model: &[String],
    dynamic: &[String],
    request: &[String],
    auth: &[String],
) -> (r: Vec<HeaderDiagnostic>)
    ensures
        headers_sorted(header_views(r@)),
        forall|h: HeaderDiagnosticView|
            header_views(r@).contains(h) <==> declared_header(
                h,
                name_views(provider@),
                name_views(model@),
                name_views(dynamic@),
                name_views(request@),
                name_views(auth@),
            ),
{
    let mut out: Vec<HeaderDiagnostic> = Vec::new();
    let fixed = vec![owned("content-type"), owned("accept")];
    let identity = vec![owned("user-agent")];
    proof {
        assert(header_views(out@) =~= Seq::<HeaderDiagnosticView>::empty());
    }
    insert_layer(&mut out, fixed.as_slice(), HeaderSource::Protocol, true, false);
    insert_layer(&mut out, identity.as_slice(), HeaderSource::ClientIdentity, true, false);
    insert_layer(&mut out, provider, HeaderSource::Provider, true, false);
    insert_layer(&mut out, model, HeaderSource::Model, false, false);
    insert_layer(&mut out, dynamic, HeaderSource::DynamicPolicy, false, false);
    insert_layer(&mut out, request, HeaderSource::Request, false, false);
    insert_layer(&mut out, auth, HeaderSource::Auth, true, true);
    proof {
        assert(name_views(fixed@) =~= seq!["content-type"@, "accept"@]);
        assert(name_views(identity@) =~= seq!["user-agent"@]);
    }
    out
}

/// The diagnostic label of a path variable: its variant's name.
pub open spec fn variable_label(variable: EndpointPathVariable) -> Seq<char> {
    match variable {
        EndpointPathVariable::Product => "Product"@,
        EndpointPathVariable::ProviderModel => "ProviderModel"@,
        EndpointPathVariable::Deployment => "Deployment"@,
    }
}

fn variable_label_text(variable: EndpointPathVariable) -> (r: &'static str)
    ensures
        r@ == variable_label(variable),
{
    match variable {
        EndpointPathVariable::Product => "Product",
        EndpointPathVariable::ProviderModel => "ProviderModel",
        EndpointPathVariable::Deployment => "Deployment",
    }
}

/// Texts joined by commas.
pub open spec fn comma_joined(texts: Seq<Seq<char>>) -> Seq<char>
    decreases texts.len(),
{
    if texts.len() == 0 {
        Seq::empty()
    } else if texts.len() == 1 {
        texts[0]
    } else {
        comma_joined(texts.drop_last()) + ","@ + texts.last()
    }
}

/// The fixed URL path, or a marker that names only the template's variables.
pub open spec fn path_shape_of(path: Seq<char>, labels: Seq<Seq<char>>) -> Seq<char> {
    if labels.len() == 0 {
        path
    } else {
        "templated:["@ + comma_joined(labels) + "]"@
    }
}

/// Mathematical form of [`EndpointDiagnostics`].
pub struct EndpointDiagnosticsView {
    pub origin: OriginView,
    pub path_shape: Seq<char>,
    pub path_variables: Seq<Seq<char>>,
    pub query_names: Seq<Seq<char>>,
    pub source: PolicySource,
}

/// Redacted endpoint selection and resolution facts.
#[derive(Clone, Debug)]
pub struct EndpointDiagnostics {
    origin: Origin,
    path_shape: String,
    path_variables: Vec<String>,
    query_names: Vec<String>,
    source: PolicySource,
}

impl View for EndpointDiagnostics {
    type V = EndpointDiagnosticsView;

    closed spec fn view(&self) -> EndpointDiagnosticsView {
        EndpointDiagnosticsView {
            origin: self.origin@,
            path_shape: self.path_shape@,
            path_variables: name_views(self.path_variables@),
            query_names: name_views(self.query_names@),
            source: self.source,
        }
    }
}

impl EndpointDiagnostics {
    /// Returns the normalized scheme/host/effective port.
    pub fn origin(&self) -> (r: &Origin)
        ensures
            r@ == self@.origin,
    {
        &self.origin
    }

    /// Returns a fixed path or a variable-name-only template marker.
    pub fn path_shape(&self) -> (r: &str)
        ensures
            r@ == self@.path_shape,
    {
        self.path_shape.as_str()
    }

    /// Returns typed path-variable labels without resolved values.
    pub fn path_variables(&self) -> (r: &[String])
        ensures
            name_views(r@) == self@.path_variables,
    {
        self.path_variables.as_slice()
    }

    /// Returns registered query names without values.
    pub fn query_names(&self) -> (r: &[String])
        ensures
            name_views(r@) == self@.query_names,
    {
        self.query_names.as_slice()
    }

    /// Returns the endpoint policy source.
    pub fn source(&self) -> (r: PolicySource)
        ensures
            r == self@.source,
    {
        self.source
    }
}

/// What the diagnostics of a resolved endpoint say: its origin, its path shape, the labels
/// of the path variables and the names of the query parameters, never a value.
pub open spec fn endpoint_facts(endpoint: ResolvedEndpoint) -> EndpointDiagnosticsView {
    let labels = endpoint.spec_diagnostics().spec_path_variables().map_values(
        |v: EndpointPathVariable| variable_label(v),
    );
    EndpointDiagnosticsView {
        origin: endpoint.spec_origin(),
        path_shape: path_shape_of(endpoint.spec_url().path, labels),
        path_variables: labels,
        query_names: endpoint.spec_diagnostics().spec_query().map_values(
            |q: QueryDiagnosticView| q.name,
        ),
        source: PolicySource::ProviderProfile,
    }
}

/// Describes a resolved endpoint without any resolved value.
pub fn endpoint_diagnostics(endpoint: &ResolvedEndpoint) -> (r: EndpointDiagnostics)
    ensures
        r@ == endpoint_facts(*endpoint),
{
    let resolution = endpoint.diagnostics();
    let variables = resolution.path_variables();
    let ghost labels = variables@.map_values(|v: EndpointPathVariable| variable_label(v));
    let mut path_variables: Vec<String> = Vec::new();
    let mut shape = owned("templated:[");
    let mut i: usize = 0;
    while i < variables.len()
        invariant
            i <= variables@.len(),
            labels == variables@.map_values(|v: EndpointPathVariable| variable_label(v)),
            path_variables@.len() == i,
            name_views(path_variables@) == labels.take(i as int),
            i > 0 ==> shape@ == "templated:["@ + comma_joined(labels.take(i as int)),
            i == 0 ==> shape@ == "templated:["@,
        decreases variables@.len() - i,
    {
        let label = variable_label_text(variables[i]);
        if i > 0 {
            shape = concat(shape, ",");
        }
        shape = concat(shape, label);
        path_variables.push(owned(label));
        proof {
            let next = labels.take(i + 1);
            assert(next.drop_last() =~= labels.take(i as int));
            assert(next.last() == label@);
            assert(name_views(path_variables@) =~= next);
            if i == 0 {
                assert(comma_joined(next) == label@);
                assert(shape@ =~= "templated:["@ + comma_joined(next));
            } else {
                assert(shape@ =~= "templated:["@ + comma_joined(next));
            }
        }
        i = i + 1;
    }
    proof {
        assert(labels.take(variables@.len() as int) =~= labels);
    }
    let path_shape = if variables.len() == 0 {
        owned(endpoint.url_facts().path.as_str())
    } else {
        concat(shape, "]")
    };
    let query = resolution.query();
    let ghost names = endpoint.spec_diagnostics().spec_query().map_values(
        |q: QueryDiagnosticView| q.name,
    );
    let mut query_names: Vec<String> = Vec::new();
    let mut j: usize = 0;
    while j < query.len()
        invariant
            j <= query@.len(),
            query_views(query@) == endpoint.spec_diagnostics().spec_query(),
            names == endpoint.spec_diagnostics().spec_query().map_values(
                |q: QueryDiagnosticView| q.name,
            ),
            query_names@.len() == j,
            name_views(query_names@) == names.take(j as int),
        decreases query@.len() - j,
    {
        let name = owned(query[j].name());
        query_names.push(name);
        proof {
            assert(query_views(query@)[j as int] == query@[j as int]@);
            assert(names[j as int] == query@[j as int]@.name);
            assert(name_views(query_names@)[j as int] == query_names@[j as int]@);
            assert(name_views(query_names@) =~= names.take(j + 1));
        }
        j = j + 1;
    }
    proof {
        assert(names.take(query@.len() as int) =~= names);
    }
    EndpointDiagnostics {
        origin: endpoint.origin().clone(),
        path_shape,
        path_variables,
        query_names,
        source: PolicySource::ProviderProfile,
    }
}

/// Mathematical form of [`SupportDiagnostics`].
pub struct SupportDiagnosticsView {
    pub status: EffectiveSupportStatus,
    pub verification: EvidenceVerification,
    pub evidence_id: Option<Seq<char>>,
    pub reviewed_at: Option<Seq<char>>,
    pub expires_at: Option<Seq<char>>,
}

/// Exact catalog evidence and freshness facts.
#[derive(Clone, Debug, PartialEq, Eq)]
pub struct SupportDiagnostics {
    status: EffectiveSupportStatus,
    verification: EvidenceVerification,
    evidence_id: Option<String>,
    reviewed_at: Option<String>,
    expires_at: Option<String>,
}

/// The view of an optional owned text.
pub open spec fn text_view(text: Option<String>) -> Option<Seq<char>> {
    match text {
        Some(t) => Some(t@),
        None => None,
    }
}

impl View for SupportDiagnostics {
    type V = SupportDiagnosticsView;

    closed spec fn view(&self) -> SupportDiagnosticsView {
        SupportDiagnosticsView {
            status: self.status,
            verification: self.verification,
            evidence_id: text_view(self.evidence_id),
            reviewed_at: text_view(self.reviewed_at),
            expires_at: text_view(self.expires_at),
        }
    }
}

impl SupportDiagnostics {
    /// Returns the effective five-state support conclusion.
    pub fn status(&self) -> (r: EffectiveSupportStatus)
        ensures
            r == self@.status,
    {
        self.status
    }

    /// Returns what kind of evidence this snapshot itself can prove.
    pub fn verification(&self) -> (r: EvidenceVerification)
        ensures
            r == self@.verification,
    {
        self.verification
    }

    /// Returns the catalog evidence identifier.
    pub fn evidence_id(&self) -> (r: Option<&str>)
        ensures
            opt_str(r) == self@.evidence_id,
    {
        match &self.evidence_id {
            Some(t) => Some(t.as_str()),
            None => None,
        }
    }

    /// Returns the evidence review date.
    pub fn reviewed_at(&self) -> (r: Option<&str>)
        ensures
            opt_str(r) == self@.reviewed_at,
    {
        match &self.reviewed_at {
            Some(t) => Some(t.as_str()),
            None => None,
        }
    }

    /// Returns the evidence expiry date.
    pub fn expires_at(&self) -> (r: Option<&str>)
        ensures
            opt_str(r) == self@.expires_at,
    {
        match &self.expires_at {
            Some(t) => Some(t.as_str()),
            None => None,
        }
    }
}

/// The support conclusion of a catalog declaration: stale once its evidence has expired,
/// its declared status otherwise.
pub open spec fn effective_status(
    source: CatalogSourceView,
    declared: CapabilityStatus,
    as_of: Seq<char>,
) -> EffectiveSupportStatus {
    if stale_on(source, as_of) {
        EffectiveSupportStatus::Stale
    } else {
        match declared {
            CapabilityStatus::Supported => EffectiveSupportStatus::Supported,
            CapabilityStatus::Unsupported => EffectiveSupportStatus::Unsupported,
            CapabilityStatus::Unknown => EffectiveSupportStatus::Unknown,
        }
    }
}

/// The support facts of an exact catalog declaration on a date, or of no declaration.
pub open spec fn support_facts(entry: Option<ModelEntry>, as_of: Seq<char>) -> SupportDiagnosticsView {
    match entry {
        None => SupportDiagnosticsView {
            status: EffectiveSupportStatus::Unknown,
            verification: EvidenceVerification::CatalogDeclaration,
            evidence_id: None,
            reviewed_at: None,
            expires_at: None,
        },
        Some(e) => SupportDiagnosticsView {
            status: effective_status(e@.source, e@.support_status, as_of),
            verification: EvidenceVerification::CatalogDeclaration,
            evidence_id: Some(e@.source.id),
            reviewed_at: Some(e@.source.reviewed_at),
            expires_at: e@.source.expires_at,
        },
    }
}

/// Reports the exact catalog support and evidence freshness on `as_of`.
///
/// With a declaration, `as_of` must be an ISO-8601 calendar date.
pub fn support_diagnostics(entry: Option<&ModelEntry>, as_of: &str) -> (r: Result<
    SupportDiagnostics,
    LlmError,
>)
    ensures
        match entry {
            None => r matches Ok(d) && d@ == support_facts(None, as_of@),
            Some(e) => {
                &&& date_checked(as_of@, r)
                &&& r matches Ok(d) ==> d@ == support_facts(Some(*e), as_of@)
            },
        },
{
    match entry {
        None => Ok(
            SupportDiagnostics {
                status: EffectiveSupportStatus::Unknown,
                verification: EvidenceVerification::CatalogDeclaration,
                evidence_id: None,
                reviewed_at: None,
                expires_at: None,
            },
        ),
        Some(e) => {
            let stale = match e.source.is_stale_on(as_of) {
                Ok(b) => b,
                Err(err) => return Err(err),
            };
            let status = if stale {
                EffectiveSupportStatus::Stale
            } else {
                match e.support_status {
                    CapabilityStatus::Supported => EffectiveSupportStatus::Supported,
                    CapabilityStatus::Unsupported => EffectiveSupportStatus::Unsupported,
                    CapabilityStatus::Unknown => EffectiveSupportStatus::Unknown,
                }
            };
            let expires_at = match e.source.expires_at() {
                Some(t) => Some(owned(t)),
                None => None,
            };
            Ok(
                SupportDiagnostics {
                    status,
                    verification: EvidenceVerification::CatalogDeclaration,
                    evidence_id: Some(owned(e.source.id().as_str())),
                    reviewed_at: Some(owned(e.source.reviewed_at())),
                    expires_at,
                },
            )
        },
    }
}

/// Mathematical form of [`AuthDiagnostics`].
pub struct AuthDiagnosticsView {
    pub scheme: AuthSchemeKind,
    pub credential_source: CredentialSourceKind,
    pub protected_headers: Seq<Seq<char>>,
}

/// Authentication diagnostics that never resolve a credential.
#[derive(Clone, Debug, PartialEq, Eq)]
pub struct AuthDiagnostics {
    scheme: AuthSchemeKind,
    credential_source: CredentialSourceKind,
    protected_headers: Vec<String>,
}

impl View for AuthDiagnostics {
    type V = AuthDiagnosticsView;

    closed spec fn view(&self) -> AuthDiagnosticsView {
        AuthDiagnosticsView {
            scheme: self.scheme,
            credential_source: self.credential_source,
            protected_headers: name_views(self.protected_headers@),
        }
    }
}

impl AuthDiagnostics {
    /// Records an authentication shape and the names of the Headers it owns.
    pub fn new(
        scheme: AuthSchemeKind,
        credential_source: CredentialSourceKind,
        protected_headers: Vec<String>,
    ) -> (r: Self)
        ensures
            r@ == (AuthDiagnosticsView {
                scheme,
                credential_source,
                protected_headers: name_views(protected_headers@),
            }),
    {
        AuthDiagnostics { scheme, credential_source, protected_headers }
    }

    /// Returns the declared authentication shape.
    pub fn scheme(&self) -> (r: AuthSchemeKind)
        ensures
            r == self@.scheme,
    {
        self.scheme
    }

    /// Returns the credential source class.
    pub fn credential_source(&self) -> (r: CredentialSourceKind)
        ensures
            r == self@.credential_source,
    {
        self.credential_source
    }

    /// Returns protected Header names without their values.
    pub fn protected_headers(&self) -> (r: &[String])
        ensures
            name_views(r@) == self@.protected_headers,
    {
        self.protected_headers.as_slice()
    }
}

/// Everything a compiled call policy contributes to its diagnostics.
pub struct DiagnosticsInput<'a> {
    /// Selected provider.
    pub provider_id: &'a ProviderId,
    /// Selected product.
    pub product_id: &'a ProductId,
    /// Selected protocol.
    pub protocol_id: &'a ProtocolId,
    /// Caller-facing exact model.
    pub domain_model: &'a ModelId,
    /// Provider-owned exact model.
    pub provider_model: &'a ProviderModelId,
    /// Optional deployment mapping.
    pub deployment_id: Option<&'a DeploymentId>,
    /// Exact model value used by the wire encoder.
    pub wire_model: &'a ModelId,
    /// Exact model capability snapshot.
    pub capabilities: ProviderCapabilities,
    /// Resolved compatibility policy, where the protocol has one.
    pub compat: Option<&'a CompatProfile>,
    /// Resolved provider-scoped routing, where the provider has one.
    pub provider_routing: Option<&'a ResolvedProviderRouting>,
    /// Resolved endpoint.
    pub endpoint: &'a ResolvedEndpoint,
    /// Exact catalog declaration, if any.
    pub entry: Option<&'a ModelEntry>,
    /// Calendar date on which evidence freshness is judged.
    pub as_of: &'a str,
    /// Authentication shape.
    pub auth_scheme: AuthSchemeKind,
    /// Credential source class.
    pub credential_source: CredentialSourceKind,
    /// Authentication Header names.
    pub auth_headers: Vec<String>,
    /// Provider profile Header names.
    pub provider_headers: Vec<String>,
    /// Model profile Header names.
    pub model_headers: Vec<String>,
    /// Dynamic policy Header names.
    pub dynamic_headers: Vec<String>,
    /// Request Header names.
    pub request_headers: Vec<String>,
    /// Labels of enabled protocol options.
    pub protocol_option_labels: Vec<String>,
}

/// Mathematical form of [`ProviderDiagnostics`].
pub struct ProviderDiagnosticsView {
    pub provider_id: Seq<char>,
    pub product_id: Seq<char>,
    pub protocol_id: Seq<char>,
    pub domain_model: Seq<char>,
    pub provider_model: Seq<char>,
    pub deployment_id: Option<Seq<char>>,
    pub wire_model: Seq<char>,
    pub endpoint: EndpointDiagnosticsView,
    pub auth: AuthDiagnosticsView,
    pub headers: Seq<HeaderDiagnosticView>,
    pub capabilities: ProviderCapabilities,
    pub compat: Seq<CompatDiagnosticView>,
    pub typed_extensions: Seq<Seq<char>>,
    pub support: SupportDiagnosticsView,
}

/// Value-free explanation of one compiled provider call policy.
pub struct ProviderDiagnostics {
    provider_id: ProviderId,
    product_id: ProductId,
    protocol_id: ProtocolId,
    domain_model: ModelId,
    provider_model: ProviderModelId,
    deployment_id: Option<DeploymentId>,
    wire_model: ModelId,
    endpoint: EndpointDiagnostics,
    auth: AuthDiagnostics,
    headers: Vec<HeaderDiagnostic>,
    capabilities: ProviderCapabilities,
    compat: Vec<CompatDiagnostic>,
    typed_extensions: Vec<String>,
    support: SupportDiagnostics,
}

/// The view of an optional deployment.
pub open spec fn deployment_view(d: Option<DeploymentId>) -> Option<Seq<char>> {
    match d {
        Some(d) => Some(d@),
        None => None,
    }
}

/// The compatibility diagnostics of an optional profile.
pub open spec fn compat_facts(profile: Option<CompatProfile>) -> Seq<CompatDiagnosticView> {
    match profile {
        Some(p) => CompatField::all_spec().map_values(|f: CompatField| compat_entry(p, f)),
        None => Seq::empty(),
    }
}

/// The enabled typed extensions: provider routing first, then the protocol options.
pub open spec fn extension_labels(routing: bool, options: Seq<Seq<char>>) -> Seq<Seq<char>> {
    if routing {
        seq!["openrouter-routing"@] + options
    } else {
        options
    }
}

impl View for ProviderDiagnostics {
    type V = ProviderDiagnosticsView;

    closed spec fn view(&self) -> ProviderDiagnosticsView {
        ProviderDiagnosticsView {
            provider_id: self.provider_id@,
            product_id: self.product_id@,
            protocol_id: self.protocol_id@,
            domain_model: self.domain_model@,
            provider_model: self.provider_model@,
            deployment_id: deployment_view(self.deployment_id),
            wire_model: self.wire_model@,
            endpoint: self.endpoint@,
            auth: self.auth@,
            headers: header_views(self.headers@),
            capabilities: self.capabilities,
            compat: self.compat@.map_values(|d: CompatDiagnostic| d@),
            typed_extensions: name_views(self.typed_extensions@),
            support: self.support@,
        }
    }
}

impl ProviderDiagnostics {
    /// Returns the selected provider.
    pub fn provider_id(&self) -> (r: &ProviderId)
        ensures
            r@ == self@.provider_id,
    {
        &self.provider_id
    }

    /// Returns the selected product.
    pub fn product_id(&self) -> (r: &ProductId)
        ensures
            r@ == self@.product_id,
    {
        &self.product_id
    }

    /// Returns the selected protocol.
    pub fn protocol_id(&self) -> (r: &ProtocolId)
        ensures
            r@ == self@.protocol_id,
    {
        &self.protocol_id
    }

    /// Returns the caller-facing exact model.
    pub fn domain_model(&self) -> (r: &ModelId)
        ensures
            r@ == self@.domain_model,
    {
        &self.domain_model
    }

    /// Returns the provider-owned exact model.
    pub fn provider_model(&self) -> (r: &ProviderModelId)
        ensures
            r@ == self@.provider_model,
    {
        &self.provider_model
    }

    /// Returns the optional deployment mapping.
    pub fn deployment_id(&self) -> (r: Option<&DeploymentId>)
        ensures
            match r {
                Some(d) => self@.deployment_id == Some(d@),
                None => self@.deployment_id is None,
            },
    {
        match &self.deployment_id {
            Some(d) => Some(d),
            None => None,
        }
    }

    /// Returns the exact model value used by the private wire encoder.
    pub fn wire_model(&self) -> (r: &ModelId)
        ensures
            r@ == self@.wire_model,
    {
        &self.wire_model
    }

    /// Returns redacted endpoint facts.
    pub fn endpoint(&self) -> (r: &EndpointDiagnostics)
        ensures
            r@ == self@.endpoint,
    {
        &self.endpoint
    }

    /// Returns value-free authentication facts.
    pub fn auth(&self) -> (r: &AuthDiagnostics)
        ensures
            r@ == self@.auth,
    {
        &self.auth
    }

    /// Returns Header names, owners, and protection flags without values.
    pub fn headers(&self) -> (r: &[HeaderDiagnostic])
        ensures
            header_views(r@) == self@.headers,
    {
        self.headers.as_slice()
    }

    /// Returns the exact model capability snapshot.
    pub fn capabilities(&self) -> (r: &ProviderCapabilities)
        ensures
            *r == self@.capabilities,
    {
        &self.capabilities
    }

    /// Returns every final typed compatibility decision and provenance.
    pub fn compat(&self) -> (r: &[CompatDiagnostic])
        ensures
            r@.map_values(|d: CompatDiagnostic| d@) == self@.compat,
    {
        self.compat.as_slice()
    }

    /// Returns enabled provider-scoped typed extension labels.
    pub fn typed_extensions(&self) -> (r: &[String])
        ensures
            name_views(r@) == self@.typed_extensions,
    {
        self.typed_extensions.as_slice()
    }

    /// Returns exact catalog support and evidence freshness.
    pub fn support(&self) -> (r: &SupportDiagnostics)
        ensures
            r@ == self@.support,
    {
        &self.support
    }

    /// Explains a compiled call policy without any credential, Header value or resolved
    /// endpoint value.
    ///
    /// Fails only when there is a catalog declaration and `as_of` is not a calendar date.
    pub fn compile(input: DiagnosticsInput<'_>) -> (r: Result<Self, LlmError>)
        ensures
            match input.entry {
                None => r is Ok,
                Some(e) => date_checked(input.as_of@, r),
            },
            r matches Ok(d) ==> {
                &&& d@.provider_id == input.provider_id@
                &&& d@.product_id == input.product_id@
                &&& d@.protocol_id == input.protocol_id@
                &&& d@.domain_model == input.domain_model@
                &&& d@.provider_model == input.provider_model@
                &&& d@.deployment_id == match input.deployment_id {
                    Some(x) => Some(x@),
                    None => None::<Seq<char>>,
                }
                &&& d@.wire_model == input.wire_model@
                &&& d@.endpoint == endpoint_facts(*input.endpoint)
                &&& d@.auth == (AuthDiagnosticsView {
                    scheme: input.auth_scheme,
                    credential_source: input.credential_source,
                    protected_headers: name_views(input.auth_headers@),
                })
                &&& headers_sorted(d@.headers)
                &&& forall|h: HeaderDiagnosticView|
                    d@.headers.contains(h) <==> declared_header(
                        h,
                        name_views(input.provider_headers@),
                        name_views(input.model_headers@),
                        name_views(input.dynamic_headers@),
                        name_views(input.request_headers@),
                        name_views(input.auth_headers@),
                    )
                &&& d@.capabilities == input.capabilities
                &&& d@.compat == compat_facts(
                    match input.compat {
                        Some(p) => Some(*p),
                        None => None,
                    },
                )
                &&& d@.typed_extensions == extension_labels(
                    input.provider_routing is Some,
                    name_views(input.protocol_option_labels@),
                )
                &&& d@.support == support_facts(
                    match input.entry {
                        Some(e) => Some(*e),
                        None => None,
                    },
                    input.as_of@,
                )
            },
    {
        let endpoint = endpoint_diagnostics(input.endpoint);
        let headers = header_diagnostics(
            input.provider_headers.as_slice(),
            input.model_headers.as_slice(),
            input.dynamic_headers.as_slice(),
            input.request_headers.as_slice(),
            input.auth_headers.as_slice(),
        );
        let support = match support_diagnostics(input.entry, input.as_of) {
            Ok(s) => s,
            Err(e) => return Err(e),
        };
        let compat = compat_diagnostics(input.compat);
        proof {
            if let Some(p) = input.compat {
                assert(compat@.map_values(|d: CompatDiagnostic| d@) =~= compat_facts(Some(*p)));
            } else {
                assert(compat@.map_values(|d: CompatDiagnostic| d@) =~= compat_facts(None));
            }
        }
        let mut typed_extensions: Vec<String> = Vec::new();
        if input.provider_routing.is_some() {
            typed_extensions.push(owned("openrouter-routing"));
        }
        let ghost first = name_views(typed_extensions@);
        let labels = input.protocol_option_labels;
        let mut i: usize = 0;
        while i < labels.len()
            invariant
                i <= labels@.len(),
                typed_extensions@.len() == first.len() + i,
                name_views(typed_extensions@) == first + name_views(labels@).take(i as int),
            decreases labels@.len() - i,
        {
            let label = labels[i].clone();
            assert(label@ == labels@[i as int]@);
            let ghost prev = name_views(typed_extensions@);
            typed_extensions.push(label);
            proof {
                assert(name_views(labels@)[i as int] == labels@[i as int]@);
                assert(name_views(typed_extensions@) =~= prev.push(label@));
                assert(name_views(labels@).take(i + 1) =~= name_views(labels@).take(i as int).push(label@));
                assert(name_views(typed_extensions@) =~= first + name_views(labels@).take(i + 1));
            }
            i = i + 1;
        }
        proof {
            assert(name_views(labels@).take(labels@.len() as int) =~= name_views(labels@));
            if input.provider_routing is Some {
                assert(first =~= seq!["openrouter-routing"@]);
            } else {
                assert(first =~= Seq::<Seq<char>>::empty());
            }
            assert(name_views(typed_extensions@) =~= extension_labels(
                input.provider_routing is Some,
                name_views(labels@),
            ));
        }
        let deployment_id = match input.deployment_id {
            Some(d) => Some(d.clone()),
            None => None,
        };
        Ok(
            ProviderDiagnostics {
                provider_id: input.provider_id.clone(),
                product_id: input.product_id.clone(),
                protocol_id: input.protocol_id.clone(),
                domain_model: input.domain_model.clone(),
                provider_model: input.provider_model.clone(),
                deployment_id,
                wire_model: input.wire_model.clone(),
                endpoint,
                auth: AuthDiagnostics::new(
                    input.auth_scheme,
                    input.credential_source,
                    input.auth_headers,
                ),
                headers,
                capabilities: input.capabilities,
                compat,
                typed_extensions,
                support,
            },
        )
    }
}

} // verus!
