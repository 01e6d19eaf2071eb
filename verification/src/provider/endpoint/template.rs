//! Restricted path variables and deterministic registered-query operations.

use vstd::prelude::*;

use crate::error::{configuration, is_configuration, LlmError};
use crate::keyed::{
    keyed_map, lemma_keyed_absent, lemma_keyed_entry, lemma_keyed_insert, name_position,
    names_sorted,
};
use crate::provider::catalog::{DeploymentId, ProductId, ProviderModelId};
use crate::provider::endpoint::target::pairs_view;
use crate::text::{
    all_chars_in, all_in_set, ascii_lowercase, byte_len_exceeds_256, chars_of, contains_seq,
    encode_path_segment, has_char, owned, percent_encoded, split_char, split_on, str_contains,
    str_eq, str_has_char, string_from_chars, to_ascii_lowercase, trim_end_char, trim_end_matching,
    trim_start_char, trim_start_matching, utf8_len, CharSet, push_chars,
};

verus! {

/// Closed set of variables accepted by [`EndpointTemplate`].
#[derive(Clone, Copy, Debug, PartialEq, Eq, Structural)]
pub enum EndpointPathVariable {
    /// Provider product identifier.
    Product,
    /// Provider-owned model identifier.
    ProviderModel,
    /// Deployment identifier; resolution fails when absent.
    Deployment,
}

/// Mathematical form of [`EndpointValues`]: product, provider model and deployment.
pub struct EndpointValuesView {
    pub product_id: Seq<char>,
    pub provider_model_id: Seq<char>,
    pub deployment_id: Option<Seq<char>>,
}

/// Typed values available while resolving one model target.
#[derive(Clone, Copy, Debug)]
pub struct EndpointValues<'a> {
    product_id: &'a ProductId,
    provider_model_id: &'a ProviderModelId,
    deployment_id: Option<&'a DeploymentId>,
}

impl<'a> View for EndpointValues<'a> {
    type V = EndpointValuesView;

    closed spec fn view(&self) -> EndpointValuesView {
        EndpointValuesView {
            product_id: self.product_id@,
            provider_model_id: self.provider_model_id@,
            deployment_id: match self.deployment_id {
                Some(d) => Some(d@),
                None => None,
            },
        }
    }
}

/// The text a variable takes from `values`, if it has one.
pub open spec fn variable_text(values: EndpointValuesView, variable: EndpointPathVariable) -> Option<
    Seq<char>,
> {
    match variable {
        EndpointPathVariable::Product => Some(values.product_id),
        EndpointPathVariable::ProviderModel => Some(values.provider_model_id),
        EndpointPathVariable::Deployment => values.deployment_id,
    }
}

impl<'a> EndpointValues<'a> {
    /// Creates values from a compiled catalog mapping.
    pub fn new(
        product_id: &'a ProductId,
        provider_model_id: &'a ProviderModelId,
        deployment_id: Option<&'a DeploymentId>,
    ) -> (r: Self)
        ensures
            r@ == (EndpointValuesView {
                product_id: product_id@,
                provider_model_id: provider_model_id@,
                deployment_id: match deployment_id {
                    Some(d) => Some(d@),
                    None => None,
                },
            }),
    {
        EndpointValues { product_id, provider_model_id, deployment_id }
    }

    fn value(self, variable: EndpointPathVariable) -> (r: Result<&'a str, LlmError>)
        ensures
            match variable_text(self@, variable) {
                Some(text) => r matches Ok(s) && s@ == text,
                None => r matches Err(e) && is_configuration(
                    e,
                    "endpoint template requires a deployment id"@,
                ),
            },
    {
        match variable {
            EndpointPathVariable::Product => Ok(self.product_id.as_str()),
            EndpointPathVariable::ProviderModel => Ok(self.provider_model_id.as_str()),
            EndpointPathVariable::Deployment => match self.deployment_id {
                Some(d) => Ok(d.as_str()),
                None => Err(configuration("endpoint template requires a deployment id")),
            },
        }
    }
}

/// One parsed path segment.
#[derive(Debug)]
pub enum PathSegment {
    /// A literal path segment.
    Literal(String),
    /// A variable replaced by a catalog value.
    Variable(EndpointPathVariable),
}

/// Mathematical form of a path segment.
pub enum SegmentView {
    Literal(Seq<char>),
    Variable(EndpointPathVariable),
}

impl View for PathSegment {
    type V = SegmentView;

    closed spec fn view(&self) -> SegmentView {
        match self {
            PathSegment::Literal(text) => SegmentView::Literal(text@),
            PathSegment::Variable(v) => SegmentView::Variable(*v),
        }
    }
}

impl Clone for PathSegment {
    fn clone(&self) -> (r: Self)
        ensures
            r@ == self@,
    {
        match self {
            PathSegment::Literal(text) => PathSegment::Literal(text.clone()),
            PathSegment::Variable(v) => PathSegment::Variable(*v),
        }
    }
}

/// How one piece of a template path parses.
pub open spec fn segment_parse(piece: Seq<char>) -> Result<SegmentView, Seq<char>> {
    if piece.len() == 0 || piece == "."@ || piece == ".."@ {
        Err("endpoint template has an unsafe path segment"@)
    } else if piece == "{product}"@ {
        Ok(SegmentView::Variable(EndpointPathVariable::Product))
    } else if piece == "{provider_model}"@ {
        Ok(SegmentView::Variable(EndpointPathVariable::ProviderModel))
    } else if piece == "{deployment}"@ {
        Ok(SegmentView::Variable(EndpointPathVariable::Deployment))
    } else if has_char(piece, '{') || has_char(piece, '}') || has_char(piece, '%') {
        Err("endpoint template contains an unknown or encoded segment"@)
    } else {
        Ok(SegmentView::Literal(piece))
    }
}

/// How a list of pieces parses: the first failing piece decides the error.
pub open spec fn segments_parse(pieces: Seq<Seq<char>>) -> Result<Seq<SegmentView>, Seq<char>>
    decreases pieces.len(),
{
    if pieces.len() == 0 {
        Ok(Seq::empty())
    } else {
        match segment_parse(pieces[0]) {
            Err(message) => Err(message),
            Ok(first) => match segments_parse(pieces.drop_first()) {
                Err(message) => Err(message),
                Ok(rest) => Ok(seq![first] + rest),
            },
        }
    }
}

/// How a relative path template parses.
pub open spec fn template_parse(value: Seq<char>) -> Result<Seq<SegmentView>, Seq<char>> {
    if value.len() == 0 {
        Err("endpoint template must not be empty"@)
    } else if has_char(value, '?') || has_char(value, '#') {
        Err("endpoint template must not contain query or fragment"@)
    } else {
        let path = trim_end_char(trim_start_char(value, '/'), '/');
        if path.len() == 0 {
            Err("endpoint template must contain a path"@)
        } else {
            segments_parse(split_char(path, '/'))
        }
    }
}

fn parse_segment(piece: &str) -> (r: Result<PathSegment, LlmError>)
    ensures
        match segment_parse(piece@) {
            Ok(s) => r matches Ok(p) && p@ == s,
            Err(message) => r matches Err(e) && is_configuration(e, message),
        },
{
    if piece.unicode_len() == 0 || str_eq(piece, ".") || str_eq(piece, "..") {
        return Err(configuration("endpoint template has an unsafe path segment"));
    }
    if str_eq(piece, "{product}") {
        return Ok(PathSegment::Variable(EndpointPathVariable::Product));
    }
    if str_eq(piece, "{provider_model}") {
        return Ok(PathSegment::Variable(EndpointPathVariable::ProviderModel));
    }
    if str_eq(piece, "{deployment}") {
        return Ok(PathSegment::Variable(EndpointPathVariable::Deployment));
    }
    if str_has_char(piece, '{') || str_has_char(piece, '}') || str_has_char(piece, '%') {
        return Err(configuration("endpoint template contains an unknown or encoded segment"));
    }
    Ok(PathSegment::Literal(owned(piece)))
}

/// A path-only template with a closed variable vocabulary.
#[derive(Debug)]
pub struct EndpointTemplate {
    segments: Vec<PathSegment>,
}

/// The views of parsed segments.
pub open spec fn segment_views(segments: Seq<PathSegment>) -> Seq<SegmentView> {
    segments.map_values(|s: PathSegment| s@)
}

impl View for EndpointTemplate {
    type V = Seq<SegmentView>;

    closed spec fn view(&self) -> Seq<SegmentView> {
        segment_views(self.segments@)
    }
}

impl Clone for EndpointTemplate {
    fn clone(&self) -> (r: Self)
        ensures
            r@ == self@,
    {
        let mut segments: Vec<PathSegment> = Vec::new();
        let mut i: usize = 0;
        while i < self.segments.len()
            invariant
                i <= self.segments@.len(),
                segment_views(segments@) == segment_views(self.segments@).take(i as int),
            decreases self.segments.len() - i,
        {
            let ghost before = segments@;
            let segment = self.segments[i].clone();
            segments.push(segment);
            proof {
                assert(segments@ == before.push(segment));
                assert(segment_views(segments@) =~= segment_views(before).push(segment@));
                assert(segment_views(segments@) =~= segment_views(self.segments@).take(i + 1));
            }
            i = i + 1;
        }
        proof {
            assert(segment_views(self.segments@).take(i as int) =~= segment_views(
                self.segments@,
            ));
        }
        EndpointTemplate { segments }
    }
}

/// The normalized start of a rendered path: the base path without trailing slashes,
/// starting with `/`.
pub open spec fn base_path_start(base: Seq<char>) -> Seq<char> {
    let trimmed = trim_end_char(base, '/');
    if trimmed.len() == 0 {
        seq!['/']
    } else if trimmed[0] != '/' {
        seq!['/'] + trimmed
    } else {
        trimmed
    }
}

/// `path` followed by a separating `/` unless it already ends with one.
pub open spec fn with_separator(path: Seq<char>) -> Seq<char> {
    if path.len() > 0 && path.last() == '/' {
        path
    } else {
        path.push('/')
    }
}

/// Rendering `segments` after `path`, with the variables used so far in `used`.
pub open spec fn render_from(
    path: Seq<char>,
    used: Seq<EndpointPathVariable>,
    segments: Seq<SegmentView>,
    values: Option<EndpointValuesView>,
) -> Result<(Seq<char>, Seq<EndpointPathVariable>), Seq<char>>
    decreases segments.len(),
{
    if segments.len() == 0 {
        Ok((path, used))
    } else {
        let path = with_separator(path);
        match segments[0] {
            SegmentView::Literal(text) => render_from(
                path + text,
                used,
                segments.drop_first(),
                values,
            ),
            SegmentView::Variable(variable) => match values {
                None => Err("endpoint template requires catalog mapping values"@),
                Some(v) => match variable_text(v, variable) {
                    None => Err("endpoint template requires a deployment id"@),
                    Some(text) => render_from(
                        path + percent_encoded(text_bytes(text)),
                        used.push(variable),
                        segments.drop_first(),
                        values,
                    ),
                },
            },
        }
    }
}

/// The UTF-8 bytes of a text.
pub open spec fn text_bytes(text: Seq<char>) -> Seq<u8> {
    vstd::utf8::encode_utf8(text)
}

/// The optional values' view.
pub open spec fn values_view(values: Option<EndpointValues>) -> Option<EndpointValuesView> {
    match values {
        Some(v) => Some(v@),
        None => None,
    }
}

fn base_path(base: &str) -> (r: Vec<char>)
    ensures
        r@ == base_path_start(base@),
{
    let trimmed = trim_end_matching(base, '/');
    let chars = chars_of(trimmed.as_str());
    if chars.len() == 0 {
        let mut r: Vec<char> = Vec::new();
        r.push('/');
        proof {
            assert(r@ =~= seq!['/']);
        }
        r
    } else if chars[0] != '/' {
        let mut r: Vec<char> = Vec::new();
        r.push('/');
        let mut i: usize = 0;
        while i < chars.len()
            invariant
                i <= chars@.len(),
                r@ == seq!['/'] + chars@.take(i as int),
            decreases chars.len() - i,
        {
            r.push(chars[i]);
            proof {
                assert(seq!['/'] + chars@.take(i + 1) =~= (seq!['/'] + chars@.take(i as int)).push(
                    chars@[i as int],
                ));
            }
            i = i + 1;
        }
        proof {
            assert(chars@.take(i as int) =~= chars@);
        }
        r
    } else {
        chars
    }
}

impl EndpointTemplate {
    /// Parses a relative path template.
    ///
    /// Accepted variables are `{product}`, `{provider_model}`, and `{deployment}`.
    pub fn parse(value: &str) -> (r: Result<Self, LlmError>)
        ensures
            match template_parse(value@) {
                Ok(segments) => r matches Ok(t) && t@ == segments,
                Err(message) => r matches Err(e) && is_configuration(e, message),
            },
    {
        if value.unicode_len() == 0 {
            return Err(configuration("endpoint template must not be empty"));
        }
        if str_has_char(value, '?') || str_has_char(value, '#') {
            return Err(configuration("endpoint template must not contain query or fragment"));
        }
        let leading = trim_start_matching(value, '/');
        let path = trim_end_matching(leading.as_str(), '/');
        if path.unicode_len() == 0 {
            return Err(configuration("endpoint template must contain a path"));
        }
        let pieces = split_on(path.as_str(), '/');
        let ghost all = split_char(path@, '/');
        let mut segments: Vec<PathSegment> = Vec::new();
        let mut i: usize = 0;
        proof {
            assert(all.skip(0) =~= all);
            assert(segment_views(segments@) =~= Seq::<SegmentView>::empty());
        }
        while i < pieces.len()
            invariant
                all == split_char(path@, '/'),
                template_parse(value@) == segments_parse(all),
                pieces@.len() == all.len(),
                forall|j: int| 0 <= j < pieces@.len() ==> #[trigger] pieces@[j]@ == all[j],
                i <= pieces@.len(),
                segments_parse(all) == match segments_parse(all.skip(i as int)) {
                    Err(message) => Err(message),
                    Ok(rest) => Ok(segment_views(segments@) + rest),
                },
            decreases pieces.len() - i,
        {
            proof {
                assert(all.skip(i as int)[0] == all[i as int]);
                assert(all.skip(i as int).drop_first() =~= all.skip(i + 1));
            }
            let segment = parse_segment(pieces[i].as_str());
            match segment {
                Err(e) => {
                    proof {
                        assert(pieces@[i as int]@ == all.skip(i as int)[0]);
                        assert(segment_parse(all.skip(i as int)[0]) is Err);
                        assert(segments_parse(all.skip(i as int)) is Err);
                        assert(segments_parse(all.skip(i as int))->Err_0 == segment_parse(
                            all.skip(i as int)[0],
                        )->Err_0);
                    }
                    return Err(e);
                },
                Ok(s) => {
                    let ghost before = segment_views(segments@);
                    segments.push(s);
                    proof {
                        assert(segment_views(segments@) =~= before.push(s@));
                        assert forall|rest: Seq<SegmentView>| before + (seq![s@] + rest) == before.push(s@) + rest by {
                            assert(before + (seq![s@] + rest) =~= before.push(s@) + rest);
                        }
                    }
                },
            }
            i = i + 1;
        }
        proof {
            assert(all.skip(i as int) =~= Seq::<Seq<char>>::empty());
            assert(segment_views(segments@) + Seq::<SegmentView>::empty() =~= segment_views(
                segments@,
            ));
        }
        Ok(EndpointTemplate { segments })
    }

    /// Renders the template after `base_path`, returning the path and the variables it
    /// used, in order.
    pub fn render(&self, base_path_text: &str, values: Option<EndpointValues>) -> (r: Result<
        (String, Vec<EndpointPathVariable>),
        LlmError,
    >)
        ensures
            match render_from(
                base_path_start(base_path_text@),
                Seq::empty(),
                self@,
                values_view(values),
            ) {
                Ok((path, used)) => r matches Ok(out) && out.0@ == path && out.1@ == used,
                Err(message) => r matches Err(e) && is_configuration(e, message),
            },
    {
        let ghost all = self@;
        let mut path = base_path(base_path_text);
        let mut used: Vec<EndpointPathVariable> = Vec::new();
        let mut i: usize = 0;
        proof {
            assert(all.skip(0) =~= all);
        }
        while i < self.segments.len()
            invariant
                all == self@,
                all == segment_views(self.segments@),
                i <= self.segments@.len(),
                path@.len() > 0,
                render_from(base_path_start(base_path_text@), Seq::empty(), all, values_view(values))
                    == render_from(path@, used@, all.skip(i as int), values_view(values)),
            decreases self.segments.len() - i,
        {
            proof {
                assert(all.skip(i as int)[0] == self.segments@[i as int]@);
                assert(all.skip(i as int).drop_first() =~= all.skip(i + 1));
            }
            if path[path.len() - 1] != '/' {
                path.push('/');
            }
            match &self.segments[i] {
                PathSegment::Literal(text) => {
                    push_chars(&mut path, text.as_str());
                },
                PathSegment::Variable(variable) => {
                    let vals = match values {
                        Some(v) => v,
                        None => {
                            return Err(
                                configuration("endpoint template requires catalog mapping values"),
                            );
                        },
                    };
                    let text = vals.value(*variable)?;
                    let encoded = encode_path_segment(text);
                    push_chars(&mut path, encoded.as_str());
                    used.push(*variable);
                },
            }
            i = i + 1;
        }
        proof {
            assert(all.skip(i as int) =~= Seq::<SegmentView>::empty());
        }
        Ok((string_from_chars(&path), used))
    }

    /// Whether rendering needs catalog mapping values.
    pub fn requires_values(&self) -> (r: bool)
        ensures
            r == exists|i: int| 0 <= i < self@.len() && #[trigger] self@[i] is Variable,
    {
        let mut i: usize = 0;
        while i < self.segments.len()
            invariant
                i <= self.segments@.len(),
                forall|j: int| 0 <= j < i ==> !(#[trigger] self@[j] is Variable),
            decreases self.segments.len() - i,
        {
            if let PathSegment::Variable(_) = &self.segments[i] {
                proof {
                    assert(self@[i as int] is Variable);
                }
                return true;
            }
            proof {
                assert(!(self@[i as int] is Variable));
            }
            i = i + 1;
        }
        false
    }
}

/// Provenance label retained for endpoint query diagnostics.
#[derive(Clone, Copy, Debug, PartialEq, Eq, Structural)]
pub enum EndpointQuerySource {
    /// Provider product profile.
    ProductProfile,
    /// Deployment mapping.
    DeploymentMapping,
    /// Explicit local test configuration.
    TestConfiguration,
}

/// Deterministic behavior when a registered key already exists on the base URL.
#[derive(Clone, Copy, Debug, PartialEq, Eq, Structural)]
pub enum QueryMergeRule {
    /// Reject an existing value.
    RejectExisting,
    /// Replace an existing value.
    Override,
}

/// Value-free query action recorded in endpoint diagnostics.
#[derive(Clone, Copy, Debug, PartialEq, Eq, Structural)]
pub enum EndpointQueryAction {
    /// A value was set.
    Assign,
    /// A value was removed.
    Remove,
}

/// Mathematical form of an [`EndpointQueryDiagnostic`].
pub struct QueryDiagnosticView {
    pub name: Seq<char>,
    pub action: EndpointQueryAction,
    pub source: EndpointQuerySource,
}

/// Value-free query resolution record.
#[derive(Debug)]
pub struct EndpointQueryDiagnostic {
    name: String,
    action: EndpointQueryAction,
    source: EndpointQuerySource,
}

impl View for EndpointQueryDiagnostic {
    type V = QueryDiagnosticView;

    closed spec fn view(&self) -> QueryDiagnosticView {
        QueryDiagnosticView { name: self.name@, action: self.action, source: self.source }
    }
}

impl EndpointQueryDiagnostic {
    /// Returns the non-sensitive query name.
    pub fn name(&self) -> (r: &str)
        ensures
            r@ == self@.name,
    {
        self.name.as_str()
    }

    /// Returns the applied action.
    pub fn action(&self) -> (r: EndpointQueryAction)
        ensures
            r == self@.action,
    {
        self.action
    }

    /// Returns the configuration source.
    pub fn source(&self) -> (r: EndpointQuerySource)
        ensures
            r == self@.source,
    {
        self.source
    }
}

/// One registered query operation.
#[derive(Debug)]
pub enum QueryOperation {
    /// Set the key to a value.
    Assign { value: String, merge: QueryMergeRule, source: EndpointQuerySource },
    /// Remove the key.
    Remove { source: EndpointQuerySource },
}

/// Mathematical form of a [`QueryOperation`].
pub enum OperationView {
    Assign { value: Seq<char>, merge: QueryMergeRule, source: EndpointQuerySource },
    Remove { source: EndpointQuerySource },
}

impl View for QueryOperation {
    type V = OperationView;

    open spec fn view(&self) -> OperationView {
        match self {
            QueryOperation::Assign { value, merge, source } => OperationView::Assign {
                value: value@,
                merge: *merge,
                source: *source,
            },
            QueryOperation::Remove { source } => OperationView::Remove { source: *source },
        }
    }
}

impl Clone for QueryOperation {
    fn clone(&self) -> (r: Self)
        ensures
            r@ == self@,
    {
        match self {
            QueryOperation::Assign { value, merge, source } => QueryOperation::Assign {
                value: value.clone(),
                merge: *merge,
                source: *source,
            },
            QueryOperation::Remove { source } => QueryOperation::Remove { source: *source },
        }
    }
}

/// Query names whose value could carry a credential.
pub open spec fn is_sensitive_query_name(canonical: Seq<char>) -> bool {
    ||| contains_seq(canonical, "key"@)
    ||| contains_seq(canonical, "token"@)
    ||| contains_seq(canonical, "secret"@)
    ||| contains_seq(canonical, "credential"@)
    ||| contains_seq(canonical, "signature"@)
    ||| contains_seq(canonical, "authorization"@)
}

/// How a query name validates: its lower-case form, or the error message.
///
/// A name is 1 to 64 characters of ASCII letters, digits, `-`, `_`, `.` and `~`, and its
/// lower-case form must not name a credential.
pub open spec fn query_name_result(name: Seq<char>) -> Result<Seq<char>, Seq<char>> {
    if name.len() == 0 || !all_in_set(name, CharSet::QueryName) || name.len() > 64 {
        Err("invalid endpoint query name"@)
    } else if is_sensitive_query_name(ascii_lowercase(name)) {
        Err("sensitive endpoint query name is forbidden"@)
    } else {
        Ok(ascii_lowercase(name))
    }
}

/// A query value is 1 to 256 UTF-8 bytes without ASCII control characters.
pub open spec fn query_value_ok(value: Seq<char>) -> bool {
    value.len() > 0 && utf8_len(value) <= 256 && all_in_set(value, CharSet::NotControl)
}

fn validate_query_name(name: &str) -> (r: Result<String, LlmError>)
    ensures
        match query_name_result(name@) {
            Ok(canonical) => r matches Ok(s) && s@ == canonical,
            Err(message) => r matches Err(e) && is_configuration(e, message),
        },
{
    let canonical = to_ascii_lowercase(name);
    if name.unicode_len() == 0 || !all_chars_in(name, CharSet::QueryName) || name.unicode_len()
        > 64 {
        return Err(configuration("invalid endpoint query name"));
    }
    let c = canonical.as_str();
    if str_contains(c, "key") || str_contains(c, "token") || str_contains(c, "secret")
        || str_contains(c, "credential") || str_contains(c, "signature") || str_contains(
        c,
        "authorization",
    ) {
        return Err(configuration("sensitive endpoint query name is forbidden"));
    }
    Ok(canonical)
}

fn validate_query_value(value: &str) -> (r: Result<String, LlmError>)
    ensures
        query_value_ok(value@) ==> (r matches Ok(s) && s@ == value@),
        !query_value_ok(value@) ==> (r matches Err(e) && is_configuration(
            e,
            "invalid endpoint query value"@,
        )),
{
    if value.unicode_len() == 0 || byte_len_exceeds_256(value) || !all_chars_in(
        value,
        CharSet::NotControl,
    ) {
        return Err(configuration("invalid endpoint query value"));
    }
    Ok(owned(value))
}

/// Explicit query-key registry and merge plan, one operation per lower-case name.
#[derive(Debug)]
pub struct EndpointQuery {
    operations: Vec<(String, QueryOperation)>,
}

impl View for EndpointQuery {
    type V = Map<Seq<char>, OperationView>;

    closed spec fn view(&self) -> Map<Seq<char>, OperationView> {
        keyed_map(self.operations@)
    }
}

impl EndpointQuery {
    #[verifier::type_invariant]
    spec fn sorted(self) -> bool {
        names_sorted(self.operations@)
    }

    /// The operations in name order.
    pub closed spec fn spec_operations(&self) -> Seq<(String, QueryOperation)> {
        self.operations@
    }

    /// Creates an empty query plan.
    pub fn new() -> (r: Self)
        ensures
            r@ == Map::<Seq<char>, OperationView>::empty(),
    {
        let r = EndpointQuery { operations: Vec::new() };
        assert(r@ =~= Map::<Seq<char>, OperationView>::empty());
        r
    }

    fn register(self, name: String, operation: QueryOperation) -> (r: Result<Self, LlmError>)
        ensures
            self@.contains_key(name@) ==> (r matches Err(e) && is_configuration(
                e,
                "duplicate endpoint query operation"@,
            )),
            !self@.contains_key(name@) ==> (r matches Ok(q) && q@ == self@.insert(
                name@,
                operation@,
            )),
    {
        proof {
            use_type_invariant(&self);
        }
        let EndpointQuery { operations } = self;
        let mut operations = operations;
        match name_position(&operations, name.as_str()) {
            Ok(i) => {
                proof {
                    lemma_keyed_entry(operations@, i as int);
                }
                Err(configuration("duplicate endpoint query operation"))
            },
            Err(p) => {
                proof {
                    lemma_keyed_insert(operations@, p as int, (name, operation));
                }
                operations.insert(p, (name, operation));
                Ok(EndpointQuery { operations })
            },
        }
    }

    /// Registers a key and sets its final value.
    pub fn with_set(
        self,
        name: &str,
        value: &str,
        merge: QueryMergeRule,
        source: EndpointQuerySource,
    ) -> (r: Result<Self, LlmError>)
        ensures
            match query_name_result(name@) {
                Err(message) => r matches Err(e) && is_configuration(e, message),
                Ok(canonical) => if !query_value_ok(value@) {
                    r matches Err(e) && is_configuration(e, "invalid endpoint query value"@)
                } else if self@.contains_key(canonical) {
                    r matches Err(e) && is_configuration(e, "duplicate endpoint query operation"@)
                } else {
                    r matches Ok(q) && q@ == self@.insert(
                        canonical,
                        OperationView::Assign { value: value@, merge, source },
                    )
                },
            },
    {
        let name = validate_query_name(name)?;
        let value = validate_query_value(value)?;
        self.register(name, QueryOperation::Assign { value, merge, source })
    }

    /// Registers a key and removes it from a base URL.
    pub fn with_remove(self, name: &str, source: EndpointQuerySource) -> (r: Result<Self, LlmError>)
        ensures
            match query_name_result(name@) {
                Err(message) => r matches Err(e) && is_configuration(e, message),
                Ok(canonical) => if self@.contains_key(canonical) {
                    r matches Err(e) && is_configuration(e, "duplicate endpoint query operation"@)
                } else {
                    r matches Ok(q) && q@ == self@.insert(
                        canonical,
                        OperationView::Remove { source },
                    )
                },
            },
    {
        let name = validate_query_name(name)?;
        self.register(name, QueryOperation::Remove { source })
    }

    /// Registers the conventional `api-version` key with deterministic override behavior.
    pub fn with_api_version(self, value: &str, source: EndpointQuerySource) -> (r: Result<
        Self,
        LlmError,
    >)
        ensures
            !query_value_ok(value@) ==> (r matches Err(e) && is_configuration(
                e,
                "invalid endpoint query value"@,
            )),
            query_value_ok(value@) && self@.contains_key("api-version"@) ==> (r matches Err(e)
                && is_configuration(e, "duplicate endpoint query operation"@)),
            query_value_ok(value@) && !self@.contains_key("api-version"@) ==> (r matches Ok(q)
                && q@ == self@.insert(
                "api-version"@,
                OperationView::Assign {
                    value: value@,
                    merge: QueryMergeRule::Override,
                    source,
                },
            )),
    {
        proof {
            lemma_api_version_name();
        }
        self.with_set("api-version", value, QueryMergeRule::Override, source)
    }
}

/// `api-version` is a valid, non-sensitive, already lower-case query name.
proof fn lemma_api_version_name()
    ensures
        query_name_result("api-version"@) == Ok::<Seq<char>, Seq<char>>("api-version"@),
{
    reveal_strlit("api-version");
    reveal_strlit("key");
    reveal_strlit("token");
    reveal_strlit("secret");
    reveal_strlit("credential");
    reveal_strlit("signature");
    reveal_strlit("authorization");
    let name = "api-version"@;
    assert(ascii_lowercase(name) =~= name);
    assert forall|w: Seq<char>|
        w == "key"@ || w == "token"@ || w == "secret"@ || w == "credential"@ || w
            == "signature"@ || w == "authorization"@ implies !contains_seq(name, w) by {
        if contains_seq(name, w) {
            let i = choose|i: int|
                0 <= i && i + w.len() <= name.len() && #[trigger] name.subrange(i, i + w.len())
                    == w;
            assert(name.subrange(i, i + w.len())[0] == w[0]);
        }
    }
}

/// The value-free diagnostic of one registered operation.
pub open spec fn operation_diagnostic(name: Seq<char>, op: OperationView) -> QueryDiagnosticView {
    match op {
        OperationView::Assign { source, .. } => QueryDiagnosticView {
            name,
            action: EndpointQueryAction::Assign,
            source,
        },
        OperationView::Remove { source } => QueryDiagnosticView {
            name,
            action: EndpointQueryAction::Remove,
            source,
        },
    }
}

/// The first problem with the base URL's query names, in order: an invalid name, a
/// repeated name or a name without a registered operation.
pub open spec fn base_query_error(
    registered: Map<Seq<char>, OperationView>,
    names: Seq<Seq<char>>,
    seen: Set<Seq<char>>,
) -> Option<Seq<char>>
    decreases names.len(),
{
    if names.len() == 0 {
        None
    } else if query_name_result(names[0]) is Err {
        Some(query_name_result(names[0])->Err_0)
    } else if seen.contains(names[0]) {
        Some("duplicate base endpoint query key"@)
    } else if !registered.contains_key(names[0]) {
        Some("base endpoint query key is not registered"@)
    } else {
        base_query_error(registered, names.drop_first(), seen.insert(names[0]))
    }
}

/// Some operation sets, without permission to override, a key the base URL already has.
pub open spec fn forbidden_override(
    operations: Seq<(String, QueryOperation)>,
    names: Seq<Seq<char>>,
) -> bool {
    exists|i: int|
        0 <= i < operations.len() && (#[trigger] operations[i].1@ matches OperationView::Assign {
            merge,
            ..
        } && merge == QueryMergeRule::RejectExisting) && names.contains(operations[i].0@)
}

/// The query pairs after resolution: each set key with its value, in name order.
pub open spec fn assigned_pairs(operations: Seq<(String, QueryOperation)>) -> Seq<
    (Seq<char>, Seq<char>),
>
    decreases operations.len(),
{
    if operations.len() == 0 {
        Seq::empty()
    } else {
        let rest = assigned_pairs(operations.drop_last());
        match operations.last().1@ {
            OperationView::Assign { value, .. } => rest.push((operations.last().0@, value)),
            OperationView::Remove { .. } => rest,
        }
    }
}

/// The first `k` of `names`, as a set.
pub open spec fn first_names(names: Seq<Seq<char>>, k: int) -> Set<Seq<char>> {
    Set::new(|x: Seq<char>| exists|j: int| 0 <= j < k && names[j] == x)
}

/// The names of query pairs.
pub open spec fn pair_names(pairs: Seq<(String, String)>) -> Seq<Seq<char>> {
    pairs.map_values(|p: (String, String)| p.0@)
}

fn name_among(pairs: &Vec<(String, String)>, upto: usize, name: &str) -> (r: bool)
    requires
        upto <= pairs@.len(),
    ensures
        r == pair_names(pairs@).take(upto as int).contains(name@),
{
    let mut j: usize = 0;
    while j < upto
        invariant
            upto <= pairs@.len(),
            j <= upto,
            forall|m: int| 0 <= m < j ==> pairs@[m].0@ != name@,
        decreases upto - j,
    {
        if str_eq(pairs[j].0.as_str(), name) {
            proof {
                assert(pair_names(pairs@).take(upto as int)[j as int] == name@);
            }
            return true;
        }
        j = j + 1;
    }
    proof {
        if pair_names(pairs@).take(upto as int).contains(name@) {
            let m = choose|m: int|
                0 <= m < upto && #[trigger] pair_names(pairs@).take(upto as int)[m] == name@;
            assert(pairs@[m].0@ == name@);
        }
    }
    false
}

impl EndpointQuery {
    /// Lists the registered operations without their values, in name order.
    pub fn diagnostics(&self) -> (r: Vec<EndpointQueryDiagnostic>)
        ensures
            r@.len() == self.spec_operations().len(),
            forall|i: int|
                0 <= i < r@.len() ==> #[trigger] r@[i]@ == operation_diagnostic(
                    self.spec_operations()[i].0@,
                    self.spec_operations()[i].1@,
                ),
    {
        let mut out: Vec<EndpointQueryDiagnostic> = Vec::new();
        let mut i: usize = 0;
        while i < self.operations.len()
            invariant
                i <= self.operations@.len(),
                out@.len() == i,
                forall|j: int|
                    0 <= j < i ==> #[trigger] out@[j]@ == operation_diagnostic(
                        self.operations@[j].0@,
                        self.operations@[j].1@,
                    ),
            decreases self.operations.len() - i,
        {
            let (name, operation) = (&self.operations[i].0, &self.operations[i].1);
            let (action, source) = match operation {
                QueryOperation::Assign { source, .. } => (EndpointQueryAction::Assign, *source),
                QueryOperation::Remove { source } => (EndpointQueryAction::Remove, *source),
            };
            out.push(EndpointQueryDiagnostic { name: name.clone(), action, source });
            i = i + 1;
        }
        out
    }

    /// Resolves the query of a base URL against the registered plan: every base key must be
    /// valid, unique and registered; a set key may replace a base value only when allowed;
    /// the result holds each set key with its value, in name order, and a diagnostic per
    /// operation.
    pub fn resolve_pairs(&self, base: &Vec<(String, String)>) -> (r: Result<
        (Vec<(String, String)>, Vec<EndpointQueryDiagnostic>),
        LlmError,
    >)
        ensures
            match base_query_error(self@, pair_names(base@), Set::empty()) {
                Some(message) => r matches Err(e) && is_configuration(e, message),
                None => if forbidden_override(self.spec_operations(), pair_names(base@)) {
                    r matches Err(e) && is_configuration(e, "endpoint query override is forbidden"@)
                } else {
                    r matches Ok(out) && pairs_view(out.0@) == assigned_pairs(self.spec_operations())
                        && out.1@.len() == self.spec_operations().len() && forall|i: int|
                        0 <= i < out.1@.len() ==> #[trigger] out.1@[i]@ == operation_diagnostic(
                            self.spec_operations()[i].0@,
                            self.spec_operations()[i].1@,
                        )
                },
            },
    {
        proof {
            use_type_invariant(self);
        }
        let ghost names = pair_names(base@);
        let mut k: usize = 0;
        proof {
            assert(names.skip(0) =~= names);
            assert(first_names(names, 0) =~= Set::<Seq<char>>::empty());
        }
        while k < base.len()
            invariant
                names == pair_names(base@),
                names_sorted(self.operations@),
                k <= base@.len(),
                base_query_error(self@, names, Set::empty()) == base_query_error(
                    self@,
                    names.skip(k as int),
                    first_names(names, k as int),
                ),
            decreases base.len() - k,
        {
            let name = base[k].0.as_str();
            proof {
                assert(names.skip(k as int)[0] == name@);
                assert(names.skip(k as int).drop_first() =~= names.skip(k + 1));
                assert(first_names(names, k + 1) =~= first_names(names, k as int).insert(name@)) by {
                    assert(names[k as int] == name@);
                }
            }
            validate_query_name(name)?;
            let seen = name_among(base, k, name);
            proof {
                if names.take(k as int).contains(name@) {
                    let j = choose|j: int| 0 <= j < k && #[trigger] names.take(k as int)[j] == name@;
                    assert(names[j] == name@);
                }
                if first_names(names, k as int).contains(name@) {
                    let j = choose|j: int| 0 <= j < k && names[j] == name@;
                    assert(names.take(k as int)[j] == name@);
                }
            }
            if seen {
                return Err(configuration("duplicate base endpoint query key"));
            }
            match name_position(&self.operations, name) {
                Ok(i) => {
                    proof {
                        lemma_keyed_entry(self.operations@, i as int);
                    }
                },
                Err(p) => {
                    proof {
                        lemma_keyed_absent(self.operations@, p as int, name@);
                    }
                    return Err(configuration("base endpoint query key is not registered"));
                },
            }
            k = k + 1;
        }
        proof {
            assert(names.skip(k as int) =~= Seq::<Seq<char>>::empty());
        }
        let mut pairs: Vec<(String, String)> = Vec::new();
        let mut diagnostics: Vec<EndpointQueryDiagnostic> = Vec::new();
        let mut i: usize = 0;
        while i < self.operations.len()
            invariant
                names == pair_names(base@),
                base_query_error(self@, names, Set::empty()) is None,
                i <= self.operations@.len(),
                forall|j: int|
                    0 <= j < i ==> !(#[trigger] self.operations@[j].1@ matches OperationView::Assign {
                        merge,
                        ..
                    } && merge == QueryMergeRule::RejectExisting && names.contains(
                        self.operations@[j].0@,
                    )),
                pairs_view(pairs@) == assigned_pairs(self.operations@.take(i as int)),
                diagnostics@.len() == i,
                forall|j: int|
                    0 <= j < i ==> #[trigger] diagnostics@[j]@ == operation_diagnostic(
                        self.operations@[j].0@,
                        self.operations@[j].1@,
                    ),
            decreases self.operations.len() - i,
        {
            let name = &self.operations[i].0;
            proof {
                assert(self.operations@.take(i + 1).drop_last() =~= self.operations@.take(
                    i as int,
                ));
            }
            match &self.operations[i].1 {
                QueryOperation::Assign { value, merge, source } => {
                    if *merge == QueryMergeRule::RejectExisting && name_among(
                        base,
                        base.len(),
                        name.as_str(),
                    ) {
                        proof {
                            assert(names.take(base@.len() as int) =~= names);
                            assert(self.operations@[i as int].1@ matches OperationView::Assign {
                                merge,
                                ..
                            } && merge == QueryMergeRule::RejectExisting);
                            assert(forbidden_override(self.operations@, names));
                        }
                        return Err(configuration("endpoint query override is forbidden"));
                    }
                    proof {
                        assert(names.take(base@.len() as int) =~= names);
                    }
                    let ghost before = pairs@;
                    pairs.push((name.clone(), value.clone()));
                    proof {
                        assert(pairs_view(pairs@) =~= pairs_view(before).push(
                            (name@, value@),
                        ));
                    }
                    diagnostics.push(
                        EndpointQueryDiagnostic {
                            name: name.clone(),
                            action: EndpointQueryAction::Assign,
                            source: *source,
                        },
                    );
                },
                QueryOperation::Remove { source } => {
                    diagnostics.push(
                        EndpointQueryDiagnostic {
                            name: name.clone(),
                            action: EndpointQueryAction::Remove,
                            source: *source,
                        },
                    );
                },
            }
            i = i + 1;
        }
        proof {
            assert(self.operations@.take(i as int) =~= self.operations@);
        }
        Ok((pairs, diagnostics))
    }
}

} // verus!
