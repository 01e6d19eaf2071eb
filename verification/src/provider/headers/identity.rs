//! Structured, truthful client identity headers.

use vstd::prelude::*;

use crate::error::{is_validation, validation, LlmError, ValidationReason};
use crate::provider::auth::header_value_accepts;
use crate::provider::headers::pipeline::{lemma_header_text_bytes, HeaderOperation, HeaderOperationView};
use vstd::utf8::encode_utf8;
use crate::text::{
    all_chars_in, all_in_set, ascii_lowercase, contains_seq, push_chars, str_contains,
    string_from_chars, to_ascii_lowercase, utf8_len, utf8_len_exceeds, CharSet,
};

verus! {

/// The SDK's product name in the default identity.
pub const SDK_NAME: &'static str = "philo";

/// The SDK's version in the default identity.
pub const SDK_VERSION: &'static str = "0.1.0";

/// Mathematical form of a [`ClientIdentityFragment`].
pub struct FragmentView {
    pub name: Seq<char>,
    pub version: Option<Seq<char>>,
}

/// One optional application fragment in a User-Agent value.
#[derive(Debug)]
pub struct ClientIdentityFragment {
    name: String,
    version: Option<String>,
}

impl View for ClientIdentityFragment {
    type V = FragmentView;

    closed spec fn view(&self) -> FragmentView {
        FragmentView {
            name: self.name@,
            version: match self.version {
                Some(v) => Some(v@),
                None => None,
            },
        }
    }
}

impl Clone for ClientIdentityFragment {
    fn clone(&self) -> (r: Self)
        ensures
            r@ == self@,
    {
        ClientIdentityFragment {
            name: self.name.clone(),
            version: match &self.version {
                Some(v) => Some(v.clone()),
                None => None,
            },
        }
    }
}

/// A bounded ASCII token: 1 to 128 letters, digits, `-`, `_` or `.`.
pub open spec fn is_identity_token(value: Seq<char>) -> bool {
    value.len() > 0 && value.len() <= 128 && all_in_set(value, CharSet::Token)
}

/// `e` is the error for an identity value that is not a bounded token.
pub open spec fn token_error(e: LlmError, field: Seq<char>) -> bool {
    is_validation(
        e,
        field,
        ValidationReason::InvalidHeader,
        "identity values must be bounded ASCII tokens"@,
    )
}

/// `e` is the identity error with `summary`.
pub open spec fn identity_error(e: LlmError, summary: Seq<char>) -> bool {
    is_validation(e, "client_identity"@, ValidationReason::InvalidHeader, summary)
}

fn validate_token(field: &str, value: &str) -> (r: Result<(), LlmError>)
    ensures
        is_identity_token(value@) ==> r is Ok,
        !is_identity_token(value@) ==> (r matches Err(e) && token_error(e, field@)),
{
    if value.unicode_len() == 0 || value.unicode_len() > 128 || !all_chars_in(value, CharSet::Token) {
        return Err(
            validation(field, ValidationReason::InvalidHeader, "identity values must be bounded ASCII tokens"),
        );
    }
    Ok(())
}

/// The value names an official SDK or a browser, in any case.
pub open spec fn impersonates(value: Seq<char>) -> bool {
    let lower = ascii_lowercase(value);
    ||| contains_seq(lower, "openai"@)
    ||| contains_seq(lower, "mozilla"@)
    ||| contains_seq(lower, "chrome"@)
    ||| contains_seq(lower, "safari"@)
    ||| contains_seq(lower, "firefox"@)
    ||| contains_seq(lower, "curl"@)
}

fn reject_impersonation(value: &str) -> (r: Result<(), LlmError>)
    ensures
        !impersonates(value@) ==> r is Ok,
        impersonates(value@) ==> (r matches Err(e) && identity_error(
            e,
            "identity must not impersonate an official SDK or browser"@,
        )),
{
    let lower = to_ascii_lowercase(value);
    let l = lower.as_str();
    if str_contains(l, "openai") || str_contains(l, "mozilla") || str_contains(l, "chrome")
        || str_contains(l, "safari") || str_contains(l, "firefox") || str_contains(l, "curl") {
        return Err(
            validation(
                "client_identity",
                ValidationReason::InvalidHeader,
                "identity must not impersonate an official SDK or browser",
            ),
        );
    }
    Ok(())
}

impl ClientIdentityFragment {
    /// Creates a validated fragment.
    pub fn new(name: &str, version: Option<&str>) -> (r: Result<Self, LlmError>)
        ensures
            !is_identity_token(name@) ==> (r matches Err(e) && token_error(
                e,
                "client_identity.fragment.name"@,
            )),
            is_identity_token(name@) ==> match version {
                Some(v) => if is_identity_token(v@) {
                    r matches Ok(f) && f@ == (FragmentView { name: name@, version: Some(v@) })
                } else {
                    r matches Err(e) && token_error(e, "client_identity.fragment.version"@)
                },
                None => r matches Ok(f) && f@ == (FragmentView { name: name@, version: None }),
            },
    {
        validate_token("client_identity.fragment.name", name)?;
        let version = match version {
            Some(v) => {
                validate_token("client_identity.fragment.version", v)?;
                Some(v.to_owned())
            },
            None => None,
        };
        Ok(ClientIdentityFragment { name: name.to_owned(), version })
    }
}

/// Mathematical form of a [`ClientIdentity`].
pub struct IdentityView {
    pub product: Seq<char>,
    pub version: Seq<char>,
    pub contact: Option<Seq<char>>,
    pub application: Option<FragmentView>,
    pub fragments: Seq<FragmentView>,
}

/// A fragment as written in a User-Agent: `name` or `name/version`.
pub open spec fn fragment_text(f: FragmentView) -> Seq<char> {
    match f.version {
        Some(v) => f.name + seq!['/'] + v,
        None => f.name,
    }
}

/// Fragments, each preceded by a space.
pub open spec fn fragments_text(fragments: Seq<FragmentView>) -> Seq<char>
    decreases fragments.len(),
{
    if fragments.len() == 0 {
        Seq::empty()
    } else {
        fragments_text(fragments.drop_last()) + seq![' '] + fragment_text(fragments.last())
    }
}

/// The User-Agent value of an identity: `product/version`, the application fragment and
/// the other fragments separated by spaces, then a parenthesized contact.
pub open spec fn user_agent(v: IdentityView) -> Seq<char> {
    let head = v.product + seq!['/'] + v.version;
    let with_application = match v.application {
        Some(a) => head + seq![' '] + fragment_text(a),
        None => head,
    };
    let with_fragments = with_application + fragments_text(v.fragments);
    match v.contact {
        Some(c) => with_fragments + seq![' ', '('] + c + seq![')'],
        None => with_fragments,
    }
}

/// Why an identity's User-Agent is refused, or `None` when it is a valid header value of
/// at most 512 bytes.
pub open spec fn user_agent_rejection(v: IdentityView) -> Option<Seq<char>> {
    if utf8_len(user_agent(v)) > 512 {
        Some("User-Agent exceeds 512 bytes"@)
    } else if !all_in_set(user_agent(v), CharSet::HeaderValue) {
        Some("client identity is not a valid User-Agent"@)
    } else {
        None
    }
}

/// `r` is an identity with view `v`, or the error refusing its User-Agent.
pub open spec fn identity_checked(v: IdentityView, r: Result<ClientIdentity, LlmError>) -> bool {
    match user_agent_rejection(v) {
        Some(summary) => r matches Err(e) && identity_error(e, summary),
        None => r matches Ok(id) && id@ == v,
    }
}

/// A bounded visible contact token: 1 to 128 visible ASCII characters other than
/// parentheses.
pub open spec fn is_contact_token(value: Seq<char>) -> bool {
    value.len() > 0 && value.len() <= 128 && all_in_set(value, CharSet::CommentToken)
}

/// Structured SDK/application identity used to build User-Agent.
#[derive(Debug)]
pub struct ClientIdentity {
    product: String,
    version: String,
    contact: Option<String>,
    application: Option<ClientIdentityFragment>,
    fragments: Vec<ClientIdentityFragment>,
}

/// The views of fragments.
pub open spec fn fragment_views(fragments: Seq<ClientIdentityFragment>) -> Seq<FragmentView> {
    fragments.map_values(|f: ClientIdentityFragment| f@)
}

impl View for ClientIdentity {
    type V = IdentityView;

    closed spec fn view(&self) -> IdentityView {
        IdentityView {
            product: self.product@,
            version: self.version@,
            contact: match self.contact {
                Some(c) => Some(c@),
                None => None,
            },
            application: match self.application {
                Some(a) => Some(a@),
                None => None,
            },
            fragments: fragment_views(self.fragments@),
        }
    }
}

fn push_fragment(out: &mut Vec<char>, fragment: &ClientIdentityFragment)
    ensures
        final(out)@ == old(out)@ + seq![' '] + fragment_text(fragment@),
{
    let ghost start = out@;
    out.push(' ');
    push_chars(out, fragment.name.as_str());
    if let Some(v) = &fragment.version {
        out.push('/');
        push_chars(out, v.as_str());
        proof {
            assert(out@ =~= start + seq![' '] + fragment_text(fragment@));
        }
    } else {
        proof {
            assert(out@ =~= start + seq![' '] + fragment_text(fragment@));
        }
    }
}

/// The view of an identity built from its parts.
pub open spec fn identity_view(
    product: Seq<char>,
    version: Seq<char>,
    contact: Option<String>,
    application: Option<ClientIdentityFragment>,
    fragments: Seq<ClientIdentityFragment>,
) -> IdentityView {
    IdentityView {
        product,
        version,
        contact: match contact {
            Some(c) => Some(c@),
            None => None,
        },
        application: match application {
            Some(a) => Some(a@),
            None => None,
        },
        fragments: fragment_views(fragments),
    }
}

fn user_agent_text(
    product: &String,
    version: &String,
    contact: &Option<String>,
    application: &Option<ClientIdentityFragment>,
    fragments: &Vec<ClientIdentityFragment>,
) -> (r: String)
    ensures
        r@ == user_agent(identity_view(product@, version@, *contact, *application, fragments@)),
{
    let ghost v = identity_view(product@, version@, *contact, *application, fragments@);
    let mut out: Vec<char> = Vec::new();
    push_chars(&mut out, product.as_str());
    out.push('/');
    push_chars(&mut out, version.as_str());
    proof {
        assert(out@ =~= v.product + seq!['/'] + v.version);
    }
    if let Some(a) = application {
        push_fragment(&mut out, a);
    }
    let ghost with_application = out@;
    let mut i: usize = 0;
    while i < fragments.len()
        invariant
            i <= fragments@.len(),
            out@ == with_application + fragments_text(fragment_views(fragments@).take(i as int)),
        decreases fragments.len() - i,
    {
        push_fragment(&mut out, &fragments[i]);
        proof {
            let views = fragment_views(fragments@);
            assert(views.take(i + 1).drop_last() =~= views.take(i as int));
            assert(out@ =~= with_application + fragments_text(views.take(i + 1)));
        }
        i = i + 1;
    }
    proof {
        assert(fragment_views(fragments@).take(i as int) =~= fragment_views(fragments@));
    }
    if let Some(c) = contact {
        out.push(' ');
        out.push('(');
        push_chars(&mut out, c.as_str());
        out.push(')');
    }
    proof {
        assert(out@ =~= user_agent(v));
    }
    string_from_chars(&out)
}

impl ClientIdentity {
    #[verifier::type_invariant]
    spec fn header_ok(self) -> bool {
        user_agent_rejection(self@) is None
    }

    fn check(
        product: String,
        version: String,
        contact: Option<String>,
        application: Option<ClientIdentityFragment>,
        fragments: Vec<ClientIdentityFragment>,
    ) -> (r: Result<ClientIdentity, LlmError>)
        ensures
            identity_checked(
                identity_view(product@, version@, contact, application, fragments@),
                r,
            ),
    {
        let text = user_agent_text(&product, &version, &contact, &application, &fragments);
        if utf8_len_exceeds(text.as_str(), 512) {
            return Err(
                validation(
                    "client_identity",
                    ValidationReason::InvalidHeader,
                    "User-Agent exceeds 512 bytes",
                ),
            );
        }
        if !header_value_accepts(text.as_str()) {
            return Err(
                validation(
                    "client_identity",
                    ValidationReason::InvalidHeader,
                    "client identity is not a valid User-Agent",
                ),
            );
        }
        Ok(ClientIdentity { product, version, contact, application, fragments })
    }

    /// Creates a controlled product identity.
    pub fn new(product: &str, version: &str) -> (r: Result<Self, LlmError>)
        ensures
            !is_identity_token(product@) ==> (r matches Err(e) && token_error(
                e,
                "client_identity.product"@,
            )),
            is_identity_token(product@) && !is_identity_token(version@) ==> (r matches Err(e)
                && token_error(e, "client_identity.version"@)),
            is_identity_token(product@) && is_identity_token(version@) && impersonates(product@)
                ==> (r matches Err(e) && identity_error(
                e,
                "identity must not impersonate an official SDK or browser"@,
            )),
            is_identity_token(product@) && is_identity_token(version@) && !impersonates(product@)
                ==> identity_checked(
                IdentityView {
                    product: product@,
                    version: version@,
                    contact: None,
                    application: None,
                    fragments: Seq::empty(),
                },
                r,
            ),
    {
        validate_token("client_identity.product", product)?;
        validate_token("client_identity.version", version)?;
        reject_impersonation(product)?;
        let fragments: Vec<ClientIdentityFragment> = Vec::new();
        proof {
            assert(fragment_views(fragments@) =~= Seq::<FragmentView>::empty());
        }
        Self::check(product.to_owned(), version.to_owned(), None, None, fragments)
    }

    /// Returns the default `philo/<crate-version>` identity.
    pub fn philo() -> (r: Self)
        ensures
            r@ == (IdentityView {
                product: SDK_NAME@,
                version: SDK_VERSION@,
                contact: None,
                application: None,
                fragments: Seq::empty(),
            }),
    {
        let fragments: Vec<ClientIdentityFragment> = Vec::new();
        let product = SDK_NAME.to_owned();
        let version = SDK_VERSION.to_owned();
        proof {
            reveal_strlit("philo");
            reveal_strlit("0.1.0");
            assert(fragment_views(fragments@) =~= Seq::<FragmentView>::empty());
            let v = identity_view(product@, version@, None, None, fragments@);
            let ua = user_agent(v);
            assert(ua =~= seq!['p', 'h', 'i', 'l', 'o', '/', '0', '.', '1', '.', '0']);
            assert(utf8_len(ua) <= 512) by {
                crate::text::lemma_utf8_len_bound(ua);
            }
        }
        ClientIdentity { product, version, contact: None, application: None, fragments }
    }

    /// Adds a contact token rendered as a parenthesized User-Agent comment.
    pub fn with_contact(self, contact: &str) -> (r: Result<Self, LlmError>)
        ensures
            !is_contact_token(contact@) ==> (r matches Err(e) && identity_error(
                e,
                "contact must be a bounded visible token"@,
            )),
            is_contact_token(contact@) ==> identity_checked(
                IdentityView { contact: Some(contact@), ..self@ },
                r,
            ),
    {
        if contact.unicode_len() == 0 || contact.unicode_len() > 128 || !all_chars_in(
            contact,
            CharSet::CommentToken,
        ) {
            return Err(
                validation(
                    "client_identity",
                    ValidationReason::InvalidHeader,
                    "contact must be a bounded visible token",
                ),
            );
        }
        let ClientIdentity { product, version, contact: _, application, fragments } = self;
        Self::check(product, version, Some(contact.to_owned()), application, fragments)
    }

    /// Adds an application attribution fragment.
    pub fn with_application(self, application: ClientIdentityFragment) -> (r: Result<Self, LlmError>)
        ensures
            impersonates(application@.name) ==> (r matches Err(e) && identity_error(
                e,
                "identity must not impersonate an official SDK or browser"@,
            )),
            !impersonates(application@.name) ==> identity_checked(
                IdentityView { application: Some(application@), ..self@ },
                r,
            ),
    {
        reject_impersonation(application.name.as_str())?;
        let ClientIdentity { product, version, contact, application: _, fragments } = self;
        Self::check(product, version, contact, Some(application), fragments)
    }

    /// Adds a non-sensitive attribution fragment; at most four are allowed.
    pub fn with_fragment(self, fragment: ClientIdentityFragment) -> (r: Result<Self, LlmError>)
        ensures
            impersonates(fragment@.name) ==> (r matches Err(e) && identity_error(
                e,
                "identity must not impersonate an official SDK or browser"@,
            )),
            !impersonates(fragment@.name) && self@.fragments.len() >= 4 ==> (r matches Err(e)
                && identity_error(e, "at most four identity fragments are allowed"@)),
            !impersonates(fragment@.name) && self@.fragments.len() < 4 ==> identity_checked(
                IdentityView { fragments: self@.fragments.push(fragment@), ..self@ },
                r,
            ),
    {
        reject_impersonation(fragment.name.as_str())?;
        if self.fragments.len() >= 4 {
            return Err(
                validation(
                    "client_identity",
                    ValidationReason::InvalidHeader,
                    "at most four identity fragments are allowed",
                ),
            );
        }
        let ClientIdentity { product, version, contact, application, fragments } = self;
        let mut fragments = fragments;
        let ghost before = fragments@;
        let ghost added = fragment@;
        fragments.push(fragment);
        proof {
            assert(fragment_views(fragments@) =~= fragment_views(before).push(added));
        }
        Self::check(product, version, contact, application, fragments)
    }

    /// Returns product name.
    pub fn product(&self) -> (r: &str)
        ensures
            r@ == self@.product,
    {
        self.product.as_str()
    }

    /// Returns product version.
    pub fn version(&self) -> (r: &str)
        ensures
            r@ == self@.version,
    {
        self.version.as_str()
    }

    /// Returns the User-Agent value; every identity has a valid one of at most 512 bytes.
    pub fn header_value(&self) -> (r: String)
        ensures
            r@ == user_agent(self@),
            user_agent_rejection(self@) is None,
    {
        proof {
            use_type_invariant(self);
        }
        user_agent_text(&self.product, &self.version, &self.contact, &self.application, &self.fragments)
    }
}

impl ClientIdentity {
    /// Produces a User-Agent operation with no sensitive value.
    pub fn operation(&self) -> (r: Result<HeaderOperation, LlmError>)
        ensures
            r matches Ok(op) && op@ == HeaderOperationView::Assign(
                "user-agent"@,
                encode_utf8(user_agent(self@)),
                false,
            ),
    {
        let value = self.header_value();
        proof {
            lemma_header_text_bytes(value@);
        }
        HeaderOperation::set("user-agent", value.as_str().as_bytes())
    }
}

impl Clone for ClientIdentity {
    fn clone(&self) -> (r: Self)
        ensures
            r@ == self@,
    {
        proof {
            use_type_invariant(self);
        }
        let mut fragments: Vec<ClientIdentityFragment> = Vec::new();
        let mut i: usize = 0;
        while i < self.fragments.len()
            invariant
                i <= self.fragments@.len(),
                fragment_views(fragments@) == fragment_views(self.fragments@).subrange(0, i as int),
            decreases self.fragments@.len() - i,
        {
            let ghost before = fragments@;
            fragments.push(self.fragments[i].clone());
            proof {
                assert(fragment_views(fragments@) =~= fragment_views(before).push(self.fragments@[i as int]@));
                assert(fragment_views(self.fragments@).subrange(0, i + 1) =~= fragment_views(
                    self.fragments@,
                ).subrange(0, i as int).push(self.fragments@[i as int]@));
            }
            i = i + 1;
        }
        proof {
            assert(fragment_views(self.fragments@).subrange(0, i as int) =~= fragment_views(self.fragments@));
        }
        ClientIdentity {
            product: self.product.clone(),
            version: self.version.clone(),
            contact: match &self.contact {
                Some(c) => Some(c.clone()),
                None => None,
            },
            application: match &self.application {
                Some(a) => Some(a.clone()),
                None => None,
            },
            fragments,
        }
    }
}

impl Default for ClientIdentity {
    fn default() -> (r: Self)
        ensures
            r@ == (IdentityView {
                product: SDK_NAME@,
                version: SDK_VERSION@,
                contact: None,
                application: None,
                fragments: Seq::empty(),
            }),
    {
        Self::philo()
    }
}

} // verus!
