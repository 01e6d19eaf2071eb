//! Reviewed OpenRouter application attribution headers.

use vstd::prelude::*;
use vstd::utf8::encode_utf8;

use crate::error::{is_validation, validation, LlmError, ValidationReason};
use crate::provider::auth::header_value_accepts;
use crate::provider::endpoint::target::{parse_url_facts, parse_url_host, parsed_url_facts, parsed_url_host};
use crate::provider::headers::pipeline::{lemma_header_text_bytes, HeaderOperation, HeaderOperationView};
use crate::text::{all_ascii, all_chars_in, all_in_set, in_set, is_ascii_char, concat, owned, str_eq, utf8_len, utf8_len_exceeds, CharSet};

verus! {

/// The summary of every attribution rejection.
pub open spec fn attribution_summary() -> Seq<char> {
    "OpenRouter attribution value is outside the safe structured subset"@
}

/// `e` rejects the attribution value of `field`.
pub open spec fn attribution_error(e: LlmError, field: Seq<char>) -> bool {
    is_validation(e, field, ValidationReason::InvalidIdentifier, attribution_summary())
}

fn invalid(field: &str) -> (r: LlmError)
    ensures
        attribution_error(r, field@),
{
    validation(
        field,
        ValidationReason::InvalidIdentifier,
        "OpenRouter attribution value is outside the safe structured subset",
    )
}

/// A site origin: an `https` URL with a host and no user information, query, fragment or
/// path beyond `/`.
pub open spec fn site_origin_ok(site: Seq<char>) -> bool {
    parsed_url_facts(site) matches Some(u) && u.scheme == "https"@ && parsed_url_host(site) is Some
        && u.username.len() == 0 && u.password is None && u.query is None && u.fragment is None
        && (u.path == ""@ || u.path == "/"@)
}

/// A title: 1 to 128 ASCII characters.
pub open spec fn title_ok(title: Seq<char>) -> bool {
    title.len() > 0 && utf8_len(title) <= 128 && all_ascii(title)
}

/// A category: 1 to 32 ASCII letters, digits, `-` or `_`.
pub open spec fn category_ok(category: Seq<char>) -> bool {
    category.len() > 0 && utf8_len(category) <= 32 && all_in_set(category, CharSet::Category)
}

/// A category list: 1 to 8 acceptable categories.
pub open spec fn categories_ok(categories: Seq<Seq<char>>) -> bool {
    categories.len() > 0 && categories.len() <= 8 && forall|i: int|
        0 <= i < categories.len() ==> #[trigger] category_ok(categories[i])
}

/// The categories joined with `,`.
pub open spec fn joined(categories: Seq<Seq<char>>) -> Seq<char>
    decreases categories.len(),
{
    if categories.len() == 0 {
        Seq::empty()
    } else if categories.len() == 1 {
        categories[0]
    } else {
        joined(categories.drop_last()) + ","@ + categories.last()
    }
}

/// Mathematical form of an [`OpenRouterAttribution`].
pub struct AttributionView {
    pub site_origin: Seq<char>,
    pub title: Seq<char>,
    pub categories: Option<Seq<char>>,
}

/// Reviewed OpenRouter application attribution headers.
pub struct OpenRouterAttribution {
    site_origin: String,
    title: String,
    categories: Option<String>,
}

impl View for OpenRouterAttribution {
    type V = AttributionView;

    closed spec fn view(&self) -> AttributionView {
        AttributionView {
            site_origin: self.site_origin@,
            title: self.title@,
            categories: match self.categories {
                Some(c) => Some(c@),
                None => None,
            },
        }
    }
}

impl OpenRouterAttribution {
    #[verifier::type_invariant]
    spec fn header_safe(self) -> bool {
        &&& all_in_set(self.site_origin@, CharSet::HeaderValue)
        &&& all_in_set(self.title@, CharSet::HeaderValue)
        &&& (self.categories matches Some(c) ==> all_in_set(c@, CharSet::HeaderValue))
    }

    /// Creates origin-only attribution; paths, query, fragment and user information are
    /// rejected, and the title must be short ASCII.
    pub fn new(site_origin: &str, title: &str) -> (r: Result<Self, LlmError>)
        ensures
            !site_origin_ok(site_origin@) ==> (r matches Err(e) && attribution_error(
                e,
                "openrouter_attribution.site"@,
            )),
            site_origin_ok(site_origin@) && !title_ok(title@) ==> (r matches Err(e)
                && attribution_error(e, "openrouter_attribution.title"@)),
            site_origin_ok(site_origin@) && title_ok(title@) ==> if !all_in_set(
                site_origin@,
                CharSet::HeaderValue,
            ) {
                r matches Err(e) && attribution_error(e, "openrouter_attribution.site"@)
            } else if !all_in_set(title@, CharSet::HeaderValue) {
                r matches Err(e) && attribution_error(e, "openrouter_attribution.title"@)
            } else {
                r matches Ok(a) && a@ == (AttributionView {
                    site_origin: site_origin@,
                    title: title@,
                    categories: None,
                })
            },
    {
        let url = match parse_url_facts(site_origin) {
            Some(url) => url,
            None => {
                return Err(invalid("openrouter_attribution.site"));
            },
        };
        let host_present = parse_url_host(site_origin).is_some();
        let path_ok = str_eq(url.path.as_str(), "") || str_eq(url.path.as_str(), "/");
        proof {
            reveal_strlit("");
        }
        if !str_eq(url.scheme.as_str(), "https") || !host_present || url.username.unicode_len()
            != 0 || url.password.is_some() || url.query.is_some() || url.fragment.is_some()
            || !path_ok {
            return Err(invalid("openrouter_attribution.site"));
        }
        if title.unicode_len() == 0 || utf8_len_exceeds(title, 128) || !all_chars_in(
            title,
            CharSet::Ascii,
        ) {
            return Err(invalid("openrouter_attribution.title"));
        }
        assert(title_ok(title@)) by {
            assert forall|i: int| 0 <= i < title@.len() implies is_ascii_char(#[trigger] title@[i]) by {
                assert(in_set(title@[i], CharSet::Ascii));
            }
        }
        if !header_value_accepts(site_origin) {
            return Err(invalid("openrouter_attribution.site"));
        }
        if !header_value_accepts(title) {
            return Err(invalid("openrouter_attribution.title"));
        }
        Ok(OpenRouterAttribution { site_origin: owned(site_origin), title: owned(title), categories: None })
    }

    /// Adds a comma-separated list of 1 to 8 short categories.
    pub fn with_categories(self, categories: &[&str]) -> (r: Result<Self, LlmError>)
        ensures
            ({
                let names = categories@.map_values(|c: &str| c@);
                if !categories_ok(names) || !all_in_set(joined(names), CharSet::HeaderValue) {
                    r matches Err(e) && attribution_error(e, "openrouter_attribution.categories"@)
                } else {
                    r matches Ok(a) && a@ == (AttributionView {
                        site_origin: self@.site_origin,
                        title: self@.title,
                        categories: Some(joined(names)),
                    })
                }
            }),
    {
        proof {
            use_type_invariant(&self);
        }
        let ghost names = categories@.map_values(|c: &str| c@);
        let n = categories.len();
        if n == 0 || n > 8 {
            return Err(invalid("openrouter_attribution.categories"));
        }
        let mut i: usize = 0;
        while i < n
            invariant
                n == categories@.len(),
                names == categories@.map_values(|c: &str| c@),
                i <= n,
                forall|k: int| 0 <= k < i ==> #[trigger] category_ok(names[k]),
            decreases n - i,
        {
            let c = categories[i];
            assert(names[i as int] == c@);
            if c.unicode_len() == 0 || utf8_len_exceeds(c, 32) || !all_chars_in(c, CharSet::Category) {
                assert(!category_ok(names[i as int]));
                return Err(invalid("openrouter_attribution.categories"));
            }
            assert(category_ok(names[i as int]));
            i = i + 1;
        }
        let mut out = owned(categories[0]);
        let mut j: usize = 1;
        proof {
            assert(names.take(1) =~= seq![names[0]]);
        }
        while j < n
            invariant
                n == categories@.len(),
                names == categories@.map_values(|c: &str| c@),
                1 <= j <= n,
                out@ == joined(names.take(j as int)),
            decreases n - j,
        {
            out = concat(concat(out, ","), categories[j]);
            proof {
                let t = names.take(j + 1);
                assert(t.drop_last() =~= names.take(j as int));
                assert(t.last() == names[j as int]);
            }
            j = j + 1;
        }
        proof {
            assert(names.take(n as int) =~= names);
        }
        if !header_value_accepts(out.as_str()) {
            return Err(invalid("openrouter_attribution.categories"));
        }
        Ok(
            OpenRouterAttribution {
                site_origin: self.site_origin,
                title: self.title,
                categories: Some(out),
            },
        )
    }

    /// The header operations the attribution adds: `HTTP-Referer`, `X-OpenRouter-Title`,
    /// and `X-OpenRouter-Categories` when categories are set.
    pub fn operations(&self) -> (r: Vec<HeaderOperation>)
        ensures
            r@.len() == if self@.categories is Some { 3int } else { 2int },
            r@[0]@ == HeaderOperationView::Assign(
                "http-referer"@,
                encode_utf8(self@.site_origin),
                false,
            ),
            r@[1]@ == HeaderOperationView::Assign(
                "x-openrouter-title"@,
                encode_utf8(self@.title),
                false,
            ),
            self@.categories matches Some(c) ==> r@[2]@ == HeaderOperationView::Assign(
                "x-openrouter-categories"@,
                encode_utf8(c),
                false,
            ),
    {
        proof {
            use_type_invariant(self);
            lemma_header_text_bytes(self.site_origin@);
            lemma_header_text_bytes(self.title@);
        }
        let mut operations: Vec<HeaderOperation> = Vec::new();
        operations.push(HeaderOperation::set("http-referer", self.site_origin.as_str().as_bytes()).unwrap());
        operations.push(HeaderOperation::set("x-openrouter-title", self.title.as_str().as_bytes()).unwrap());
        if let Some(categories) = &self.categories {
            proof {
                lemma_header_text_bytes(categories@);
            }
            operations.push(
                HeaderOperation::set("x-openrouter-categories", categories.as_str().as_bytes()).unwrap(),
            );
        }
        operations
    }
}

impl Clone for OpenRouterAttribution {
    fn clone(&self) -> (r: Self)
        ensures
            r@ == self@,
    {
        proof {
            use_type_invariant(self);
        }
        OpenRouterAttribution {
            site_origin: self.site_origin.clone(),
            title: self.title.clone(),
            categories: match &self.categories {
                Some(c) => Some(c.clone()),
                None => None,
            },
        }
    }
}

} // verus!
