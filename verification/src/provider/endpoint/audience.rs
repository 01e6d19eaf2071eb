//! Credential destination restrictions.

use vstd::prelude::*;

use crate::error::{configuration, is_configuration, LlmError};
use crate::text::{ascii_lowercase, starts_with, str_eq, str_starts_with};

use super::origin::{Origin, OriginView, ResolvedEndpoint};

verus! {

/// Credential destination restriction.
#[derive(Debug)]
pub enum CredentialAudience {
    /// Official `OpenAI` API at `https://api.openai.com:443`.
    OfficialOpenAi,
    /// Official Anthropic API at `https://api.anthropic.com:443`.
    OfficialAnthropic,
    /// `OpenRouter` API at `https://openrouter.ai:443`.
    OpenRouterApi,
    /// `DeepSeek` API at `https://api.deepseek.com:443`.
    DeepSeekApi,
    /// Z.AI standard `PaaS` API at `https://api.z.ai:443`.
    ZaiStandard,
    /// Z.AI Coding Plan API at `https://api.z.ai:443`.
    ZaiCoding,
    /// Exact origin used only by the explicit test profile.
    TestOnlyExactOrigin(Origin),
}

/// Mathematical form of a [`CredentialBinding`]: origin, required path prefix and label.
pub struct BindingView {
    pub origin: OriginView,
    pub required_path_prefix: Option<Seq<char>>,
    pub label: Seq<char>,
}

/// Immutable credential destination bound to a normalized endpoint origin.
#[derive(Debug)]
pub struct CredentialBinding {
    origin: Origin,
    required_path_prefix: Option<&'static str>,
    label: &'static str,
}

impl View for CredentialBinding {
    type V = BindingView;

    closed spec fn view(&self) -> BindingView {
        BindingView {
            origin: self.origin@,
            required_path_prefix: match self.required_path_prefix {
                Some(p) => Some(p@),
                None => None,
            },
            label: self.label@,
        }
    }
}

impl Clone for CredentialBinding {
    fn clone(&self) -> (r: Self)
        ensures
            r@ == self@,
    {
        CredentialBinding {
            origin: self.origin.clone(),
            required_path_prefix: self.required_path_prefix,
            label: self.label,
        }
    }
}

/// The HTTPS origin on the default port of `host`.
pub open spec fn official_origin(host: Seq<char>) -> OriginView {
    (ascii_lowercase("https"@), ascii_lowercase(host), 443u16)
}

/// The binding a credential audience stands for.
pub open spec fn audience_binding(audience: CredentialAudience) -> BindingView {
    match audience {
        CredentialAudience::OfficialOpenAi => BindingView {
            origin: official_origin("api.openai.com"@),
            required_path_prefix: None,
            label: "official-openai"@,
        },
        CredentialAudience::OfficialAnthropic => BindingView {
            origin: official_origin("api.anthropic.com"@),
            required_path_prefix: None,
            label: "official-anthropic"@,
        },
        CredentialAudience::OpenRouterApi => BindingView {
            origin: official_origin("openrouter.ai"@),
            required_path_prefix: None,
            label: "openrouter"@,
        },
        CredentialAudience::DeepSeekApi => BindingView {
            origin: official_origin("api.deepseek.com"@),
            required_path_prefix: None,
            label: "deepseek"@,
        },
        CredentialAudience::ZaiStandard => BindingView {
            origin: official_origin("api.z.ai"@),
            required_path_prefix: Some("/api/paas/v4/"@),
            label: "zai-standard"@,
        },
        CredentialAudience::ZaiCoding => BindingView {
            origin: official_origin("api.z.ai"@),
            required_path_prefix: Some("/api/coding/paas/v4/"@),
            label: "zai-coding"@,
        },
        CredentialAudience::TestOnlyExactOrigin(origin) => BindingView {
            origin: origin@,
            required_path_prefix: None,
            label: "test-only-exact-origin"@,
        },
    }
}

/// A binding permits an endpoint with exactly its origin whose path starts with its
/// required prefix, if it has one.
pub open spec fn binding_permits(binding: BindingView, origin: OriginView, path: Seq<char>) -> bool {
    binding.origin == origin && match binding.required_path_prefix {
        Some(prefix) => starts_with(path, prefix),
        None => true,
    }
}

/// `r` answers whether `binding` permits `endpoint`.
pub open spec fn binding_checked(
    binding: BindingView,
    endpoint: ResolvedEndpoint,
    r: Result<(), LlmError>,
) -> bool {
    if binding_permits(binding, endpoint.spec_origin(), endpoint.spec_url().path) {
        r is Ok
    } else {
        r matches Err(e) && is_configuration(e, "credential binding does not match endpoint origin"@)
    }
}

proof fn lemma_lowercase_fixed(s: Seq<char>)
    requires
        forall|i: int| 0 <= i < s.len() ==> !('A' <= #[trigger] s[i] && s[i] <= 'Z'),
    ensures
        ascii_lowercase(s) == s,
{
    assert(ascii_lowercase(s) =~= s);
}

/// Each fixed audience sends credentials only to its documented HTTPS origin on port 443
/// and, for the Z.AI plans, only under the plan's API path; a test-only audience only to
/// its exact origin.
pub proof fn lemma_audience_destinations(origin: OriginView, path: Seq<char>, test_origin: Origin)
    ensures
        binding_permits(audience_binding(CredentialAudience::OfficialOpenAi), origin, path) <==> origin
            == ("https"@, "api.openai.com"@, 443u16),
        binding_permits(audience_binding(CredentialAudience::OfficialAnthropic), origin, path) <==> origin
            == ("https"@, "api.anthropic.com"@, 443u16),
        binding_permits(audience_binding(CredentialAudience::OpenRouterApi), origin, path) <==> origin
            == ("https"@, "openrouter.ai"@, 443u16),
        binding_permits(audience_binding(CredentialAudience::DeepSeekApi), origin, path) <==> origin
            == ("https"@, "api.deepseek.com"@, 443u16),
        binding_permits(audience_binding(CredentialAudience::ZaiStandard), origin, path) <==> (origin
            == ("https"@, "api.z.ai"@, 443u16) && starts_with(path, "/api/paas/v4/"@)),
        binding_permits(audience_binding(CredentialAudience::ZaiCoding), origin, path) <==> (origin
            == ("https"@, "api.z.ai"@, 443u16) && starts_with(path, "/api/coding/paas/v4/"@)),
        binding_permits(audience_binding(CredentialAudience::TestOnlyExactOrigin(test_origin)), origin, path)
            <==> origin == test_origin@,
{
    reveal_strlit("https");
    reveal_strlit("api.openai.com");
    reveal_strlit("api.anthropic.com");
    reveal_strlit("openrouter.ai");
    reveal_strlit("api.deepseek.com");
    reveal_strlit("api.z.ai");
    lemma_lowercase_fixed("https"@);
    lemma_lowercase_fixed("api.openai.com"@);
    lemma_lowercase_fixed("api.anthropic.com"@);
    lemma_lowercase_fixed("openrouter.ai"@);
    lemma_lowercase_fixed("api.deepseek.com"@);
    lemma_lowercase_fixed("api.z.ai"@);
}

/// A Z.AI Coding Plan credential is never sent to the standard `PaaS` API path, and a
/// standard credential never to the Coding Plan path.
pub proof fn lemma_zai_plans_are_disjoint(origin: OriginView, path: Seq<char>)
    ensures
        !(binding_permits(audience_binding(CredentialAudience::ZaiCoding), origin, path)
            && binding_permits(audience_binding(CredentialAudience::ZaiStandard), origin, path)),
{
    reveal_strlit("/api/paas/v4/");
    reveal_strlit("/api/coding/paas/v4/");
    if starts_with(path, "/api/paas/v4/"@) && starts_with(path, "/api/coding/paas/v4/"@) {
        assert(path[5] == "/api/paas/v4/"@[5]);
        assert(path[5] == "/api/coding/paas/v4/"@[5]);
    }
}

impl CredentialBinding {
    /// Binds a credential to `https://<host>:443`, under a fixed label.
    fn official(host: &str, label: &'static str) -> (r: Self)
        ensures
            r@ == (BindingView {
                origin: official_origin(host@),
                required_path_prefix: None,
                label: label@,
            }),
    {
        CredentialBinding { origin: Origin::new("https", host, 443), required_path_prefix: None, label }
    }

    /// Binds a credential to `https://<host>:443` and paths under a fixed prefix, under a
    /// fixed label.
    fn official_with_path(host: &str, required_path_prefix: &'static str, label: &'static str) -> (r:
        Self)
        ensures
            r@ == (BindingView {
                origin: official_origin(host@),
                required_path_prefix: Some(required_path_prefix@),
                label: label@,
            }),
    {
        CredentialBinding {
            origin: Origin::new("https", host, 443),
            required_path_prefix: Some(required_path_prefix),
            label,
        }
    }

    /// Binds a credential to the exact origin of a validated production HTTPS endpoint.
    pub fn exact_https_origin(endpoint: &ResolvedEndpoint) -> (r: Result<Self, LlmError>)
        ensures
            endpoint.spec_origin().0 != "https"@ ==> (r matches Err(e) && is_configuration(
                e,
                "production credential binding requires an HTTPS endpoint"@,
            )),
            endpoint.spec_origin().0 == "https"@ ==> (r matches Ok(b) && b@ == (BindingView {
                origin: endpoint.spec_origin(),
                required_path_prefix: None,
                label: "exact-https-origin"@,
            })),
    {
        if !str_eq(endpoint.origin().scheme(), "https") {
            return Err(configuration("production credential binding requires an HTTPS endpoint"));
        }
        Ok(
            CredentialBinding {
                origin: endpoint.origin().clone(),
                required_path_prefix: None,
                label: "exact-https-origin",
            },
        )
    }

    /// Returns the fixed official `OpenAI` credential destination.
    pub fn official_openai() -> (r: Self)
        ensures
            r@ == audience_binding(CredentialAudience::OfficialOpenAi),
    {
        Self::official("api.openai.com", "official-openai")
    }

    /// Returns the fixed official Anthropic credential destination.
    pub fn official_anthropic() -> (r: Self)
        ensures
            r@ == audience_binding(CredentialAudience::OfficialAnthropic),
    {
        Self::official("api.anthropic.com", "official-anthropic")
    }

    /// Binds a credential to exactly `origin`, for the explicit test profile.
    pub fn exact_origin_for_test(origin: Origin) -> (r: Self)
        ensures
            r@ == (BindingView {
                origin: origin@,
                required_path_prefix: None,
                label: "test-only-exact-origin"@,
            }),
    {
        CredentialBinding { origin, required_path_prefix: None, label: "test-only-exact-origin" }
    }

    /// Returns the binding a credential audience stands for.
    pub fn for_audience(audience: &CredentialAudience) -> (r: Self)
        ensures
            r@ == audience_binding(*audience),
    {
        match audience {
            CredentialAudience::OfficialOpenAi => Self::official_openai(),
            CredentialAudience::OfficialAnthropic => Self::official_anthropic(),
            CredentialAudience::OpenRouterApi => Self::official("openrouter.ai", "openrouter"),
            CredentialAudience::DeepSeekApi => Self::official("api.deepseek.com", "deepseek"),
            CredentialAudience::ZaiStandard => Self::official_with_path(
                "api.z.ai",
                "/api/paas/v4/",
                "zai-standard",
            ),
            CredentialAudience::ZaiCoding => Self::official_with_path(
                "api.z.ai",
                "/api/coding/paas/v4/",
                "zai-coding",
            ),
            CredentialAudience::TestOnlyExactOrigin(origin) => Self::exact_origin_for_test(
                origin.clone(),
            ),
        }
    }

    /// Returns the stable label.
    pub fn label(&self) -> (r: &'static str)
        ensures
            r@ == self@.label,
    {
        self.label
    }

    /// Returns the bound origin.
    pub fn origin(&self) -> (r: &Origin)
        ensures
            r@ == self@.origin,
    {
        &self.origin
    }

    /// Validates that the binding permits sending a credential to the endpoint.
    pub fn validate(&self, endpoint: &ResolvedEndpoint) -> (r: Result<(), LlmError>)
        ensures
            binding_checked(self@, *endpoint, r),
    {
        let allowed = self.origin == *endpoint.origin() && match self.required_path_prefix {
            Some(prefix) => str_starts_with(endpoint.url_facts().path.as_str(), prefix),
            None => true,
        };
        if allowed {
            Ok(())
        } else {
            Err(configuration("credential binding does not match endpoint origin"))
        }
    }
}

impl CredentialBinding {
    /// Whether two bindings are the same destination restriction.
    pub fn same_as(&self, other: &CredentialBinding) -> (r: bool)
        ensures
            r == (self@ == other@),
    {
        let same_prefix = match (self.required_path_prefix, other.required_path_prefix) {
            (Some(a), Some(b)) => str_eq(a, b),
            (None, None) => true,
            _ => false,
        };
        self.origin == other.origin && same_prefix && str_eq(self.label, other.label)
    }
}

impl Clone for CredentialAudience {
    fn clone(&self) -> (r: Self)
        ensures
            audience_binding(r) == audience_binding(*self),
    {
        match self {
            CredentialAudience::OfficialOpenAi => CredentialAudience::OfficialOpenAi,
            CredentialAudience::OfficialAnthropic => CredentialAudience::OfficialAnthropic,
            CredentialAudience::OpenRouterApi => CredentialAudience::OpenRouterApi,
            CredentialAudience::DeepSeekApi => CredentialAudience::DeepSeekApi,
            CredentialAudience::ZaiStandard => CredentialAudience::ZaiStandard,
            CredentialAudience::ZaiCoding => CredentialAudience::ZaiCoding,
            CredentialAudience::TestOnlyExactOrigin(origin) => CredentialAudience::TestOnlyExactOrigin(
                origin.clone(),
            ),
        }
    }
}

impl CredentialAudience {
    /// Validates that a credential may be sent to the endpoint.
    pub fn validate(&self, endpoint: &ResolvedEndpoint) -> (r: Result<(), LlmError>)
        ensures
            binding_checked(audience_binding(*self), *endpoint, r),
    {
        CredentialBinding::for_audience(self).validate(endpoint)
    }
}

} // verus!
