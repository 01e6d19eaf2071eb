//! Network-target and redirect policy.

use vstd::prelude::*;

use crate::error::{configuration, is_configuration, LlmError};
use crate::text::{
    all_chars_in, all_in_set, ascii_lowercase, contains_seq, ends_with, starts_with, str_contains,
    str_ends_with, str_eq, str_starts_with, to_ascii_lowercase, CharSet,
};

use super::audience::{binding_permits, BindingView, CredentialBinding};
use super::origin::{
    host_text, host_to_string, origin_of, EndpointResolutionDiagnostics, Origin, OriginView,
    ResolvedEndpoint,
};
use super::target::{
    is_loopback_ipv4, is_loopback_ipv6, is_public_ipv4, is_public_ipv6, public_ipv4, public_ipv6,
    IpAddress, UrlFacts, UrlFactsView, UrlHost, UrlHostView,
};

verus! {

/// Network mode selected by a trusted provider preset.
#[derive(Clone, Copy, Debug, PartialEq, Eq, Structural)]
pub enum EndpointMode {
    /// Public HTTPS production endpoints.
    Production,
    /// Local loopback endpoints for tests.
    TestOnly,
}

/// A host a production endpoint may target: not localhost, not a `.local` or
/// `.localhost` name, not punycode, and a publicly routable address.
pub open spec fn is_public_host(host: UrlHostView) -> bool {
    match host {
        UrlHostView::Domain(name) => {
            let lower = ascii_lowercase(name);
            !(lower == "localhost"@ || ends_with(lower, ".localhost"@) || ends_with(
                lower,
                ".local"@,
            ) || starts_with(lower, "xn--"@) || contains_seq(lower, ".xn--"@))
        },
        UrlHostView::Ipv4(octets, _) => is_public_ipv4(octets),
        UrlHostView::Ipv6(segments, _) => is_public_ipv6(segments),
    }
}

/// A loopback host: `localhost` in any case, 127/8 or `::1`.
pub open spec fn is_loopback_host(host: UrlHostView) -> bool {
    match host {
        UrlHostView::Domain(name) => ascii_lowercase(name) == "localhost"@,
        UrlHostView::Ipv4(octets, _) => octets.len() == 4 && is_loopback_ipv4(octets),
        UrlHostView::Ipv6(segments, _) => segments.len() == 8 && is_loopback_ipv6(segments),
    }
}

fn public_host(host: &UrlHost) -> (r: bool)
    ensures
        r == is_public_host(host@),
{
    match host {
        UrlHost::Domain(name) => {
            let lower = to_ascii_lowercase(name.as_str());
            let l = lower.as_str();
            !(str_eq(l, "localhost") || str_ends_with(l, ".localhost") || str_ends_with(
                l,
                ".local",
            ) || str_starts_with(l, "xn--") || str_contains(l, ".xn--"))
        },
        UrlHost::Ipv4(octets, _) => public_ipv4(octets),
        UrlHost::Ipv6(segments, _) => public_ipv6(segments),
    }
}

fn loopback_host(host: &UrlHost) -> (r: bool)
    ensures
        r == is_loopback_host(host@),
{
    match host {
        UrlHost::Domain(name) => {
            let lower = to_ascii_lowercase(name.as_str());
            str_eq(lower.as_str(), "localhost")
        },
        UrlHost::Ipv4(octets, _) => octets[0] == 127,
        UrlHost::Ipv6(s, _) => s[0] == 0 && s[1] == 0 && s[2] == 0 && s[3] == 0 && s[4] == 0
            && s[5] == 0 && s[6] == 0 && s[7] == 1,
    }
}

/// Why a URL is refused before anything mode-specific: user information, a fragment, a
/// scheme other than HTTP(S), or no host.
pub open spec fn common_rejection(url: UrlFactsView, host: Option<UrlHostView>) -> Option<
    Seq<char>,
> {
    if url.username.len() > 0 || url.password is Some {
        Some("endpoint userinfo is forbidden"@)
    } else if url.fragment is Some {
        Some("endpoint fragment is forbidden"@)
    } else if !(url.scheme == "http"@ || url.scheme == "https"@) {
        Some("endpoint scheme must be HTTP(S)"@)
    } else if host is None {
        Some("endpoint must include a host"@)
    } else {
        None
    }
}

/// Why a URL is refused under `mode` and an optional host allowlist, or `None` when it
/// is accepted.
pub open spec fn policy_rejection(
    mode: EndpointMode,
    allowed: Set<Seq<char>>,
    url: UrlFactsView,
    host: Option<UrlHostView>,
) -> Option<Seq<char>> {
    if common_rejection(url, host) is Some {
        common_rejection(url, host)
    } else {
        let h = host.unwrap();
        let mode_rejection = match mode {
            EndpointMode::Production => if url.scheme != "https"@ {
                Some("production endpoint requires HTTPS"@)
            } else if !is_public_host(h) {
                Some(
                    "production endpoint must not target private, loopback, link-local, or IDN hosts"@,
                )
            } else {
                None
            },
            EndpointMode::TestOnly => if !(url.scheme == "http"@ || url.scheme == "https"@)
                || !is_loopback_host(h) {
                Some("test endpoint must use HTTP(S) on a loopback host"@)
            } else {
                None
            },
        };
        if mode_rejection is Some {
            mode_rejection
        } else if !allowed.is_empty() && !allowed.contains(host_text(h)) {
            Some("endpoint host is not allowlisted"@)
        } else {
            None
        }
    }
}

/// An address name resolution may hand to the connector under `mode`.
pub open spec fn address_allowed(mode: EndpointMode, address: IpAddress) -> bool {
    match mode {
        EndpointMode::Production => match address {
            IpAddress::V4(o) => is_public_ipv4(o@),
            IpAddress::V6(s) => is_public_ipv6(s@),
        },
        EndpointMode::TestOnly => match address {
            IpAddress::V4(o) => is_loopback_ipv4(o@),
            IpAddress::V6(s) => is_loopback_ipv6(s@),
        },
    }
}

/// Endpoint network class and optional exact-host allowlist.
#[derive(Debug)]
pub struct EndpointNetworkPolicy {
    mode: EndpointMode,
    allowed_hosts: Vec<String>,
}

/// The view of an optional host reference.
pub open spec fn opt_host(host: Option<&UrlHost>) -> Option<UrlHostView> {
    match host {
        Some(h) => Some(h@),
        None => None,
    }
}

impl EndpointNetworkPolicy {
    /// The network class.
    pub closed spec fn spec_mode(&self) -> EndpointMode {
        self.mode
    }

    /// The host allowlist; empty allows every host of the class.
    pub closed spec fn spec_allowed(&self) -> Set<Seq<char>> {
        Set::new(|h: Seq<char>| exists|i: int| 0 <= i < self.allowed_hosts@.len() && #[trigger] self.allowed_hosts@[i]@ == h)
    }

    /// Requires HTTPS and rejects literal non-public addresses, localhost names, and IDN hosts.
    pub fn public_https() -> (r: Self)
        ensures
            r.spec_mode() == EndpointMode::Production,
            r.spec_allowed() == Set::<Seq<char>>::empty(),
    {
        let r = EndpointNetworkPolicy { mode: EndpointMode::Production, allowed_hosts: Vec::new() };
        assert(r.spec_allowed() =~= Set::<Seq<char>>::empty());
        r
    }

    /// Permits HTTP(S) loopback endpoints only, for tests.
    pub fn test_loopback() -> (r: Self)
        ensures
            r.spec_mode() == EndpointMode::TestOnly,
            r.spec_allowed() == Set::<Seq<char>>::empty(),
    {
        let r = EndpointNetworkPolicy { mode: EndpointMode::TestOnly, allowed_hosts: Vec::new() };
        assert(r.spec_allowed() =~= Set::<Seq<char>>::empty());
        r
    }

    /// The policy of a network mode.
    pub fn for_mode(mode: EndpointMode) -> (r: Self)
        ensures
            r.spec_mode() == mode,
            r.spec_allowed() == Set::<Seq<char>>::empty(),
    {
        match mode {
            EndpointMode::Production => Self::public_https(),
            EndpointMode::TestOnly => Self::test_loopback(),
        }
    }

    /// Restricts a policy to one additional exact normalized hostname.
    pub fn with_allowed_host(self, host: &str) -> (r: Result<Self, LlmError>)
        ensures
            ({
                let lower = ascii_lowercase(host@);
                if lower.len() == 0 || !all_in_set(lower, CharSet::HostLabel) {
                    r matches Err(e) && is_configuration(e, "invalid endpoint allowlist host"@)
                } else {
                    r matches Ok(p) && p.spec_mode() == self.spec_mode() && p.spec_allowed()
                        == self.spec_allowed().insert(lower)
                }
            }),
    {
        let lower = to_ascii_lowercase(host);
        if lower.unicode_len() == 0 || !all_chars_in(lower.as_str(), CharSet::HostLabel) {
            return Err(configuration("invalid endpoint allowlist host"));
        }
        let ghost before = self.spec_allowed();
        let EndpointNetworkPolicy { mode, allowed_hosts } = self;
        let mut allowed_hosts = allowed_hosts;
        let ghost old_hosts = allowed_hosts@;
        allowed_hosts.push(lower);
        let r = EndpointNetworkPolicy { mode, allowed_hosts };
        proof {
            assert forall|h: Seq<char>| #[trigger] r.spec_allowed().contains(h) == before.insert(
                ascii_lowercase(host@),
            ).contains(h) by {
                if r.spec_allowed().contains(h) {
                    let i = choose|i: int|
                        0 <= i < r.allowed_hosts@.len() && #[trigger] r.allowed_hosts@[i]@ == h;
                    if i < old_hosts.len() {
                        assert(old_hosts[i]@ == h);
                    }
                }
                if before.contains(h) {
                    let i = choose|i: int|
                        0 <= i < old_hosts.len() && #[trigger] old_hosts[i]@ == h;
                    assert(r.allowed_hosts@[i]@ == h);
                }
                if h == ascii_lowercase(host@) {
                    assert(r.allowed_hosts@[old_hosts.len() as int]@ == h);
                }
            }
            assert(r.spec_allowed() =~= before.insert(ascii_lowercase(host@)));
        }
        Ok(r)
    }

    fn allows_host(&self, text: &str) -> (r: bool)
        ensures
            r == self.spec_allowed().contains(text@),
    {
        let mut i: usize = 0;
        while i < self.allowed_hosts.len()
            invariant
                i <= self.allowed_hosts@.len(),
                forall|j: int| 0 <= j < i ==> self.allowed_hosts@[j]@ != text@,
            decreases self.allowed_hosts.len() - i,
        {
            if str_eq(self.allowed_hosts[i].as_str(), text) {
                proof {
                    assert(self.allowed_hosts@[i as int]@ == text@);
                }
                return true;
            }
            i = i + 1;
        }
        false
    }

    /// Validates a parsed URL and its host before it can become a resolved endpoint.
    pub fn validate(&self, url: &UrlFacts, host: Option<&UrlHost>) -> (r: Result<(), LlmError>)
        ensures
            match policy_rejection(self.spec_mode(), self.spec_allowed(), url@, opt_host(host)) {
                Some(message) => r matches Err(e) && is_configuration(e, message),
                None => r is Ok,
            },
    {
        if url.username.unicode_len() > 0 || url.password.is_some() {
            return Err(configuration("endpoint userinfo is forbidden"));
        }
        if url.fragment.is_some() {
            return Err(configuration("endpoint fragment is forbidden"));
        }
        let scheme = url.scheme.as_str();
        let web = str_eq(scheme, "http") || str_eq(scheme, "https");
        if !web {
            return Err(configuration("endpoint scheme must be HTTP(S)"));
        }
        let h = match host {
            Some(h) => h,
            None => {
                return Err(configuration("endpoint must include a host"));
            },
        };
        match self.mode {
            EndpointMode::Production => {
                if !str_eq(scheme, "https") {
                    return Err(configuration("production endpoint requires HTTPS"));
                }
                if !public_host(h) {
                    return Err(
                        configuration(
                            "production endpoint must not target private, loopback, link-local, or IDN hosts",
                        ),
                    );
                }
            },
            EndpointMode::TestOnly => {
                if !web || !loopback_host(h) {
                    return Err(configuration("test endpoint must use HTTP(S) on a loopback host"));
                }
            },
        }
        if self.allowed_hosts.len() > 0 {
            proof {
                assert(self.spec_allowed().contains(self.allowed_hosts@[0]@));
            }
            let normalized = host_to_string(h);
            if !self.allows_host(normalized.as_str()) {
                return Err(configuration("endpoint host is not allowlisted"));
            }
        } else {
            proof {
                assert(self.spec_allowed() =~= Set::<Seq<char>>::empty());
            }
        }
        Ok(())
    }

    /// Validates every address returned by name resolution before a connection uses it.
    pub fn validate_resolved_addresses(&self, addresses: &[IpAddress]) -> (r: Result<(), LlmError>)
        ensures
            addresses@.len() == 0 ==> (r matches Err(e) && is_configuration(
                e,
                "DNS resolution returned no addresses"@,
            )),
            addresses@.len() > 0 && (forall|i: int|
                0 <= i < addresses@.len() ==> address_allowed(self.spec_mode(), #[trigger] addresses@[i]))
                ==> r is Ok,
            addresses@.len() > 0 && !(forall|i: int|
                0 <= i < addresses@.len() ==> address_allowed(self.spec_mode(), #[trigger] addresses@[i]))
                ==> (r matches Err(e) && is_configuration(
                e,
                "DNS resolution included a forbidden network address"@,
            )),
    {
        if addresses.len() == 0 {
            return Err(configuration("DNS resolution returned no addresses"));
        }
        let mut i: usize = 0;
        while i < addresses.len()
            invariant
                i <= addresses@.len(),
                forall|j: int| 0 <= j < i ==> address_allowed(self.spec_mode(), #[trigger] addresses@[j]),
            decreases addresses.len() - i,
        {
            let allowed = match self.mode {
                EndpointMode::Production => match &addresses[i] {
                    IpAddress::V4(o) => public_ipv4(o),
                    IpAddress::V6(s) => public_ipv6(s),
                },
                EndpointMode::TestOnly => match &addresses[i] {
                    IpAddress::V4(o) => o[0] == 127,
                    IpAddress::V6(s) => s[0] == 0 && s[1] == 0 && s[2] == 0 && s[3] == 0 && s[4]
                        == 0 && s[5] == 0 && s[6] == 0 && s[7] == 1,
                },
            };
            if !allowed {
                return Err(configuration("DNS resolution included a forbidden network address"));
            }
            i = i + 1;
        }
        Ok(())
    }
}

/// Redirect policy for credential-bearing requests.
#[derive(Clone, Copy, Debug, PartialEq, Eq, Structural)]
pub enum RedirectPolicy {
    /// Reject every redirect.
    Disabled,
    /// Permit redirects only to the same scheme, host, and effective port.
    SameOrigin,
}

impl Default for RedirectPolicy {
    fn default() -> (r: Self)
        ensures
            r == RedirectPolicy::Disabled,
    {
        RedirectPolicy::Disabled
    }
}

/// The network mode a redirect from an endpoint is judged under: production for an HTTPS
/// endpoint on a non-loopback host, test otherwise.
pub open spec fn redirect_mode(from_origin: OriginView, from_host: UrlHostView) -> EndpointMode {
    if from_origin.0 == "https"@ && !is_loopback_host(from_host) {
        EndpointMode::Production
    } else {
        EndpointMode::TestOnly
    }
}

/// Why a redirect from an endpoint to a URL is refused, optionally re-checking a
/// credential binding, or `None` when it is allowed.
pub open spec fn redirect_rejection(
    policy: RedirectPolicy,
    from_origin: OriginView,
    from_host: UrlHostView,
    to: UrlFactsView,
    to_host: Option<UrlHostView>,
    binding: Option<BindingView>,
) -> Option<Seq<char>> {
    if policy == RedirectPolicy::Disabled {
        Some("redirects are disabled"@)
    } else if to.query is Some {
        Some("redirect query is forbidden"@)
    } else if policy_rejection(redirect_mode(from_origin, from_host), Set::empty(), to, to_host) is Some {
        policy_rejection(redirect_mode(from_origin, from_host), Set::empty(), to, to_host)
    } else {
        match origin_of(to, to_host) {
            Err(message) => Some(message),
            Ok(target) => if target != from_origin {
                Some("cross-origin redirect is forbidden"@)
            } else if from_origin.0 == "https"@ && target.0 != "https"@ {
                Some("HTTPS redirect downgrade is forbidden"@)
            } else {
                match binding {
                    Some(b) => if !binding_permits(b, target, to.path) {
                        Some("credential binding does not match endpoint origin"@)
                    } else {
                        None
                    },
                    None => None,
                }
            },
        }
    }
}

impl RedirectPolicy {
    fn validate_inner(
        self,
        from: &ResolvedEndpoint,
        to: &UrlFacts,
        to_host: Option<UrlHost>,
        binding: Option<&CredentialBinding>,
    ) -> (r: Result<ResolvedEndpoint, LlmError>)
        ensures
            match redirect_rejection(
                self,
                from.spec_origin(),
                from.spec_host(),
                to@,
                opt_host_owned(to_host),
                match binding {
                    Some(b) => Some(b@),
                    None => None,
                },
            ) {
                Some(message) => r matches Err(e) && is_configuration(e, message),
                None => r matches Ok(target) && target.spec_url() == to@ && target.spec_origin()
                    == from.spec_origin(),
            },
    {
        if self == RedirectPolicy::Disabled {
            return Err(configuration("redirects are disabled"));
        }
        if to.query.is_some() {
            return Err(configuration("redirect query is forbidden"));
        }
        let policy = if str_eq(from.origin().scheme(), "https") && !loopback_host(from.host()) {
            EndpointNetworkPolicy::public_https()
        } else {
            EndpointNetworkPolicy::test_loopback()
        };
        match &to_host {
            Some(h) => policy.validate(to, Some(h))?,
            None => policy.validate(to, None)?,
        }
        let target = ResolvedEndpoint::new(to.clone(), to_host, EndpointResolutionDiagnostics::default())?;
        if *target.origin() != *from.origin() {
            return Err(configuration("cross-origin redirect is forbidden"));
        }
        if str_eq(from.origin().scheme(), "https") && !str_eq(target.origin().scheme(), "https") {
            return Err(configuration("HTTPS redirect downgrade is forbidden"));
        }
        if let Some(b) = binding {
            b.validate(&target)?;
        }
        Ok(target)
    }

    /// Checks a proposed redirect without performing network I/O.
    pub fn validate(self, from: &ResolvedEndpoint, to: &UrlFacts, to_host: Option<UrlHost>) -> (r:
        Result<(), LlmError>)
        ensures
            match redirect_rejection(
                self,
                from.spec_origin(),
                from.spec_host(),
                to@,
                opt_host_owned(to_host),
                None,
            ) {
                Some(message) => r matches Err(e) && is_configuration(e, message),
                None => r is Ok,
            },
    {
        match self.validate_inner(from, to, to_host, None) {
            Ok(_) => Ok(()),
            Err(e) => Err(e),
        }
    }

    /// Revalidates URL policy and credential audience for one redirect hop.
    pub fn validate_hop(
        self,
        from: &ResolvedEndpoint,
        to: &UrlFacts,
        to_host: Option<UrlHost>,
        binding: &CredentialBinding,
    ) -> (r: Result<ResolvedEndpoint, LlmError>)
        ensures
            match redirect_rejection(
                self,
                from.spec_origin(),
                from.spec_host(),
                to@,
                opt_host_owned(to_host),
                Some(binding@),
            ) {
                Some(message) => r matches Err(e) && is_configuration(e, message),
                None => r matches Ok(target) && target.spec_url() == to@ && target.spec_origin()
                    == from.spec_origin(),
            },
    {
        self.validate_inner(from, to, to_host, Some(binding))
    }
}

/// The view of an optional owned host.
pub open spec fn opt_host_owned(host: Option<UrlHost>) -> Option<UrlHostView> {
    match host {
        Some(h) => Some(h@),
        None => None,
    }
}

} // verus!
