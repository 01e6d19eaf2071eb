//! Facts of a parsed absolute URL, and the network classes of hosts and addresses.

use vstd::prelude::*;

verus! {

/// The components of a parsed absolute URL that endpoint policy reads.
///
/// It has no `Debug` rendering: the user information and query may be secret.
pub struct UrlFacts {
    /// The whole URL as the parser serializes it.
    pub serialization: String,
    /// Scheme without the `:` delimiter.
    pub scheme: String,
    /// Path without query or fragment.
    pub path: String,
    /// Explicit non-default port.
    pub port: Option<u16>,
    /// Explicit port, or the scheme's known default port.
    pub effective_port: Option<u16>,
    /// Query text without `?`, when present.
    pub query: Option<String>,
    /// Fragment text without `#`, when present.
    pub fragment: Option<String>,
    /// User name, empty when absent.
    pub username: String,
    /// Password, when present.
    pub password: Option<String>,
}

/// Mathematical form of [`UrlFacts`].
pub struct UrlFactsView {
    pub serialization: Seq<char>,
    pub scheme: Seq<char>,
    pub path: Seq<char>,
    pub port: Option<u16>,
    pub effective_port: Option<u16>,
    pub query: Option<Seq<char>>,
    pub fragment: Option<Seq<char>>,
    pub username: Seq<char>,
    pub password: Option<Seq<char>>,
}

/// The view of an optional owned text.
pub open spec fn opt_view(text: Option<String>) -> Option<Seq<char>> {
    match text {
        Some(t) => Some(t@),
        None => None,
    }
}

impl View for UrlFacts {
    type V = UrlFactsView;

    open spec fn view(&self) -> UrlFactsView {
        UrlFactsView {
            serialization: self.serialization@,
            scheme: self.scheme@,
            path: self.path@,
            port: self.port,
            effective_port: self.effective_port,
            query: opt_view(self.query),
            fragment: opt_view(self.fragment),
            username: self.username@,
            password: opt_view(self.password),
        }
    }
}

impl Clone for UrlFacts {
    fn clone(&self) -> (r: Self)
        ensures
            r@ == self@,
    {
        UrlFacts {
            serialization: self.serialization.clone(),
            scheme: self.scheme.clone(),
            path: self.path.clone(),
            port: self.port,
            effective_port: self.effective_port,
            query: match &self.query {
                Some(q) => Some(q.clone()),
                None => None,
            },
            fragment: match &self.fragment {
                Some(f) => Some(f.clone()),
                None => None,
            },
            username: self.username.clone(),
            password: match &self.password {
                Some(p) => Some(p.clone()),
                None => None,
            },
        }
    }
}

/// The host of a parsed URL.
#[derive(Debug)]
pub enum UrlHost {
    /// A DNS domain name.
    Domain(String),
    /// An IPv4 address: its octets and its dotted-decimal text.
    Ipv4([u8; 4], String),
    /// An IPv6 address: its segments and its standard text.
    Ipv6([u16; 8], String),
}

/// Mathematical form of [`UrlHost`].
pub enum UrlHostView {
    Domain(Seq<char>),
    Ipv4(Seq<u8>, Seq<char>),
    Ipv6(Seq<u16>, Seq<char>),
}

impl View for UrlHost {
    type V = UrlHostView;

    open spec fn view(&self) -> UrlHostView {
        match self {
            UrlHost::Domain(name) => UrlHostView::Domain(name@),
            UrlHost::Ipv4(octets, text) => UrlHostView::Ipv4(octets@, text@),
            UrlHost::Ipv6(segments, text) => UrlHostView::Ipv6(segments@, text@),
        }
    }
}

impl Clone for UrlHost {
    fn clone(&self) -> (r: Self)
        ensures
            r@ == self@,
    {
        match self {
            UrlHost::Domain(name) => UrlHost::Domain(name.clone()),
            UrlHost::Ipv4(octets, text) => UrlHost::Ipv4(*octets, text.clone()),
            UrlHost::Ipv6(segments, text) => UrlHost::Ipv6(*segments, text.clone()),
        }
    }
}

/// The components `url::Url::parse` yields for `text`, or `None` when it rejects it.
pub uninterp spec fn parsed_url_facts(text: Seq<char>) -> Option<UrlFactsView>;

/// The host `url::Url::parse` yields for `text`, or `None` when it rejects the text or
/// the URL has no host.
pub uninterp spec fn parsed_url_host(text: Seq<char>) -> Option<UrlHostView>;

/// Parses `text` with `url::Url::parse` and reads its serialization, scheme, path, ports,
/// query, fragment and user information.
///
/// Trusted: the result is whatever the `url` crate yields for this text; the contract
/// only names it, as a function of the text alone.
#[verifier::external_body]
pub fn parse_url_facts(text: &str) -> (r: Option<UrlFacts>)
    ensures
        r is Some <==> parsed_url_facts(text@) is Some,
        r matches Some(f) ==> parsed_url_facts(text@) == Some(f@),
{
    let url = url::Url::parse(text).ok()?;
    Some(UrlFacts {
        serialization: url.as_str().to_string(),
        scheme: url.scheme().to_string(),
        path: url.path().to_string(),
        port: url.port(),
        effective_port: url.port_or_known_default(),
        query: url.query().map(str::to_string),
        fragment: url.fragment().map(str::to_string),
        username: url.username().to_string(),
        password: url.password().map(str::to_string),
    })
}

/// Parses `text` with `url::Url::parse` and reads its host: a domain as serialized, or an
/// address with its numeric parts and its standard text.
///
/// Trusted: the result is whatever the `url` crate yields for this text; the contract
/// only names it, as a function of the text alone.
#[verifier::external_body]
pub fn parse_url_host(text: &str) -> (r: Option<UrlHost>)
    ensures
        r is Some <==> parsed_url_host(text@) is Some,
        r matches Some(h) ==> parsed_url_host(text@) == Some(h@),
{
    match url::Url::parse(text).ok()?.host()? {
        url::Host::Domain(name) => Some(UrlHost::Domain(name.to_string())),
        url::Host::Ipv4(ip) => Some(UrlHost::Ipv4(ip.octets(), ip.to_string())),
        url::Host::Ipv6(ip) => Some(UrlHost::Ipv6(ip.segments(), ip.to_string())),
    }
}

/// Decodes `application/x-www-form-urlencoded` text into name/value pairs.
pub uninterp spec fn decoded_query(query: Seq<char>) -> Seq<(Seq<char>, Seq<char>)>;

/// The views of name/value pairs.
pub open spec fn pairs_view(pairs: Seq<(String, String)>) -> Seq<(Seq<char>, Seq<char>)> {
    pairs.map_values(|p: (String, String)| (p.0@, p.1@))
}

/// Decodes a query with `url::form_urlencoded::parse`.
///
/// Trusted: the pairs are whatever the crate decodes from this text; the contract only
/// names them, as a function of the text alone.
#[verifier::external_body]
pub fn decode_query(query: &str) -> (r: Vec<(String, String)>)
    ensures
        pairs_view(r@) == decoded_query(query@),
{
    url::form_urlencoded::parse(query.as_bytes()).into_owned().collect()
}

/// The serialization of the URL `text` with its path replaced by `path`.
pub uninterp spec fn url_with_path(text: Seq<char>, path: Seq<char>) -> Option<Seq<char>>;

/// Replaces the path of the URL `text` with `url::Url::set_path`.
///
/// Trusted: the result is whatever the `url` crate serializes; `None` when it rejects
/// the text. The contract only names it.
#[verifier::external_body]
pub fn replace_url_path(text: &str, path: &str) -> (r: Option<String>)
    ensures
        opt_view(r) == url_with_path(text@, path@),
{
    let mut url = url::Url::parse(text).ok()?;
    url.set_path(path);
    Some(url.as_str().to_string())
}

/// The serialization of the URL `text` without its query.
pub uninterp spec fn url_without_query(text: Seq<char>) -> Option<Seq<char>>;

/// Removes the query of the URL `text` with `url::Url::set_query(None)`.
///
/// Trusted: the result is whatever the `url` crate serializes; `None` when it rejects
/// the text. The contract only names it.
#[verifier::external_body]
pub fn clear_url_query(text: &str) -> (r: Option<String>)
    ensures
        opt_view(r) == url_without_query(text@),
{
    let mut url = url::Url::parse(text).ok()?;
    url.set_query(None);
    Some(url.as_str().to_string())
}

/// The serialization of the URL `text` with its query replaced by the form-encoded
/// `pairs`.
pub uninterp spec fn url_with_query_pairs(
    text: Seq<char>,
    pairs: Seq<(Seq<char>, Seq<char>)>,
) -> Option<Seq<char>>;

/// Replaces the query of the URL `text`: `url::Url::set_query(None)`, then
/// `query_pairs_mut().extend_pairs` with `pairs` in order.
///
/// Trusted: the result is whatever the `url` crate serializes; `None` when it rejects
/// the text. The contract only names it.
#[verifier::external_body]
pub fn set_url_query_pairs(text: &str, pairs: &Vec<(String, String)>) -> (r: Option<String>)
    ensures
        opt_view(r) == url_with_query_pairs(text@, pairs_view(pairs@)),
{
    let mut url = url::Url::parse(text).ok()?;
    url.set_query(None);
    url.query_pairs_mut().extend_pairs(pairs.iter());
    Some(url.as_str().to_string())
}

/// An IPv4 address in `network/prefix`, over its octets.
pub open spec fn ipv4_in(o: Seq<u8>, a: u8, b_low: u8, b_high: u8) -> bool {
    o[0] == a && b_low <= o[1] <= b_high
}

/// An IPv4 address that is private, loopback, link-local, unspecified, multicast,
/// broadcast, shared (100.64/10), IETF protocol (192.0.0/24), benchmarking (198.18/15)
/// or reserved (240/4), as `std::net::Ipv4Addr` classifies them.
pub open spec fn is_special_ipv4(o: Seq<u8>) -> bool {
    ||| o[0] == 10
    ||| ipv4_in(o, 172, 16, 31)
    ||| ipv4_in(o, 192, 168, 168)
    ||| o[0] == 127
    ||| ipv4_in(o, 169, 254, 254)
    ||| (o[0] == 0 && o[1] == 0 && o[2] == 0 && o[3] == 0)
    ||| (224 <= o[0] <= 239)
    ||| (o[0] == 255 && o[1] == 255 && o[2] == 255 && o[3] == 255)
    ||| ipv4_in(o, 100, 64, 127)
    ||| (o[0] == 192 && o[1] == 0 && o[2] == 0)
    ||| ipv4_in(o, 198, 18, 19)
    ||| o[0] >= 240
}

/// A publicly routable IPv4 address.
pub open spec fn is_public_ipv4(o: Seq<u8>) -> bool {
    o.len() == 4 && !is_special_ipv4(o)
}

/// The octets of an IPv4-mapped IPv6 address (`::ffff:a.b.c.d`).
pub open spec fn ipv4_mapped(s: Seq<u16>) -> Option<Seq<u8>> {
    if s[0] == 0 && s[1] == 0 && s[2] == 0 && s[3] == 0 && s[4] == 0 && s[5] == 0xffff {
        Some(seq![(s[6] / 256) as u8, (s[6] % 256) as u8, (s[7] / 256) as u8, (s[7] % 256) as u8])
    } else {
        None
    }
}

/// An IPv6 address that is loopback, unspecified, multicast, unique-local, link-local or
/// in the documentation range.
pub open spec fn is_special_ipv6(s: Seq<u16>) -> bool {
    ||| (s[0] == 0 && s[1] == 0 && s[2] == 0 && s[3] == 0 && s[4] == 0 && s[5] == 0 && s[6] == 0
        && s[7] == 1)
    ||| (s[0] == 0 && s[1] == 0 && s[2] == 0 && s[3] == 0 && s[4] == 0 && s[5] == 0 && s[6] == 0
        && s[7] == 0)
    ||| s[0] >= 0xff00
    ||| (0xfc00 <= s[0] <= 0xfdff)
    ||| (0xfe80 <= s[0] <= 0xfebf)
    ||| (s[0] == 0x2001 && s[1] == 0x0db8)
}

/// A publicly routable IPv6 address; an IPv4-mapped one is judged as IPv4.
pub open spec fn is_public_ipv6(s: Seq<u16>) -> bool {
    s.len() == 8 && match ipv4_mapped(s) {
        Some(o) => is_public_ipv4(o),
        None => !is_special_ipv6(s),
    }
}

fn in_range(o: &[u8; 4], a: u8, b_low: u8, b_high: u8) -> (r: bool)
    ensures
        r == ipv4_in(o@, a, b_low, b_high),
{
    o[0] == a && b_low <= o[1] && o[1] <= b_high
}

/// Whether an IPv4 address is publicly routable.
pub fn public_ipv4(o: &[u8; 4]) -> (r: bool)
    ensures
        r == is_public_ipv4(o@),
{
    !(o[0] == 10 || in_range(o, 172, 16, 31) || in_range(o, 192, 168, 168) || o[0] == 127
        || in_range(o, 169, 254, 254) || (o[0] == 0 && o[1] == 0 && o[2] == 0 && o[3] == 0) || (
    224 <= o[0] && o[0] <= 239) || (o[0] == 255 && o[1] == 255 && o[2] == 255 && o[3] == 255)
        || in_range(o, 100, 64, 127) || (o[0] == 192 && o[1] == 0 && o[2] == 0) || in_range(
        o,
        198,
        18,
        19,
    ) || o[0] >= 240)
}

/// Whether an IPv6 address is publicly routable.
pub fn public_ipv6(s: &[u16; 8]) -> (r: bool)
    ensures
        r == is_public_ipv6(s@),
{
    if s[0] == 0 && s[1] == 0 && s[2] == 0 && s[3] == 0 && s[4] == 0 && s[5] == 0xffff {
        let mapped: [u8; 4] = [
            (s[6] / 256) as u8,
            (s[6] % 256) as u8,
            (s[7] / 256) as u8,
            (s[7] % 256) as u8,
        ];
        proof {
            assert(mapped@ =~= ipv4_mapped(s@).unwrap());
        }
        return public_ipv4(&mapped);
    }
    let loopback = s[0] == 0 && s[1] == 0 && s[2] == 0 && s[3] == 0 && s[4] == 0 && s[5] == 0
        && s[6] == 0 && s[7] == 1;
    let unspecified = s[0] == 0 && s[1] == 0 && s[2] == 0 && s[3] == 0 && s[4] == 0 && s[5] == 0
        && s[6] == 0 && s[7] == 0;
    !(loopback || unspecified || s[0] >= 0xff00 || (0xfc00 <= s[0] && s[0] <= 0xfdff) || (0xfe80
        <= s[0] && s[0] <= 0xfebf) || (s[0] == 0x2001 && s[1] == 0x0db8))
}

/// A loopback IPv4 address (127/8).
pub open spec fn is_loopback_ipv4(o: Seq<u8>) -> bool {
    o[0] == 127
}

/// The IPv6 loopback address `::1`.
pub open spec fn is_loopback_ipv6(s: Seq<u16>) -> bool {
    s[0] == 0 && s[1] == 0 && s[2] == 0 && s[3] == 0 && s[4] == 0 && s[5] == 0 && s[6] == 0
        && s[7] == 1
}

/// A network address returned by name resolution.
#[derive(Clone, Copy, Debug)]
pub enum IpAddress {
    /// IPv4 octets.
    V4([u8; 4]),
    /// IPv6 segments.
    V6([u16; 8]),
}

} // verus!
