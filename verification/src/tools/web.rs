//! Screening of web fetch targets against server-side request forgery: URLs whose host is a
//! blocked name or a loopback, link-local, private or otherwise local IP address are refused.

use vstd::prelude::*;
use url::Host;
use crate::text::{
    chars_eq, chars_ends_with, chars_of, chars_starts_with, decimal, ends_with, extend_chars,
    lowercase, split_chars, split_on, starts_with, str_to_lowercase, string_from_chars,
    u64_to_decimal, vec_views,
};
use crate::tools::{concat3, concat4, unit_result_view, ToolError, ToolErrorView};

verus! {

/// An IP address: four octets or eight 16-bit segments.
#[derive(Debug, Clone, Copy, PartialEq, Eq)]
pub enum IpAddress {
    V4([u8; 4]),
    V6([u16; 8]),
}

/// Abstract view of an IP address.
pub enum IpView {
    V4(Seq<u8>),
    V6(Seq<u16>),
}

pub open spec fn ip_view(ip: IpAddress) -> IpView {
    match ip {
        IpAddress::V4(o) => IpView::V4(o@),
        IpAddress::V6(s) => IpView::V6(s@),
    }
}

/// Loopback (127/8), link-local (169.254/16), broadcast, documentation (192.0.2/24,
/// 198.51.100/24, 203.0.113/24), unspecified, private (10/8, 172.16/12, 192.168/16) and
/// carrier-grade NAT (100.64/10) IPv4 addresses.
pub open spec fn ipv4_private(o: Seq<u8>) -> bool {
    ||| o[0] == 127
    ||| o[0] == 169 && o[1] == 254
    ||| o[0] == 255 && o[1] == 255 && o[2] == 255 && o[3] == 255
    ||| o[0] == 192 && o[1] == 0 && o[2] == 2
    ||| o[0] == 198 && o[1] == 51 && o[2] == 100
    ||| o[0] == 203 && o[1] == 0 && o[2] == 113
    ||| o[0] == 0 && o[1] == 0 && o[2] == 0 && o[3] == 0
    ||| o[0] == 10
    ||| o[0] == 172 && 16 <= o[1] <= 31
    ||| o[0] == 192 && o[1] == 168
    ||| o[0] == 100 && 64 <= o[1] <= 127
}

/// The IPv4 address of an IPv4-mapped IPv6 address (`::ffff:a.b.c.d`).
pub open spec fn ipv4_mapped(s: Seq<u16>) -> Option<Seq<u8>> {
    if s[0] == 0 && s[1] == 0 && s[2] == 0 && s[3] == 0 && s[4] == 0 && s[5] == 0xffff {
        Some(
            seq![
                (s[6] / 256) as u8,
                (s[6] % 256) as u8,
                (s[7] / 256) as u8,
                (s[7] % 256) as u8,
            ],
        )
    } else {
        None
    }
}

/// An IPv4-mapped address is judged by its IPv4 address; otherwise loopback (`::1`),
/// unspecified (`::`) and unique local (`fc00::/7`) IPv6 addresses are local.
pub open spec fn ipv6_private(s: Seq<u16>) -> bool {
    match ipv4_mapped(s) {
        Some(o) => ipv4_private(o),
        None => {
            let zero_head = s[0] == 0 && s[1] == 0 && s[2] == 0 && s[3] == 0 && s[4] == 0 && s[5]
                == 0 && s[6] == 0;
            ||| zero_head && s[7] == 1
            ||| zero_head && s[7] == 0
            ||| 0xfc00 <= s[0] <= 0xfdff
        },
    }
}

pub open spec fn ip_private(ip: IpView) -> bool {
    match ip {
        IpView::V4(o) => ipv4_private(o),
        IpView::V6(s) => ipv6_private(s),
    }
}

fn ipv4_private_exec(o: &[u8; 4]) -> (b: bool)
    ensures
        b == ipv4_private(o@),
{
    let a = o[0];
    let b = o[1];
    let c = o[2];
    let d = o[3];
    a == 127 || (a == 169 && b == 254) || (a == 255 && b == 255 && c == 255 && d == 255) || (a
        == 192 && b == 0 && c == 2) || (a == 198 && b == 51 && c == 100) || (a == 203 && b == 0
        && c == 113) || (a == 0 && b == 0 && c == 0 && d == 0) || a == 10 || (a == 172 && 16 <= b
        && b <= 31) || (a == 192 && b == 168) || (a == 100 && 64 <= b && b <= 127)
}

/// True for loopback, link-local, private, documentation, broadcast, unspecified and
/// carrier-grade NAT addresses, IPv4-mapped IPv6 addresses included.
pub fn is_private_ip(ip: IpAddress) -> (b: bool)
    ensures
        b == ip_private(ip_view(ip)),
{
    match ip {
        IpAddress::V4(o) => ipv4_private_exec(&o),
        IpAddress::V6(s) => {
            if s[0] == 0 && s[1] == 0 && s[2] == 0 && s[3] == 0 && s[4] == 0 && s[5] == 0xffff {
                let mapped: [u8; 4] = [
                    (s[6] / 256) as u8,
                    (s[6] % 256) as u8,
                    (s[7] / 256) as u8,
                    (s[7] % 256) as u8,
                ];
                assert(mapped@ =~= ipv4_mapped(s@).unwrap());
                return ipv4_private_exec(&mapped);
            }
            let zero_head = s[0] == 0 && s[1] == 0 && s[2] == 0 && s[3] == 0 && s[4] == 0 && s[5]
                == 0 && s[6] == 0;
            (zero_head && s[7] == 1) || (zero_head && s[7] == 0) || (0xfc00 <= s[0] && s[0]
                <= 0xfdff)
        },
    }
}

/// Dotted-decimal text of an IPv4 address.
pub open spec fn ipv4_text(o: Seq<u8>) -> Seq<char> {
    decimal(o[0] as nat) + seq!['.'] + decimal(o[1] as nat) + seq!['.'] + decimal(o[2] as nat)
        + seq!['.'] + decimal(o[3] as nat)
}

/// Dotted-decimal text of an IPv4 address.
pub fn ipv4_string(o: &[u8; 4]) -> (r: String)
    ensures
        r@ == ipv4_text(o@),
{
    let mut v = u64_to_decimal(o[0] as u64);
    v.push('.');
    extend_chars(&mut v, &u64_to_decimal(o[1] as u64));
    v.push('.');
    extend_chars(&mut v, &u64_to_decimal(o[2] as u64));
    v.push('.');
    extend_chars(&mut v, &u64_to_decimal(o[3] as u64));
    assert(v@ =~= ipv4_text(o@));
    string_from_chars(&v)
}

pub open spec fn is_digit(c: char) -> bool {
    '0' <= c <= '9'
}

/// Value of a string of decimal digits.
pub open spec fn digits_value(p: Seq<char>) -> nat
    decreases p.len(),
{
    if p.len() == 0 {
        0
    } else {
        digits_value(p.drop_last()) * 10 + ((p.last() as nat) - ('0' as nat)) as nat
    }
}

/// One octet of a dotted-quad IPv4 address as the standard library reads it: one to three
/// ASCII digits, without a leading zero, of value at most 255.
pub open spec fn octet_value(p: Seq<char>) -> Option<u8> {
    if 1 <= p.len() <= 3 && (forall|i: int| 0 <= i < p.len() ==> is_digit(#[trigger] p[i])) && !(
    p.len() > 1 && p[0] == '0') && digits_value(p) <= 255 {
        Some(digits_value(p) as u8)
    } else {
        None
    }
}

/// The IPv4 address written as a dotted quad (`Ipv4Addr`'s `FromStr`): four octets
/// separated by dots.
pub open spec fn dotted_quad(t: Seq<char>) -> Option<Seq<u8>> {
    let ps = split_on(t, '.');
    if ps.len() == 4 && octet_value(ps[0]) is Some && octet_value(ps[1]) is Some && octet_value(
        ps[2],
    ) is Some && octet_value(ps[3]) is Some {
        Some(
            seq![
                octet_value(ps[0]).unwrap(),
                octet_value(ps[1]).unwrap(),
                octet_value(ps[2]).unwrap(),
                octet_value(ps[3]).unwrap(),
            ],
        )
    } else {
        None
    }
}

fn parse_octet(p: &Vec<char>) -> (r: Option<u8>)
    ensures
        r == octet_value(p@),
{
    if p.len() < 1 || p.len() > 3 || (p.len() > 1 && p[0] == '0') {
        return None;
    }
    let mut value: u32 = 0;
    let mut i: usize = 0;
    while i < p.len()
        invariant
            1 <= p@.len() <= 3,
            i <= p@.len(),
            value == digits_value(p@.take(i as int)),
            value < 1000,
            i == 0 ==> value == 0,
            i == 1 ==> value < 10,
            i == 2 ==> value < 100,
            forall|k: int| 0 <= k < i ==> is_digit(#[trigger] p@[k]),
        decreases p@.len() - i,
    {
        let ch = p[i];
        if !('0' <= ch && ch <= '9') {
            return None;
        }
        assert(p@.take(i + 1).drop_last() =~= p@.take(i as int));
        value = value * 10 + (ch as u32 - '0' as u32);
        i += 1;
    }
    assert(p@.take(p@.len() as int) =~= p@);
    if value > 255 {
        return None;
    }
    Some(value as u8)
}

/// Reads a dotted-quad IPv4 address.
pub fn parse_dotted_quad(t: &[char]) -> (r: Option<[u8; 4]>)
    ensures
        match r {
            Some(o) => dotted_quad(t@) == Some(o@),
            None => dotted_quad(t@) is None,
        },
{
    let ps = split_chars(t, '.');
    if ps.len() != 4 {
        return None;
    }
    proof {
        assert(vec_views(ps@)[0] == ps@[0]@);
        assert(vec_views(ps@)[1] == ps@[1]@);
        assert(vec_views(ps@)[2] == ps@[2]@);
        assert(vec_views(ps@)[3] == ps@[3]@);
    }
    let a = match parse_octet(&ps[0]) {
        Some(v) => v,
        None => return None,
    };
    let b = match parse_octet(&ps[1]) {
        Some(v) => v,
        None => return None,
    };
    let c = match parse_octet(&ps[2]) {
        Some(v) => v,
        None => return None,
    };
    let d = match parse_octet(&ps[3]) {
        Some(v) => v,
        None => return None,
    };
    let o: [u8; 4] = [a, b, c, d];
    assert(o@ =~= dotted_quad(t@).unwrap());
    Some(o)
}

/// Host names that are never fetched, with all their subdomains.
pub open spec fn ssrf_blocked_hosts() -> Seq<Seq<char>> {
    seq!["localhost"@, "metadata.google.internal"@]
}

/// The lower-cased host is a blocked name or a subdomain of one.
pub open spec fn host_blocked(h: Seq<char>) -> bool {
    exists|k: int|
        0 <= k < ssrf_blocked_hosts().len() && (h == #[trigger] ssrf_blocked_hosts()[k] || ends_with(
            h,
            seq!['.'] + ssrf_blocked_hosts()[k],
        ))
}

fn names_or_subdomain(h: &Vec<char>, name: &str) -> (b: bool)
    ensures
        b == (h@ == name@ || ends_with(h@, seq!['.'] + name@)),
{
    let n = chars_of(name);
    let mut dotted: Vec<char> = Vec::new();
    dotted.push('.');
    extend_chars(&mut dotted, &n);
    assert(dotted@ =~= seq!['.'] + name@);
    chars_eq(h, &n) || chars_ends_with(h, &dotted)
}

fn host_blocked_exec(h: &Vec<char>) -> (b: bool)
    ensures
        b == host_blocked(h@),
{
    let b0 = names_or_subdomain(h, "localhost");
    let b1 = names_or_subdomain(h, "metadata.google.internal");
    proof {
        if b0 {
            assert(ssrf_blocked_hosts()[0] == "localhost"@);
        }
        if b1 {
            assert(ssrf_blocked_hosts()[1] == "metadata.google.internal"@);
        }
    }
    b0 || b1
}

/// What the URL parser reports of a URL's host.
#[derive(Debug, Clone)]
pub enum HostInfo {
    /// The URL has no host.
    Missing,
    /// A domain or opaque host, as serialized.
    Name(String),
    /// An IPv4 host, as serialized, and its octets.
    V4 { host: String, octets: [u8; 4] },
    /// An IPv6 host, as serialized (in brackets), its segments and the standard display
    /// text of the address.
    V6 { host: String, segments: [u16; 8], display: String },
}

/// Abstract view of a parsed host.
pub enum HostView {
    Missing,
    Name(Seq<char>),
    V4(Seq<char>, Seq<u8>),
    V6(Seq<char>, Seq<u16>, Seq<char>),
}

pub open spec fn host_view(h: HostInfo) -> HostView {
    match h {
        HostInfo::Missing => HostView::Missing,
        HostInfo::Name(t) => HostView::Name(t@),
        HostInfo::V4 { host, octets } => HostView::V4(host@, octets@),
        HostInfo::V6 { host, segments, display } => HostView::V6(host@, segments@, display@),
    }
}

/// A parsed URL: its host, its port (given or the scheme's default) and its serialization.
#[derive(Debug, Clone)]
pub struct ParsedUrl {
    pub host: HostInfo,
    pub port: Option<u16>,
    pub serialized: String,
}

/// Abstract view of a parsed URL.
pub struct UrlView {
    pub host: HostView,
    pub port: Option<u16>,
    pub serialized: Seq<char>,
}

pub open spec fn parsed_result_view(r: Result<ParsedUrl, String>) -> Result<UrlView, Seq<char>> {
    match r {
        Ok(p) => Ok(UrlView { host: host_view(p.host), port: p.port, serialized: p.serialized@ }),
        Err(e) => Err(e@),
    }
}

/// What `url::Url::parse` finds in a URL, or the text of its parse error.
pub uninterp spec fn url_parse(url: Seq<char>) -> Result<UrlView, Seq<char>>;

/// Parses a URL with `url::Url::parse` and reports its host (`host_str` and `host`, the
/// addresses converted to octets, segments and `Display` text), `port_or_known_default` and
/// the URL's `Display` text, or the `Display` text of the parse error. The contract names the
/// result `url_parse` of the URL text and says nothing more of it.
#[verifier::external_body]
fn parse_url(url: &str) -> (r: Result<ParsedUrl, String>)
    ensures
        parsed_result_view(r) == url_parse(url@),
{
    match url::Url::parse(url) {
        Err(e) => Err(e.to_string()),
        Ok(u) => {
            let host = match (u.host_str(), u.host()) {
                (Some(h), Some(Host::Domain(_))) => HostInfo::Name(h.to_owned()),
                (Some(h), Some(Host::Ipv4(a))) => HostInfo::V4 { host: h.to_owned(), octets: a.octets() },
                (Some(h), Some(Host::Ipv6(a))) => HostInfo::V6 { host: h.to_owned(), segments: a.segments(), display: a.to_string() },
                _ => HostInfo::Missing,
            };
            Ok(ParsedUrl { host, port: u.port_or_known_default(), serialized: u.to_string() })
        },
    }
}

pub open spec fn host_text(h: HostView) -> Option<Seq<char>> {
    match h {
        HostView::Missing => None,
        HostView::Name(t) => Some(t),
        HostView::V4(t, _) => Some(t),
        HostView::V6(t, _, _) => Some(t),
    }
}

/// The IP address a host names and the text that shows it: the parser's own address for
/// IP hosts, the dotted-quad reading of the lower-cased text for other hosts.
pub open spec fn host_address(h: HostView, lower: Seq<char>) -> Option<(IpView, Seq<char>)> {
    match h {
        HostView::V4(_, o) => Some((IpView::V4(o), ipv4_text(o))),
        HostView::V6(_, s, d) => Some((IpView::V6(s), d)),
        HostView::Name(_) => match dotted_quad(lower) {
            Some(o) => Some((IpView::V4(o), ipv4_text(o))),
            None => None,
        },
        HostView::Missing => None,
    }
}

/// The verdict on a fetch target: a URL that does not parse or has no host is an invalid
/// argument; a blocked host name, or a host that is a local IP address, is refused.
pub open spec fn ssrf_verdict(url: Seq<char>) -> Result<(), ToolErrorView> {
    match url_parse(url) {
        Err(msg) => Err(
            ToolErrorView::InvalidArguments(
                "fetch_or_browse"@,
                "Invalid URL '"@ + url + "': "@ + msg,
            ),
        ),
        Ok(p) => host_verdict(url, p.host),
    }
}

/// The verdict on the host `h` of a parsed URL `url`: a missing host is an invalid argument;
/// a blocked host name, or a host that is a local IP address, is refused.
pub open spec fn host_verdict(url: Seq<char>, h: HostView) -> Result<(), ToolErrorView> {
    match host_text(h) {
        None => Err(
            ToolErrorView::InvalidArguments("fetch_or_browse"@, "URL is missing a valid host"@),
        ),
        Some(t) => {
            let lower = lowercase(t);
            if host_blocked(lower) {
                Err(
                    ToolErrorView::SsrfBlocked(
                        url,
                        "Access to blocked host '"@ + lower + "' is forbidden"@,
                    ),
                )
            } else {
                match host_address(h, lower) {
                    Some((ip, shown)) => if ip_private(ip) {
                        Err(
                            ToolErrorView::SsrfBlocked(
                                url,
                                "Access to private/local IP address '"@ + shown
                                    + "' is forbidden"@,
                            ),
                        )
                    } else {
                        Ok(())
                    },
                    None => Ok(()),
                }
            }
        },
    }
}

/// Checks the host that the URL `url_str` was parsed into: a missing host is refused as an
/// invalid argument, a blocked name or a local IP address as a request forgery risk.
pub fn check_url_host(url_str: &str, h: &HostInfo) -> (r: Result<(), ToolError>)
    ensures
        unit_result_view(r) == host_verdict(url_str@, host_view(*h)),
{
    let text: &str = match h {
        HostInfo::Missing => {
            return Err(
                ToolError::InvalidArguments {
                    name: "fetch_or_browse".to_owned(),
                    reason: "URL is missing a valid host".to_owned(),
                },
            );
        },
        HostInfo::Name(t) => t.as_str(),
        HostInfo::V4 { host, .. } => host.as_str(),
        HostInfo::V6 { host, .. } => host.as_str(),
    };
    let lower = str_to_lowercase(text);
    let lv = chars_of(lower.as_str());
    if host_blocked_exec(&lv) {
        return Err(
            ToolError::SsrfBlocked {
                url: url_str.to_owned(),
                reason: concat3("Access to blocked host '", lower.as_str(), "' is forbidden"),
            },
        );
    }
    let address: Option<(IpAddress, String)> = match h {
        HostInfo::V4 { octets, .. } => Some((IpAddress::V4(*octets), ipv4_string(octets))),
        HostInfo::V6 { segments, display, .. } => Some((IpAddress::V6(*segments), display.clone())),
        HostInfo::Name(_) => match parse_dotted_quad(&lv) {
            Some(o) => Some((IpAddress::V4(o), ipv4_string(&o))),
            None => None,
        },
        HostInfo::Missing => None,
    };
    match address {
        Some((ip, shown)) => {
            if is_private_ip(ip) {
                Err(
                    ToolError::SsrfBlocked {
                        url: url_str.to_owned(),
                        reason: concat3(
                            "Access to private/local IP address '",
                            shown.as_str(),
                            "' is forbidden",
                        ),
                    },
                )
            } else {
                Ok(())
            }
        },
        None => Ok(()),
    }
}

/// Validates whether a URL targets a loopback, internal private network, or cloud metadata
/// endpoint.
pub fn validate_ssrf(url_str: &str) -> (r: Result<(), ToolError>)
    ensures
        unit_result_view(r) == ssrf_verdict(url_str@),
{
    match parse_url(url_str) {
        Err(msg) => Err(
            ToolError::InvalidArguments {
                name: "fetch_or_browse".to_owned(),
                reason: concat4("Invalid URL '", url_str, "': ", msg.as_str()),
            },
        ),
        Ok(p) => check_url_host(url_str, &p.host),
    }
}

/// Where the host name of a URL is looked up: the serialized URL, the host text and the
/// port to resolve.
#[derive(Debug, Clone, PartialEq, Eq)]
pub struct DnsTarget {
    pub url: String,
    pub host: String,
    pub port: u16,
}

/// The name lookup a fetch of `url` needs: none for a URL that does not parse, has no host,
/// or has an IPv4 host (an address, checked with the URL); else the serialized URL, the host
/// text as the URL serializes it, and the port (given or the scheme's default, else 80).
pub open spec fn dns_target_spec(url: Seq<char>) -> Option<(Seq<char>, Seq<char>, u16)> {
    match url_parse(url) {
        Ok(p) => {
            let port: u16 = match p.port {
                Some(n) => n,
                None => 80,
            };
            match p.host {
                HostView::Name(t) => Some((p.serialized, t, port)),
                HostView::V6(t, _, _) => Some((p.serialized, t, port)),
                _ => None,
            }
        },
        Err(_) => None,
    }
}

/// The host name to resolve before fetching `url`, if any.
pub fn dns_target(url: &str) -> (r: Option<DnsTarget>)
    ensures
        match r {
            Some(t) => dns_target_spec(url@) == Some((t.url@, t.host@, t.port)),
            None => dns_target_spec(url@) is None,
        },
{
    match parse_url(url) {
        Err(_) => None,
        Ok(p) => {
            let port: u16 = match p.port {
                Some(n) => n,
                None => 80,
            };
            match p.host {
                HostInfo::Name(t) => Some(DnsTarget { url: p.serialized, host: t, port }),
                HostInfo::V6 { host, .. } => Some(DnsTarget { url: p.serialized, host, port }),
                _ => None,
            }
        },
    }
}

/// The checks made before a page is fetched: the URL must begin with `http://` or
/// `https://` and pass `ssrf_verdict`.
pub open spec fn fetch_verdict(url: Seq<char>) -> Result<(), ToolErrorView> {
    if !starts_with(url, "http://"@) && !starts_with(url, "https://"@) {
        Err(
            ToolErrorView::InvalidArguments(
                "fetch_or_browse"@,
                "URL must begin with http:// or https://"@,
            ),
        )
    } else {
        ssrf_verdict(url)
    }
}

/// Checks a fetch target before any request is made.
pub fn check_fetch_url(url: &str) -> (r: Result<(), ToolError>)
    ensures
        unit_result_view(r) == fetch_verdict(url@),
{
    let u = chars_of(url);
    if !chars_starts_with(&u, &chars_of("http://")) && !chars_starts_with(&u, &chars_of("https://")) {
        return Err(
            ToolError::InvalidArguments {
                name: "fetch_or_browse".to_owned(),
                reason: "URL must begin with http:// or https://".to_owned(),
            },
        );
    }
    validate_ssrf(url)
}

/// An address a host name resolved to, with its display text.
#[derive(Debug, Clone)]
pub struct ResolvedAddress {
    pub ip: IpAddress,
    pub text: String,
}

/// The first resolved address that is local, if any.
pub open spec fn first_private(addrs: Seq<ResolvedAddress>) -> Option<int>
    decreases addrs.len(),
{
    if addrs.len() == 0 {
        None
    } else if ip_private(ip_view(addrs[0].ip)) {
        Some(0)
    } else {
        match first_private(addrs.drop_first()) {
            Some(k) => Some(k + 1),
            None => None,
        }
    }
}

/// The verdict on the addresses a host name resolved to: the first local one is refused.
pub open spec fn resolved_verdict(url: Seq<char>, addrs: Seq<ResolvedAddress>) -> Result<
    (),
    ToolErrorView,
> {
    match first_private(addrs) {
        Some(k) => Err(
            ToolErrorView::SsrfBlocked(
                url,
                "Host resolves to private address '"@ + addrs[k].text@ + "'"@,
            ),
        ),
        None => Ok(()),
    }
}

/// Refuses a host whose name resolved to a local address (the rebinding check made after
/// DNS resolution). `url` is the serialized URL.
pub fn check_resolved_addresses(url: &str, addrs: &Vec<ResolvedAddress>) -> (r: Result<
    (),
    ToolError,
>)
    ensures
        unit_result_view(r) == resolved_verdict(url@, addrs@),
{
    let mut i: usize = 0;
    assert(addrs@.skip(0) =~= addrs@);
    while i < addrs.len()
        invariant
            i <= addrs@.len(),
            first_private(addrs@) == match first_private(addrs@.skip(i as int)) {
                Some(k) => Some(k + i),
                None => None,
            },
        decreases addrs@.len() - i,
    {
        proof {
            assert(addrs@.skip(i as int).drop_first() =~= addrs@.skip(i + 1));
            assert(addrs@.skip(i as int)[0] == addrs@[i as int]);
        }
        if is_private_ip(addrs[i].ip) {
            return Err(
                ToolError::SsrfBlocked {
                    url: url.to_owned(),
                    reason: concat3(
                        "Host resolves to private address '",
                        addrs[i].text.as_str(),
                        "'",
                    ),
                },
            );
        }
        i += 1;
    }
    assert(addrs@.skip(i as int) =~= Seq::<ResolvedAddress>::empty());
    Ok(())
}

} // verus!
