use minicode::tools::web::{
    check_fetch_url, check_resolved_addresses, check_url_host, dns_target, is_private_ip,
    validate_ssrf, DnsTarget, HostInfo, IpAddress, ResolvedAddress,
};
use minicode::tools::web_search::{urlencoding_decode, SearchResult, WebSearchService};
use minicode::tools::ToolError;

#[test]
fn test_validate_ssrf_blocks_localhost_and_private_ips() {
    assert!(validate_ssrf("http://localhost/admin").is_err());
    assert!(validate_ssrf("http://127.0.0.1:8080/api").is_err());
    assert!(validate_ssrf("http://169.254.169.254/latest/meta-data/").is_err());
    assert!(validate_ssrf("http://192.168.1.1/router").is_err());
    assert!(validate_ssrf("http://10.0.0.5/secrets").is_err());
    assert!(validate_ssrf("http://172.16.0.1/internal").is_err());
}

#[test]
fn test_validate_ssrf_allows_public_urls() {
    assert!(validate_ssrf("https://example.com/docs").is_ok());
    assert!(validate_ssrf("https://docs.rs/tokio/latest/tokio/").is_ok());
}

#[test]
fn test_validate_ssrf_blocks_mapped_ipv6_private() {
    assert!(validate_ssrf("http://[::ffff:10.0.0.5]/secrets").is_err());
    assert!(validate_ssrf("http://[::ffff:127.0.0.1]/admin").is_err());
}

#[test]
fn test_is_private_ip_covers_mapped_ipv6_and_ranges() {
    // 127.0.0.1
    assert!(is_private_ip(IpAddress::V4([127, 0, 0, 1])));
    // ::ffff:10.0.0.5
    assert!(is_private_ip(IpAddress::V6([0, 0, 0, 0, 0, 0xffff, 0x0a00, 0x0005])));
    // ::ffff:169.254.169.254
    assert!(is_private_ip(IpAddress::V6([0, 0, 0, 0, 0, 0xffff, 0xa9fe, 0xa9fe])));
    // 93.184.216.34
    assert!(!is_private_ip(IpAddress::V4([93, 184, 216, 34])));
    // 2606:2800:220:1:248:1893:25c8:1946
    assert!(!is_private_ip(IpAddress::V6([
        0x2606, 0x2800, 0x0220, 0x0001, 0x0248, 0x1893, 0x25c8, 0x1946
    ])));
}

#[test]
fn test_format_results_markdown() {
    let results = vec![
        SearchResult {
            title: "Rust Language".to_string(),
            url: "https://www.rust-lang.org".to_string(),
            snippet: "A language empowering everyone to build reliable and efficient software."
                .to_string(),
        },
        SearchResult {
            title: "crates.io".to_string(),
            url: "https://crates.io".to_string(),
            snippet: "The Rust package registry.".to_string(),
        },
    ];

    let md = WebSearchService::format_results(&results, "rust language");
    assert!(md.contains("🔍 Web Search Results for \"rust language\":"));
    assert!(md.contains("1. **[Rust Language](https://www.rust-lang.org)**"));
    assert!(md.contains("2. **[crates.io](https://crates.io)**"));
}

#[test]
fn test_urlencoding_decode() {
    let raw = "https%3A%2F%2Fdocs.rs%2Ftokio%2Flatest%2Ftokio%2F";
    let decoded = urlencoding_decode(raw).unwrap();
    assert_eq!(decoded, "https://docs.rs/tokio/latest/tokio/");
}

#[test]
fn ssrf_error_kinds_and_messages() {
    match validate_ssrf("not a url") {
        Err(ToolError::InvalidArguments { name, reason }) => {
            assert_eq!(name, "fetch_or_browse");
            assert!(reason.starts_with("Invalid URL 'not a url': "));
        }
        other => panic!("unexpected {:?}", other),
    }
    match validate_ssrf("http://sub.localhost/x") {
        Err(ToolError::SsrfBlocked { url, reason }) => {
            assert_eq!(url, "http://sub.localhost/x");
            assert_eq!(reason, "Access to blocked host 'sub.localhost' is forbidden");
        }
        other => panic!("unexpected {:?}", other),
    }
    match validate_ssrf("http://10.1.2.3/") {
        Err(ToolError::SsrfBlocked { reason, .. }) => {
            assert_eq!(reason, "Access to private/local IP address '10.1.2.3' is forbidden");
        }
        other => panic!("unexpected {:?}", other),
    }
    match validate_ssrf("mailto:someone@example.com") {
        Err(ToolError::InvalidArguments { reason, .. }) => {
            assert_eq!(reason, "URL is missing a valid host");
        }
        other => panic!("unexpected {:?}", other),
    }
    // An opaque host written as a dotted quad is still read as an address.
    assert!(validate_ssrf("foo://127.0.0.1/x").is_err());
    assert!(validate_ssrf("foo://127.0.0.01/x").is_ok());
}

#[test]
fn fetch_url_scheme_and_rebinding_checks() {
    match check_fetch_url("ftp://example.com/") {
        Err(ToolError::InvalidArguments { reason, .. }) => {
            assert_eq!(reason, "URL must begin with http:// or https://");
        }
        other => panic!("unexpected {:?}", other),
    }
    assert!(check_fetch_url("https://example.com/").is_ok());
    let addrs = vec![
        ResolvedAddress { ip: IpAddress::V4([93, 184, 216, 34]), text: "93.184.216.34".to_string() },
        ResolvedAddress { ip: IpAddress::V4([127, 0, 0, 1]), text: "127.0.0.1".to_string() },
    ];
    match check_resolved_addresses("http://localtest.me/", &addrs) {
        Err(ToolError::SsrfBlocked { reason, .. }) => {
            assert_eq!(reason, "Host resolves to private address '127.0.0.1'");
        }
        other => panic!("unexpected {:?}", other),
    }
    assert!(check_resolved_addresses("http://example.com/", &addrs[..1].to_vec()).is_ok());
}

#[test]
fn private_ranges_edges() {
    assert!(is_private_ip(IpAddress::V4([172, 31, 255, 255])));
    assert!(!is_private_ip(IpAddress::V4([172, 32, 0, 0])));
    assert!(is_private_ip(IpAddress::V4([100, 64, 0, 1])));
    assert!(!is_private_ip(IpAddress::V4([100, 128, 0, 1])));
    assert!(is_private_ip(IpAddress::V4([198, 51, 100, 7])));
    assert!(is_private_ip(IpAddress::V6([0, 0, 0, 0, 0, 0, 0, 1])));
    assert!(is_private_ip(IpAddress::V6([0xfd12, 0, 0, 0, 0, 0, 0, 1])));
    assert!(!is_private_ip(IpAddress::V6([0xfe80, 0, 0, 0, 0, 0, 0, 1])));
}

#[test]
fn parsed_hosts_are_checked() {
    assert!(check_url_host("http://x", &HostInfo::Name("Example.com".to_string())).is_ok());
    assert!(check_url_host("http://x", &HostInfo::Name("LOCALHOST".to_string())).is_err());
    assert!(check_url_host("http://x", &HostInfo::Name("10.1.2.3".to_string())).is_err());
    assert!(check_url_host("http://x", &HostInfo::Missing).is_err());
    let v4 = HostInfo::V4 { host: "8.8.8.8".to_string(), octets: [8, 8, 8, 8] };
    assert!(check_url_host("http://8.8.8.8/", &v4).is_ok());
    let lo = HostInfo::V4 { host: "127.0.0.1".to_string(), octets: [127, 0, 0, 1] };
    assert!(check_url_host("http://127.0.0.1/", &lo).is_err());
}

#[test]
fn names_to_resolve_before_a_fetch() {
    assert_eq!(
        dns_target("https://Docs.RS/tokio"),
        Some(DnsTarget { url: "https://docs.rs/tokio".to_string(), host: "docs.rs".to_string(), port: 443 })
    );
    assert_eq!(
        dns_target("http://example.com:8080"),
        Some(DnsTarget { url: "http://example.com:8080/".to_string(), host: "example.com".to_string(), port: 8080 })
    );
    assert_eq!(dns_target("http://93.184.216.34/"), None);
    assert_eq!(dns_target("not a url"), None);
}
