use minicode::tools::web_search::{
    resolve_result_url, results_from_hits, urlencoding_decode, RawHit, SearchCache,
    SearchProvider, SearchResult, SearchStep, WebSearchService,
};
use minicode::tools::ToolError;

#[test]
fn format_results_empty_and_entries() {
    assert_eq!(
        WebSearchService::format_results(&[], "nothing"),
        "ℹ No search results found for query: \"nothing\""
    );
    let r = vec![SearchResult {
        title: "T".to_string(),
        url: "U".to_string(),
        snippet: "S".to_string(),
    }];
    assert_eq!(
        WebSearchService::format_results(&r, "q"),
        "🔍 Web Search Results for \"q\":\n\n1. **[T](U)**\n   S\n\n"
    );
}

#[test]
fn url_decoding_rules() {
    assert_eq!(urlencoding_decode("a+b%20c").unwrap(), "a b c");
    assert_eq!(urlencoding_decode("%+f").unwrap(), "\u{f}");
    assert!(urlencoding_decode("%4").is_none());
    assert!(urlencoding_decode("%zz").is_none());
    assert!(urlencoding_decode("%ff").is_none());
    assert_eq!(urlencoding_decode("%C3%A9").unwrap(), "é");
}

#[test]
fn result_links_are_resolved() {
    assert_eq!(
        resolve_result_url("//duckduckgo.com/l/?uddg=https%3A%2F%2Fexample.com%2Fa&rut=x"),
        "https://example.com/a"
    );
    assert_eq!(resolve_result_url("//example.org/x"), "https://example.org/x");
    assert_eq!(resolve_result_url("https://plain.dev"), "https://plain.dev");
    assert_eq!(resolve_result_url("x?uddg=%zz"), "x?uddg=%zz");
}

#[test]
fn hits_become_results_up_to_the_limit() {
    let hit = |t: Option<&str>, href: Option<&str>| RawHit {
        title: t.map(|s| s.to_string()),
        href: href.map(|s| s.to_string()),
        snippet: Some("  snippet  ".to_string()),
        url_text: Some(" shown.example ".to_string()),
    };
    let hits = vec![
        hit(Some(" First "), Some("https://a.example")),
        hit(None, Some("https://b.example")),
        hit(Some("Third"), None),
        hit(Some("Fourth"), Some("https://d.example")),
    ];
    let rs = results_from_hits(&hits, 2);
    assert_eq!(rs.len(), 2);
    assert_eq!(rs[0].title, "First");
    assert_eq!(rs[0].url, "https://a.example");
    assert_eq!(rs[0].snippet, "snippet");
    assert_eq!(rs[1].title, "Third");
    assert_eq!(rs[1].url, "shown.example");
    assert_eq!(results_from_hits(&hits, 10).len(), 3);
}

#[test]
fn provider_responses_are_read() {
    let body = r#"{"results":[{"title":"A","url":"https://a","content":"ca"},{"title":"","url":"https://b"},{"title":"C","url":"https://c"}]}"#;
    let rs = WebSearchService::parse_tavily_response(body).unwrap();
    assert_eq!(rs.len(), 2);
    assert_eq!(rs[0].snippet, "ca");
    assert_eq!(rs[1].snippet, "");
    let brave = r#"{"web":{"results":[{"title":"B","url":"https://b","description":"d"}]}}"#;
    let rb = WebSearchService::parse_brave_response(brave).unwrap();
    assert_eq!(rb[0].snippet, "d");
    assert_eq!(WebSearchService::parse_brave_response("{}").unwrap().len(), 0);
    assert!(matches!(
        WebSearchService::parse_tavily_response("not json"),
        Err(ToolError::CommandExec(_))
    ));
}

#[test]
fn duckduckgo_page_is_read() {
    let html = r#"<div class="result"><h2 class="result__title"><a class="result__a" href="//duckduckgo.com/l/?uddg=https%3A%2F%2Frust-lang.org%2F&amp;rut=1">Rust</a></h2><a class="result__snippet">A language</a></div>"#;
    let rs = WebSearchService::parse_duckduckgo_page(html, 5);
    assert_eq!(rs.len(), 1);
    assert_eq!(rs[0].title, "Rust");
    assert_eq!(rs[0].url, "https://rust-lang.org/");
    assert_eq!(rs[0].snippet, "A language");
}

#[test]
fn query_and_provider_plan() {
    assert_eq!(WebSearchService::prepare_query("  rust  ").unwrap(), "rust");
    match WebSearchService::prepare_query("   ") {
        Err(ToolError::InvalidArguments { name, reason }) => {
            assert_eq!(name, "search_web");
            assert_eq!(reason, "Query string cannot be empty");
        }
        other => panic!("unexpected {:?}", other),
    }
    assert_eq!(
        WebSearchService::provider_plan(Some("k"), Some(" ")),
        vec![SearchProvider::Tavily, SearchProvider::DuckDuckGo]
    );
    assert_eq!(
        WebSearchService::provider_plan(None, Some("b")),
        vec![SearchProvider::Brave, SearchProvider::DuckDuckGo]
    );
    assert_eq!(WebSearchService::cached_answer("x"), "ℹ [Cached Result]\n\nx");
}

#[test]
fn cache_stores_and_expires() {
    let mut cache = SearchCache::new();
    assert_eq!(cache.lookup("q", 0), None);
    cache.store("q", 1_000, "out");
    assert_eq!(cache.lookup("q", 1_000).as_deref(), Some("out"));
    assert_eq!(cache.lookup("q", 900_999).as_deref(), Some("out"));
    assert_eq!(cache.lookup("q", 901_000), None);
    assert_eq!(cache.lookup("other", 1_000), None);
    cache.store("q", 2_000_000, "newer");
    assert_eq!(cache.lookup("q", 2_000_001).as_deref(), Some("newer"));
}

#[test]
fn storing_one_query_keeps_the_others() {
    let mut cache = SearchCache::new();
    cache.store("rust verus", 10, "first");
    cache.store("tokio", 20, "second");
    cache.store("rust verus", 30, "third");
    assert_eq!(cache.lookup("tokio", 40).as_deref(), Some("second"));
    assert_eq!(cache.lookup("rust verus", 40).as_deref(), Some("third"));
    // an entry stored later than the lookup time counts as fresh
    assert_eq!(cache.lookup("tokio", 5).as_deref(), Some("second"));
}

#[test]
fn provider_failures_fall_through_to_duckduckgo() {
    let err = ToolError::CommandExec("boom".to_string());
    assert_eq!(WebSearchService::after_provider(SearchProvider::Tavily, Err(err.clone()), "q"), SearchStep::Next);
    assert_eq!(WebSearchService::after_provider(SearchProvider::Brave, Err(err.clone()), "q"), SearchStep::Next);
    assert_eq!(
        WebSearchService::after_provider(SearchProvider::DuckDuckGo, Err(err.clone()), "q"),
        SearchStep::Failed(err)
    );
    assert_eq!(
        WebSearchService::after_provider(SearchProvider::Brave, Ok(vec![]), "q"),
        SearchStep::Done("ℹ No search results found for query: \"q\"".to_string())
    );
}
