//! Web search: query checks, provider order, result extraction from provider responses,
//! the result cache and the Markdown rendering of results.

use vstd::prelude::*;
use scraper::{ElementRef, Html, Selector};
use vstd::utf8::{decode_utf8, encode_utf8, valid_utf8};
use crate::json::{json_lookup, lookup_json_field, str_or, JsonField};
use crate::text::{
    chars_of, chars_starts_with, decimal, find_first, find_first_chars, occurs_at, push_chars,
    push_str, slice_chars, starts_with, str_trim, string_from_chars, trim, u64_to_decimal,
};
use crate::tools::{concat2, concat3, tool_error_view, ToolError, ToolErrorView};

verus! {

/// A single structured web search result.
#[derive(Debug, Clone, PartialEq, Eq)]
pub struct SearchResult {
    pub title: String,
    pub url: String,
    pub snippet: String,
}

/// Title, URL and snippet of a result.
pub open spec fn result_view(r: SearchResult) -> (Seq<char>, Seq<char>, Seq<char>) {
    (r.title@, r.url@, r.snippet@)
}

pub open spec fn results_view(rs: Seq<SearchResult>) -> Seq<(Seq<char>, Seq<char>, Seq<char>)> {
    rs.map_values(|r: SearchResult| result_view(r))
}

/// Web search over the configured providers.
pub struct WebSearchService;

/// The Markdown entry of the result at position `k` (numbered from 1).
pub open spec fn result_entry(k: nat, r: SearchResult) -> Seq<char> {
    decimal(k + 1) + ". **["@ + r.title@ + "]("@ + r.url@ + ")**\n   "@ + r.snippet@ + "\n\n"@
}

/// The Markdown entries of all results, in order.
pub open spec fn entries_text(rs: Seq<SearchResult>) -> Seq<char>
    decreases rs.len(),
{
    if rs.len() == 0 {
        Seq::empty()
    } else {
        entries_text(rs.drop_last()) + result_entry((rs.len() - 1) as nat, rs.last())
    }
}

/// Markdown listing of the results for `query`, or a note that there are none.
pub open spec fn formatted_results(rs: Seq<SearchResult>, query: Seq<char>) -> Seq<char> {
    if rs.len() == 0 {
        "ℹ No search results found for query: \""@ + query + "\""@
    } else {
        "🔍 Web Search Results for \""@ + query + "\":\n\n"@ + entries_text(rs)
    }
}

/// Answer given for a query found in the cache.
pub open spec fn cached_answer_text(output: Seq<char>) -> Seq<char> {
    "ℹ [Cached Result]\n\n"@ + output
}

/// The providers tried for a query, in order.
#[derive(Debug, Clone, Copy, PartialEq, Eq, Structural)]
pub enum SearchProvider {
    Tavily,
    Brave,
    DuckDuckGo,
}

/// The next move of a search after one provider answered.
#[derive(Debug, Clone, PartialEq, Eq)]
pub enum SearchStep {
    /// The formatted answer.
    Done(String),
    /// Try the next provider.
    Next,
    /// The search fails with this error.
    Failed(ToolError),
}

/// An API key counts when it is set and not blank.
pub open spec fn key_usable(key: Option<Seq<char>>) -> bool {
    match key {
        Some(k) => trim(k).len() > 0,
        None => false,
    }
}

/// Tavily, then Brave, each only with a usable key; DuckDuckGo always comes last.
pub open spec fn provider_order(tavily: Option<Seq<char>>, brave: Option<Seq<char>>) -> Seq<
    SearchProvider,
> {
    let a = if key_usable(tavily) {
        seq![SearchProvider::Tavily]
    } else {
        Seq::empty()
    };
    let b = if key_usable(brave) {
        seq![SearchProvider::Brave]
    } else {
        Seq::empty()
    };
    a + b + seq![SearchProvider::DuckDuckGo]
}

pub open spec fn opt_str_view(o: Option<&str>) -> Option<Seq<char>> {
    match o {
        Some(s) => Some(s@),
        None => None,
    }
}

fn key_is_usable(key: Option<&str>) -> (b: bool)
    ensures
        b == key_usable(opt_str_view(key)),
{
    match key {
        Some(k) => !str_trim(k).as_str().is_empty(),
        None => false,
    }
}

/// Value of one hexadecimal digit byte.
pub open spec fn hex_digit_value(b: u8) -> Option<nat> {
    if 48 <= b <= 57 {
        Some((b - 48) as nat)
    } else if 97 <= b <= 102 {
        Some((b - 87) as nat)
    } else if 65 <= b <= 70 {
        Some((b - 55) as nat)
    } else {
        None
    }
}

/// The byte written by the two bytes after a `%`: `u8::from_str_radix(_, 16)` on the text
/// they form, which takes two hexadecimal digits, or a `+` sign and one digit.
pub open spec fn hex_pair(h1: u8, h2: u8) -> Option<u8> {
    match (hex_digit_value(h1), hex_digit_value(h2)) {
        (Some(a), Some(b)) => Some((a * 16 + b) as u8),
        (None, Some(b)) => if h1 == 43 {
            Some(b as u8)
        } else {
            None
        },
        _ => None,
    }
}

fn hex_digit_exec(b: u8) -> (r: Option<u8>)
    ensures
        match r {
            Some(v) => hex_digit_value(b) == Some(v as nat) && v < 16,
            None => hex_digit_value(b) is None,
        },
{
    if 48 <= b && b <= 57 {
        Some(b - 48)
    } else if 97 <= b && b <= 102 {
        Some(b - 87)
    } else if 65 <= b && b <= 70 {
        Some(b - 55)
    } else {
        None
    }
}

fn hex_pair_exec(h1: u8, h2: u8) -> (r: Option<u8>)
    ensures
        r == hex_pair(h1, h2),
{
    match (hex_digit_exec(h1), hex_digit_exec(h2)) {
        (Some(a), Some(b)) => Some(a * 16 + b),
        (None, Some(b)) => if h1 == 43 {
            Some(b)
        } else {
            None
        },
        _ => None,
    }
}

/// Percent-decoding of bytes: `%` and two bytes become the byte `hex_pair` reads, `+`
/// becomes a space, other bytes stay; a `%` without a readable pair fails.
pub open spec fn percent_decode(b: Seq<u8>) -> Option<Seq<u8>>
    decreases b.len(),
{
    if b.len() == 0 {
        Some(Seq::empty())
    } else if b[0] == 37 {
        if b.len() < 3 {
            None
        } else {
            match hex_pair(b[1], b[2]) {
                Some(v) => match percent_decode(b.skip(3)) {
                    Some(rest) => Some(seq![v] + rest),
                    None => None,
                },
                None => None,
            }
        }
    } else {
        let c: u8 = if b[0] == 43 {
            32
        } else {
            b[0]
        };
        match percent_decode(b.skip(1)) {
            Some(rest) => Some(seq![c] + rest),
            None => None,
        }
    }
}

/// URL-decoding of a text: its UTF-8 bytes percent-decoded, when they decode and form valid
/// UTF-8.
pub open spec fn url_decoded(s: Seq<char>) -> Option<Seq<char>> {
    match percent_decode(encode_utf8(s)) {
        Some(bs) => if valid_utf8(bs) {
            Some(decode_utf8(bs))
        } else {
            None
        },
        None => None,
    }
}

/// `String::from_utf8`: it succeeds exactly on valid UTF-8, and the string holds the
/// characters the bytes encode.
#[verifier::external_body]
fn utf8_string(bytes: Vec<u8>) -> (r: Option<String>)
    ensures
        r is Some <==> valid_utf8(bytes@),
        r matches Some(s) ==> s@ == decode_utf8(bytes@),
{
    String::from_utf8(bytes).ok()
}

/// Helper function to URL decode percent-encoded strings without extra dependencies.
pub fn urlencoding_decode(input: &str) -> (r: Option<String>)
    ensures
        match r {
            Some(s) => url_decoded(input@) == Some(s@),
            None => url_decoded(input@) is None,
        },
{
    let b = input.as_bytes();
    let mut out: Vec<u8> = Vec::new();
    let mut i: usize = 0;
    assert(b@.skip(0) =~= b@);
    while i < b.len()
        invariant
            i <= b@.len(),
            b@ == encode_utf8(input@),
            percent_decode(b@) == match percent_decode(b@.skip(i as int)) {
                Some(rest) => Some(out@ + rest),
                None => None,
            },
        decreases b@.len() - i,
    {
        let ghost t = b@.skip(i as int);
        assert(t[0] == b@[i as int]);
        if b[i] == 37 {
            if b.len() - i < 3 {
                return None;
            }
            assert(t[1] == b@[i + 1] && t[2] == b@[i + 2]);
            match hex_pair_exec(b[i + 1], b[i + 2]) {
                Some(v) => {
                    assert(t.skip(3) =~= b@.skip(i + 3));
                    let ghost before = out@;
                    out.push(v);
                    proof {
                        match percent_decode(b@.skip(i + 3)) {
                            Some(rest) => {
                                assert(before + (seq![v] + rest) =~= out@ + rest);
                            },
                            None => {},
                        }
                    }
                    i += 3;
                },
                None => {
                    return None;
                },
            }
        } else {
            let c: u8 = if b[i] == 43 {
                32
            } else {
                b[i]
            };
            assert(t.skip(1) =~= b@.skip(i + 1));
            let ghost before = out@;
            out.push(c);
            proof {
                match percent_decode(b@.skip(i + 1)) {
                    Some(rest) => {
                        assert(before + (seq![c] + rest) =~= out@ + rest);
                    },
                    None => {},
                }
            }
            i += 1;
        }
    }
    proof {
        assert(b@.skip(i as int) =~= Seq::<u8>::empty());
        assert(out@ + Seq::<u8>::empty() =~= out@);
    }
    utf8_string(out)
}

/// Target of a search hit link: DuckDuckGo redirect links (`...uddg=<encoded>&...`) give
/// their decoded target (the raw link when it does not decode), protocol-relative links
/// (`//host/...`) get `https:`, other links stay.
pub open spec fn resolved_url(raw: Seq<char>) -> Seq<char> {
    match find_first(raw, "uddg="@) {
        Some(pos) => {
            let encoded = raw.skip(pos + 5);
            let end = match find_first(encoded, seq!['&']) {
                Some(e) => e,
                None => encoded.len() as int,
            };
            match url_decoded(encoded.take(end)) {
                Some(d) => d,
                None => raw,
            }
        },
        None => if starts_with(raw, "//"@) {
            "https:"@ + raw
        } else {
            raw
        },
    }
}

/// Resolves the link of a search hit to its target URL.
pub fn resolve_result_url(raw: &str) -> (r: String)
    ensures
        r@ == resolved_url(raw@),
{
    let v = chars_of(raw);
    let key = chars_of("uddg=");
    proof {
        reveal_strlit("uddg=");
        assert(key@.len() == 5);
    }
    match find_first_chars(&v, &key) {
        Some(pos) => {
            assert(occurs_at(v@, key@, pos as int));
            assert(pos + 5 <= v.len());
            let encoded = slice_chars(&v, pos + 5, v.len());
            assert(encoded@ =~= raw@.skip(pos + 5));
            let amp: Vec<char> = vec!['&'];
            assert(amp@ =~= seq!['&']);
            let end = match find_first_chars(&encoded, &amp) {
                Some(e) => e,
                None => encoded.len(),
            };
            let clean = slice_chars(&encoded, 0, end);
            assert(clean@ =~= encoded@.take(end as int));
            let clean_text = string_from_chars(&clean);
            match urlencoding_decode(clean_text.as_str()) {
                Some(d) => d,
                None => raw.to_owned(),
            }
        },
        None => {
            if chars_starts_with(&v, &chars_of("//")) {
                concat2("https:", raw)
            } else {
                raw.to_owned()
            }
        },
    }
}

/// The fields of one DuckDuckGo result block, as the HTML page holds them.
#[derive(Debug, Clone)]
pub struct RawHit {
    /// Text of the title link.
    pub title: Option<String>,
    /// `href` of the title link.
    pub href: Option<String>,
    /// Text of the snippet.
    pub snippet: Option<String>,
    /// Text of the displayed URL.
    pub url_text: Option<String>,
}

/// Abstract view of a raw hit.
pub struct RawHitView {
    pub title: Option<Seq<char>>,
    pub href: Option<Seq<char>>,
    pub snippet: Option<Seq<char>>,
    pub url_text: Option<Seq<char>>,
}

pub open spec fn opt_string_view(o: Option<String>) -> Option<Seq<char>> {
    match o {
        Some(s) => Some(s@),
        None => None,
    }
}

pub open spec fn raw_hit_view(h: RawHit) -> RawHitView {
    RawHitView {
        title: opt_string_view(h.title),
        href: opt_string_view(h.href),
        snippet: opt_string_view(h.snippet),
        url_text: opt_string_view(h.url_text),
    }
}

pub open spec fn raw_hits_view(hs: Seq<RawHit>) -> Seq<RawHitView> {
    hs.map_values(|h: RawHit| raw_hit_view(h))
}

pub open spec fn or_empty(o: Option<Seq<char>>) -> Seq<char> {
    match o {
        Some(s) => s,
        None => Seq::empty(),
    }
}

/// The result a hit gives: trimmed title and snippet, and the resolved target of the
/// trimmed link (the title link's `href`, else the displayed URL); hits without a title or
/// a target give none.
pub open spec fn hit_result(h: RawHitView) -> Option<(Seq<char>, Seq<char>, Seq<char>)> {
    let title = trim(or_empty(h.title));
    let snippet = trim(or_empty(h.snippet));
    let raw = trim(
        match h.href {
            Some(x) => x,
            None => or_empty(h.url_text),
        },
    );
    let url = resolved_url(raw);
    if title.len() > 0 && url.len() > 0 {
        Some((title, url, snippet))
    } else {
        None
    }
}

/// Results of the hits, in page order, stopping once `max` results were collected.
pub open spec fn collect_hits(
    hits: Seq<RawHitView>,
    max: nat,
    acc: Seq<(Seq<char>, Seq<char>, Seq<char>)>,
) -> Seq<(Seq<char>, Seq<char>, Seq<char>)>
    decreases hits.len(),
{
    if hits.len() == 0 || acc.len() >= max {
        acc
    } else {
        collect_hits(
            hits.drop_first(),
            max,
            match hit_result(hits[0]) {
                Some(x) => acc.push(x),
                None => acc,
            },
        )
    }
}

fn hit_to_result(h: &RawHit) -> (r: Option<SearchResult>)
    ensures
        match r {
            Some(x) => hit_result(raw_hit_view(*h)) == Some(result_view(x)),
            None => hit_result(raw_hit_view(*h)) is None,
        },
{
    let t0: String = match &h.title {
        Some(t) => t.clone(),
        None => String::new(),
    };
    let s0: String = match &h.snippet {
        Some(t) => t.clone(),
        None => String::new(),
    };
    let r0: String = match &h.href {
        Some(t) => t.clone(),
        None => match &h.url_text {
            Some(t) => t.clone(),
            None => String::new(),
        },
    };
    let title = str_trim(t0.as_str());
    let snippet = str_trim(s0.as_str());
    let raw = str_trim(r0.as_str());
    let url = resolve_result_url(raw.as_str());
    if !title.as_str().is_empty() && !url.as_str().is_empty() {
        Some(SearchResult { title, url, snippet })
    } else {
        None
    }
}

/// The search results a DuckDuckGo page yields, at most `max_results` of them.
pub fn results_from_hits(hits: &Vec<RawHit>, max_results: usize) -> (r: Vec<SearchResult>)
    ensures
        results_view(r@) == collect_hits(raw_hits_view(hits@), max_results as nat, Seq::empty()),
{
    let ghost all = raw_hits_view(hits@);
    let mut out: Vec<SearchResult> = Vec::new();
    let mut i: usize = 0;
    assert(all.skip(0) =~= all);
    assert(results_view(out@) =~= Seq::empty());
    while i < hits.len() && out.len() < max_results
        invariant
            i <= hits@.len(),
            all == raw_hits_view(hits@),
            collect_hits(all, max_results as nat, Seq::empty()) == collect_hits(
                all.skip(i as int),
                max_results as nat,
                results_view(out@),
            ),
        decreases hits@.len() - i,
    {
        let ghost rest = all.skip(i as int);
        assert(rest[0] == raw_hit_view(hits@[i as int]));
        assert(rest.drop_first() =~= all.skip(i + 1));
        let ghost before = out@;
        match hit_to_result(&hits[i]) {
            Some(x) => {
                out.push(x);
                assert(results_view(out@) =~= results_view(before).push(result_view(x)));
            },
            None => {},
        }
        i += 1;
    }
    proof {
        if i >= hits.len() {
            assert(all.skip(i as int) =~= Seq::<RawHitView>::empty());
        } else {
            assert(results_view(out@).len() >= max_results);
        }
    }
    out
}

/// The result blocks that `scraper` finds on a DuckDuckGo HTML result page.
pub uninterp spec fn ddg_page_hits(html: Seq<char>) -> Seq<RawHitView>;

/// Parses the page with `scraper::Html::parse_document` and reads, for each `.result`
/// element, the text and `href` of the first `.result__title .result__a`, the text of the
/// first `.result__snippet` and the text of the first `.result__url`. The contract names
/// the result `ddg_page_hits` of the page text and says nothing more of it.
#[verifier::external_body]
fn ddg_hits(html: &str) -> (r: Vec<RawHit>)
    ensures
        raw_hits_view(r@) == ddg_page_hits(html@),
{
    let doc = Html::parse_document(html);
    let sel = |q: &str| Selector::parse(q).unwrap();
    let (res, title, snip, link) = (sel(".result"), sel(".result__title .result__a"), sel(".result__snippet"), sel(".result__url"));
    let text = |e: ElementRef| e.text().collect::<String>();
    doc.select(&res).map(|el| RawHit {
        title: el.select(&title).next().map(text),
        href: el.select(&title).next().and_then(|e| e.value().attr("href").map(String::from)),
        snippet: el.select(&snip).next().map(text),
        url_text: el.select(&link).next().map(text),
    }).collect()
}

/// The text items of a JSON array found under `outer` (and then `inner`) in a JSON text,
/// each item serialized; an absent or non-array value gives no items; a text that is not
/// JSON gives the parse error's text.
pub uninterp spec fn json_array_items(text: Seq<char>, outer: Seq<char>, inner: Option<Seq<char>>) -> Result<Seq<Seq<char>>, Seq<char>>;

pub open spec fn strings_view(v: Seq<String>) -> Seq<Seq<char>> {
    v.map_values(|s: String| s@)
}

pub open spec fn items_result_view(r: Result<Vec<String>, String>) -> Result<Seq<Seq<char>>, Seq<char>> {
    match r {
        Ok(v) => Ok(strings_view(v@)),
        Err(e) => Err(e@),
    }
}

/// Parses the text with `serde_json::from_str::<Value>`, follows `Value::get(outer)` and
/// `Value::get(inner)`, and serializes each item of `Value::as_array` with `to_string`; the
/// parse error is given by its `Display` text. The contract names the result
/// `json_array_items` of the arguments and says nothing more of it.
#[verifier::external_body]
fn json_items_at(text: &str, outer: &str, inner: Option<&str>) -> (r: Result<Vec<String>, String>)
    ensures
        items_result_view(r) == json_array_items(text@, outer@, opt_str_view(inner)),
{
    let v: serde_json::Value = serde_json::from_str(text).map_err(|e| e.to_string())?;
    let node = v.get(outer);
    let node = match inner {
        Some(k) => node.and_then(|n| n.get(k)),
        None => node,
    };
    Ok(node.and_then(|n| n.as_array()).map(|a| a.iter().map(|x| x.to_string()).collect()).unwrap_or_default())
}

/// The result a JSON item gives: its `title`, `url` and `snippet_key` strings (empty when
/// absent); items without a title or a URL give none.
pub open spec fn item_result(item: Seq<char>, snippet_key: Seq<char>) -> Option<
    (Seq<char>, Seq<char>, Seq<char>),
> {
    let title = str_or(json_lookup(item, "title"@), Seq::empty());
    let url = str_or(json_lookup(item, "url"@), Seq::empty());
    let snippet = str_or(json_lookup(item, snippet_key), Seq::empty());
    if title.len() > 0 && url.len() > 0 {
        Some((title, url, snippet))
    } else {
        None
    }
}

/// Results of the JSON items, in order.
pub open spec fn items_results(items: Seq<Seq<char>>, snippet_key: Seq<char>) -> Seq<
    (Seq<char>, Seq<char>, Seq<char>),
>
    decreases items.len(),
{
    if items.len() == 0 {
        Seq::empty()
    } else {
        let init = items_results(items.drop_last(), snippet_key);
        match item_result(items.last(), snippet_key) {
            Some(x) => init.push(x),
            None => init,
        }
    }
}

fn string_field(item: &str, key: &str) -> (r: String)
    ensures
        r@ == str_or(json_lookup(item@, key@), Seq::empty()),
{
    match lookup_json_field(item, key) {
        JsonField::Str(s) => s,
        _ => String::new(),
    }
}

/// Search results of the JSON items of a provider response.
pub fn results_from_items(items: &Vec<String>, snippet_key: &str) -> (r: Vec<SearchResult>)
    ensures
        results_view(r@) == items_results(strings_view(items@), snippet_key@),
{
    let mut out: Vec<SearchResult> = Vec::new();
    let mut i: usize = 0;
    while i < items.len()
        invariant
            i <= items@.len(),
            results_view(out@) == items_results(strings_view(items@).take(i as int), snippet_key@),
        decreases items@.len() - i,
    {
        let ghost before = out@;
        let item = items[i].as_str();
        let title = string_field(item, "title");
        let url = string_field(item, "url");
        let snippet = string_field(item, snippet_key);
        proof {
            assert(strings_view(items@).take(i + 1).drop_last() =~= strings_view(items@).take(
                i as int,
            ));
            assert(strings_view(items@).take(i + 1).last() == items@[i as int]@);
        }
        if !title.as_str().is_empty() && !url.as_str().is_empty() {
            let x = SearchResult { title, url, snippet };
            out.push(x);
            assert(results_view(out@) =~= results_view(before).push(result_view(x)));
        }
        i += 1;
    }
    assert(strings_view(items@).take(items@.len() as int) =~= strings_view(items@));
    out
}

/// Results of a provider response: the items under `outer` (and `inner`), or the parse
/// failure as a command error.
pub open spec fn response_results(
    body: Seq<char>,
    outer: Seq<char>,
    inner: Option<Seq<char>>,
    snippet_key: Seq<char>,
) -> Result<Seq<(Seq<char>, Seq<char>, Seq<char>)>, ToolErrorView> {
    match json_array_items(body, outer, inner) {
        Ok(items) => Ok(items_results(items, snippet_key)),
        Err(msg) => Err(ToolErrorView::CommandExec(msg)),
    }
}

pub open spec fn results_result_view(r: Result<Vec<SearchResult>, ToolError>) -> Result<
    Seq<(Seq<char>, Seq<char>, Seq<char>)>,
    ToolErrorView,
> {
    match r {
        Ok(v) => Ok(results_view(v@)),
        Err(e) => Err(tool_error_view(e)),
    }
}

fn results_from_response(body: &str, outer: &str, inner: Option<&str>, snippet_key: &str) -> (r:
    Result<Vec<SearchResult>, ToolError>)
    ensures
        results_result_view(r) == response_results(
            body@,
            outer@,
            opt_str_view(inner),
            snippet_key@,
        ),
{
    match json_items_at(body, outer, inner) {
        Ok(items) => Ok(results_from_items(&items, snippet_key)),
        Err(msg) => Err(ToolError::CommandExec(msg)),
    }
}

/// One cached search output, stored at a time in milliseconds.
#[derive(Debug, Clone)]
pub struct CacheEntry {
    pub query: String,
    pub stored_at_ms: u64,
    pub output: String,
}

pub open spec fn entry_view(e: CacheEntry) -> (Seq<char>, u64, Seq<char>) {
    (e.query@, e.stored_at_ms, e.output@)
}

pub open spec fn entries_view(es: Seq<CacheEntry>) -> Seq<(Seq<char>, u64, Seq<char>)> {
    es.map_values(|e: CacheEntry| entry_view(e))
}

/// Outputs of earlier searches, kept for 15 minutes to avoid provider rate limits.
pub struct SearchCache {
    entries: Vec<CacheEntry>,
}

/// How long a cached output stays valid, in milliseconds.
pub open spec fn cache_ttl_ms() -> nat {
    900_000
}

/// Position of the entry for `q`.
pub open spec fn cache_position(es: Seq<(Seq<char>, u64, Seq<char>)>, q: Seq<char>) -> Option<int>
    decreases es.len(),
{
    if es.len() == 0 {
        None
    } else if es[0].0 == q {
        Some(0)
    } else {
        match cache_position(es.drop_first(), q) {
            Some(k) => Some(k + 1),
            None => None,
        }
    }
}

/// Milliseconds from `stored` to `now` (0 when `now` is earlier).
pub open spec fn elapsed_ms(stored: u64, now: u64) -> nat {
    if now >= stored {
        (now - stored) as nat
    } else {
        0
    }
}

/// The cached output for `q` at time `now`: present and younger than the time to live.
pub open spec fn cached_output(es: Seq<(Seq<char>, u64, Seq<char>)>, q: Seq<char>, now: u64) -> Option<
    Seq<char>,
> {
    match cache_position(es, q) {
        Some(k) => if elapsed_ms(es[k].1, now) < cache_ttl_ms() {
            Some(es[k].2)
        } else {
            None
        },
        None => None,
    }
}

/// The entries after storing `output` for `q` at `now`: the entry for `q` is replaced, or
/// one is added at the end.
pub open spec fn cache_stored(
    es: Seq<(Seq<char>, u64, Seq<char>)>,
    q: Seq<char>,
    now: u64,
    output: Seq<char>,
) -> Seq<(Seq<char>, u64, Seq<char>)> {
    match cache_position(es, q) {
        Some(k) => es.update(k, (q, now, output)),
        None => es.push((q, now, output)),
    }
}

proof fn lemma_cache_position_bounds(es: Seq<(Seq<char>, u64, Seq<char>)>, q: Seq<char>)
    ensures
        match cache_position(es, q) {
            Some(k) => 0 <= k < es.len() && es[k].0 == q && forall|j: int|
                0 <= j < k ==> es[j].0 != q,
            None => forall|j: int| 0 <= j < es.len() ==> es[j].0 != q,
        },
    decreases es.len(),
{
    if es.len() > 0 {
        lemma_cache_position_bounds(es.drop_first(), q);
        if es[0].0 != q {
            match cache_position(es.drop_first(), q) {
                Some(k) => {
                    assert forall|j: int| 0 <= j < k + 1 implies es[j].0 != q by {
                        if j > 0 {
                            assert(es[j] == es.drop_first()[j - 1]);
                        }
                    }
                },
                None => {
                    assert forall|j: int| 0 <= j < es.len() implies es[j].0 != q by {
                        if j > 0 {
                            assert(es[j] == es.drop_first()[j - 1]);
                        }
                    }
                },
            }
        }
    }
}

proof fn lemma_cache_position_unique(es: Seq<(Seq<char>, u64, Seq<char>)>, q: Seq<char>, k: int)
    requires
        0 <= k < es.len(),
        es[k].0 == q,
        forall|j: int| 0 <= j < k ==> es[j].0 != q,
    ensures
        cache_position(es, q) == Some(k),
    decreases es.len(),
{
    if k > 0 {
        assert forall|j: int| 0 <= j < k - 1 implies es.drop_first()[j].0 != q by {
            assert(es.drop_first()[j] == es[j + 1]);
        }
        lemma_cache_position_unique(es.drop_first(), q, k - 1);
    }
}

proof fn lemma_cache_position_none(es: Seq<(Seq<char>, u64, Seq<char>)>, q: Seq<char>)
    requires
        forall|j: int| 0 <= j < es.len() ==> es[j].0 != q,
    ensures
        cache_position(es, q) is None,
    decreases es.len(),
{
    if es.len() > 0 {
        assert forall|j: int| 0 <= j < es.len() - 1 implies es.drop_first()[j].0 != q by {
            assert(es.drop_first()[j] == es[j + 1]);
        }
        lemma_cache_position_none(es.drop_first(), q);
    }
}

/// A stored output is found again for the same query while it is younger than the time to
/// live, and not after.
pub proof fn lemma_cache_store_then_lookup(
    es: Seq<(Seq<char>, u64, Seq<char>)>,
    q: Seq<char>,
    stored: u64,
    output: Seq<char>,
    now: u64,
)
    ensures
        cached_output(cache_stored(es, q, stored, output), q, now) == if elapsed_ms(stored, now)
            < cache_ttl_ms() {
            Some(output)
        } else {
            None
        },
{
    lemma_cache_position_bounds(es, q);
    let after = cache_stored(es, q, stored, output);
    match cache_position(es, q) {
        Some(k) => {
            assert forall|j: int| 0 <= j < k implies after[j].0 != q by {
                assert(after[j] == es[j]);
            }
            lemma_cache_position_unique(after, q, k);
        },
        None => {
            assert forall|j: int| 0 <= j < es.len() implies after[j].0 != q by {
                assert(after[j] == es[j]);
            }
            lemma_cache_position_unique(after, q, es.len() as int);
        },
    }
}

/// Storing an output for one query leaves what is cached for every other query unchanged.
pub proof fn lemma_cache_store_keeps_others(
    es: Seq<(Seq<char>, u64, Seq<char>)>,
    q: Seq<char>,
    stored: u64,
    output: Seq<char>,
    other: Seq<char>,
    now: u64,
)
    requires
        other != q,
    ensures
        cached_output(cache_stored(es, q, stored, output), other, now) == cached_output(
            es,
            other,
            now,
        ),
{
    lemma_cache_position_bounds(es, q);
    lemma_cache_position_bounds(es, other);
    let after = cache_stored(es, q, stored, output);
    match cache_position(es, other) {
        Some(k) => {
            assert(after[k] == es[k]);
            assert forall|j: int| 0 <= j < k implies after[j].0 != other by {
                if cache_position(es, q) == Some(j) {
                } else {
                    assert(after[j] == es[j]);
                }
            }
            lemma_cache_position_unique(after, other, k);
        },
        None => {
            assert forall|j: int| 0 <= j < after.len() implies after[j].0 != other by {
                if j < es.len() && cache_position(es, q) != Some(j) {
                    assert(after[j] == es[j]);
                }
            }
            lemma_cache_position_none(after, other);
        },
    }
}

impl SearchCache {
    /// The cached entries, in insertion order.
    pub closed spec fn view(&self) -> Seq<(Seq<char>, u64, Seq<char>)> {
        entries_view(self.entries@)
    }

    /// An empty cache.
    pub fn new() -> (c: Self)
        ensures
            c.view() == Seq::<(Seq<char>, u64, Seq<char>)>::empty(),
    {
        let c = SearchCache { entries: Vec::new() };
        assert(c.view() =~= Seq::<(Seq<char>, u64, Seq<char>)>::empty());
        c
    }

    /// The output cached for `query` at time `now_ms`, if it is still fresh.
    pub fn lookup(&self, query: &str, now_ms: u64) -> (r: Option<String>)
        ensures
            match r {
                Some(s) => cached_output(self.view(), query@, now_ms) == Some(s@),
                None => cached_output(self.view(), query@, now_ms) is None,
            },
    {
        match self.position(query) {
            Some(k) => {
                let e = &self.entries[k];
                assert(self.view()[k as int] == entry_view(*e));
                let elapsed: u64 = if now_ms >= e.stored_at_ms {
                    now_ms - e.stored_at_ms
                } else {
                    0
                };
                if elapsed < 900_000 {
                    Some(e.output.clone())
                } else {
                    None
                }
            },
            None => None,
        }
    }

    fn position(&self, query: &str) -> (r: Option<usize>)
        ensures
            match r {
                Some(k) => cache_position(self.view(), query@) == Some(k as int) && k
                    < self.entries@.len(),
                None => cache_position(self.view(), query@) is None,
            },
    {
        let q = chars_of(query);
        let mut i: usize = 0;
        while i < self.entries.len()
            invariant
                i <= self.entries@.len(),
                q@ == query@,
                forall|j: int| 0 <= j < i ==> self.view()[j].0 != query@,
            decreases self.entries@.len() - i,
        {
            let e = chars_of(self.entries[i].query.as_str());
            assert(self.view()[i as int] == entry_view(self.entries@[i as int]));
            if crate::text::chars_eq(&e, &q) {
                proof {
                    lemma_cache_position_unique(self.view(), query@, i as int);
                }
                return Some(i);
            }
            i += 1;
        }
        proof {
            lemma_cache_position_none(self.view(), query@);
        }
        None
    }

    /// Stores `output` for `query` at time `now_ms`, replacing an earlier entry.
    pub fn store(&mut self, query: &str, now_ms: u64, output: &str)
        ensures
            final(self).view() == cache_stored(old(self).view(), query@, now_ms, output@),
    {
        let e = CacheEntry { query: query.to_owned(), stored_at_ms: now_ms, output: output.to_owned() };
        let ghost before = self.entries@;
        match self.position(query) {
            Some(k) => {
                self.entries.set(k, e);
                assert(entries_view(self.entries@) =~= entries_view(before).update(
                    k as int,
                    (query@, now_ms, output@),
                ));
            },
            None => {
                self.entries.push(e);
                assert(entries_view(self.entries@) =~= entries_view(before).push(
                    (query@, now_ms, output@),
                ));
            },
        }
    }
}

/// The trimmed query, or an error for a blank one.
pub open spec fn prepared_query(query: Seq<char>) -> Result<Seq<char>, ToolErrorView> {
    if trim(query).len() == 0 {
        Err(ToolErrorView::InvalidArguments("search_web"@, "Query string cannot be empty"@))
    } else {
        Ok(trim(query))
    }
}

pub open spec fn text_result(r: Result<String, ToolError>) -> Result<Seq<char>, ToolErrorView> {
    match r {
        Ok(s) => Ok(s@),
        Err(e) => Err(tool_error_view(e)),
    }
}

impl WebSearchService {
    /// Trims a search query; a blank query is refused.
    pub fn prepare_query(query: &str) -> (r: Result<String, ToolError>)
        ensures
            text_result(r) == prepared_query(query@),
    {
        let q = str_trim(query);
        if q.as_str().is_empty() {
            Err(
                ToolError::InvalidArguments {
                    name: "search_web".to_owned(),
                    reason: "Query string cannot be empty".to_owned(),
                },
            )
        } else {
            Ok(q)
        }
    }

    /// The providers to try, in order, given the Tavily and Brave API keys when set.
    pub fn provider_plan(tavily_key: Option<&str>, brave_key: Option<&str>) -> (r: Vec<
        SearchProvider,
    >)
        ensures
            r@ == provider_order(opt_str_view(tavily_key), opt_str_view(brave_key)),
    {
        let mut r: Vec<SearchProvider> = Vec::new();
        if key_is_usable(tavily_key) {
            r.push(SearchProvider::Tavily);
        }
        if key_is_usable(brave_key) {
            r.push(SearchProvider::Brave);
        }
        r.push(SearchProvider::DuckDuckGo);
        assert(r@ =~= provider_order(opt_str_view(tavily_key), opt_str_view(brave_key)));
        r
    }

    /// The answer for a query served from the cache.
    pub fn cached_answer(output: &str) -> (r: String)
        ensures
            r@ == cached_answer_text(output@),
    {
        concat2("ℹ [Cached Result]\n\n", output)
    }

    /// Results of a Tavily response body (`results[].title`, `url`, `content`).
    pub fn parse_tavily_response(body: &str) -> (r: Result<Vec<SearchResult>, ToolError>)
        ensures
            results_result_view(r) == response_results(body@, "results"@, None, "content"@),
    {
        results_from_response(body, "results", None, "content")
    }

    /// Results of a Brave response body (`web.results[].title`, `url`, `description`).
    pub fn parse_brave_response(body: &str) -> (r: Result<Vec<SearchResult>, ToolError>)
        ensures
            results_result_view(r) == response_results(
                body@,
                "web"@,
                Some("results"@),
                "description"@,
            ),
    {
        results_from_response(body, "web", Some("results"), "description")
    }

    /// Results of a DuckDuckGo HTML result page, at most `max_results` of them.
    pub fn parse_duckduckgo_page(html: &str, max_results: usize) -> (r: Vec<SearchResult>)
        ensures
            results_view(r@) == collect_hits(ddg_page_hits(html@), max_results as nat, Seq::empty()),
    {
        let hits = ddg_hits(html);
        results_from_hits(&hits, max_results)
    }

    /// What follows one provider's answer: results are formatted into the answer (which
    /// the caller caches); a failure moves on to the next provider, except a failure of
    /// DuckDuckGo, the last one, which is the search's error.
    pub fn after_provider(
        provider: SearchProvider,
        outcome: Result<Vec<SearchResult>, ToolError>,
        query: &str,
    ) -> (r: SearchStep)
        ensures
            match outcome {
                Ok(res) => r matches SearchStep::Done(s) && s@ == formatted_results(res@, query@),
                Err(e) => if provider == SearchProvider::DuckDuckGo {
                    r == SearchStep::Failed(e)
                } else {
                    r is Next
                },
            },
    {
        match outcome {
            Ok(res) => SearchStep::Done(Self::format_results(res.as_slice(), query)),
            Err(e) => if provider == SearchProvider::DuckDuckGo {
                SearchStep::Failed(e)
            } else {
                SearchStep::Next
            },
        }
    }

    /// Formats search results into clean Markdown with direct links and snippets.
    pub fn format_results(results: &[SearchResult], query: &str) -> (r: String)
        ensures
            r@ == formatted_results(results@, query@),
    {
        if results.len() == 0 {
            return concat3("ℹ No search results found for query: \"", query, "\"");
        }
        let mut out = concat3("🔍 Web Search Results for \"", query, "\":\n\n");
        let ghost head = out@;
        let mut idx: usize = 0;
        assert(results@.take(0) =~= Seq::<SearchResult>::empty());
        while idx < results.len()
            invariant
                idx <= results@.len(),
                out@ == head + entries_text(results@.take(idx as int)),
            decreases results@.len() - idx,
        {
            let ghost before = out@;
            let r = &results[idx];
            let n = u64_to_decimal((idx + 1) as u64);
            push_chars(&mut out, &n);
            push_str(&mut out, ". **[");
            push_str(&mut out, r.title.as_str());
            push_str(&mut out, "](");
            push_str(&mut out, r.url.as_str());
            push_str(&mut out, ")**\n   ");
            push_str(&mut out, r.snippet.as_str());
            push_str(&mut out, "\n\n");
            proof {
                assert(results@.take(idx + 1).drop_last() =~= results@.take(idx as int));
                assert(results@.take(idx + 1).last() == results@[idx as int]);
                assert(out@ =~= before + result_entry(idx as nat, results@[idx as int]));
            }
            idx += 1;
        }
        assert(results@.take(results@.len() as int) =~= results@);
        out
    }
}

} // verus!
