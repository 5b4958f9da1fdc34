//! The integer and text parts of the context diagnostics snapshot: the prefix cache each
//! provider offers, the token estimate of the rules and the
//! memory keys sampled for display.

use vstd::prelude::*;
use crate::text::{chars_eq, chars_of, extend_chars, lowercase, str_to_lowercase, string_from_chars};

verus! {

/// Prefix cache mechanism of a provider, by its lower-cased name.
pub open spec fn cache_kind_text(provider: Seq<char>) -> Seq<char> {
    let p = lowercase(provider);
    if p == "anthropic"@ {
        "Anthropic Ephemeral Cache Breakpoints (System Prompt + Tools)"@
    } else if p == "openai"@ || p == "openrouter"@ || p == "deepseek"@ {
        "OpenAI / DeepSeek Automatic 1024-Token Aligned Prefix Cache"@
    } else if p == "gemini"@ {
        "Google Gemini Explicit Context Caching"@
    } else if p == "ollama"@ || p == "local"@ {
        "Local Runtime / LMCache KV-Cache Tensor Reuse"@
    } else {
        "Standard Provider Prefix Cache"@
    }
}

/// Describes the prefix cache mechanism of a provider.
pub fn provider_cache_kind(provider: &str) -> (r: String)
    ensures
        r@ == cache_kind_text(provider@),
{
    let p = chars_of(str_to_lowercase(provider).as_str());
    if chars_eq(&p, &chars_of("anthropic")) {
        "Anthropic Ephemeral Cache Breakpoints (System Prompt + Tools)".to_owned()
    } else if chars_eq(&p, &chars_of("openai")) || chars_eq(&p, &chars_of("openrouter"))
        || chars_eq(&p, &chars_of("deepseek")) {
        "OpenAI / DeepSeek Automatic 1024-Token Aligned Prefix Cache".to_owned()
    } else if chars_eq(&p, &chars_of("gemini")) {
        "Google Gemini Explicit Context Caching".to_owned()
    } else if chars_eq(&p, &chars_of("ollama")) || chars_eq(&p, &chars_of("local")) {
        "Local Runtime / LMCache KV-Cache Tensor Reuse".to_owned()
    } else {
        "Standard Provider Prefix Cache".to_owned()
    }
}

/// Estimated tokens of the rules text: a quarter of its length in bytes.
pub fn rules_token_estimate(byte_len: usize) -> (r: usize)
    ensures
        r == byte_len / 4,
{
    byte_len / 4
}

/// A memory entry of tiers 1 to 3: its tier badge and key.
#[derive(Debug, Clone)]
pub struct MemoryEntry {
    pub badge: String,
    pub key: String,
}

pub open spec fn entry_label(e: MemoryEntry) -> Seq<char> {
    e.badge@ + ": "@ + e.key@
}

/// All labels in display order: working memory keys, then the entries of tiers 1, 2 and 3.
pub open spec fn memory_labels(working: Seq<String>, tiers: Seq<MemoryEntry>) -> Seq<Seq<char>> {
    working.map_values(|k: String| "[L0 Working]: "@ + k@) + tiers.map_values(
        |e: MemoryEntry| entry_label(e),
    )
}

/// At most six memory keys for display: the working memory keys first, then the entries of
/// the higher tiers, in order.
pub fn sample_memory_keys(working: &Vec<String>, tiers: &Vec<MemoryEntry>) -> (r: Vec<String>)
    ensures
        r@.map_values(|s: String| s@) == memory_labels(working@, tiers@).take(
            if memory_labels(working@, tiers@).len() < 6 {
                memory_labels(working@, tiers@).len() as int
            } else {
                6
            },
        ),
{
    let ghost all = memory_labels(working@, tiers@);
    let mut out: Vec<String> = Vec::new();
    let mut i: usize = 0;
    assert(out@.map_values(|s: String| s@) =~= all.take(0));
    while i < working.len()
        invariant
            i <= working@.len(),
            all == memory_labels(working@, tiers@),
            out@.len() <= 6,
            out@.len() == if i < 6 {
                i as int
            } else {
                6
            },
            out@.map_values(|s: String| s@) == all.take(out@.len() as int),
        decreases working@.len() - i,
    {
        if out.len() < 6 {
            let ghost before = out@;
            let mut v = chars_of("[L0 Working]: ");
            extend_chars(&mut v, &chars_of(working[i].as_str()));
            out.push(string_from_chars(&v));
            assert(all[i as int] == "[L0 Working]: "@ + working@[i as int]@);
            assert(out@.map_values(|s: String| s@) =~= all.take(out@.len() as int));
        }
        i += 1;
    }
    let mut j: usize = 0;
    while j < tiers.len()
        invariant
            j <= tiers@.len(),
            all == memory_labels(working@, tiers@),
            all.len() == working@.len() + tiers@.len(),
            out@.len() <= 6,
            out@.len() == if working@.len() + j < 6 {
                working@.len() + j
            } else {
                6
            },
            out@.map_values(|s: String| s@) == all.take(out@.len() as int),
        decreases tiers@.len() - j,
    {
        if out.len() < 6 {
            let mut v = chars_of(tiers[j].badge.as_str());
            extend_chars(&mut v, &chars_of(": "));
            extend_chars(&mut v, &chars_of(tiers[j].key.as_str()));
            out.push(string_from_chars(&v));
            assert(all[working@.len() + j] == entry_label(tiers@[j as int]));
            assert(out@.map_values(|s: String| s@) =~= all.take(out@.len() as int));
        }
        j += 1;
    }
    out
}

} // verus!
